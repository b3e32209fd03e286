[package]
name = "mmlx"
version = "0.1.0"
edition = "2021"
publish = false

[dependencies]
linked-hash-map = "0.5"
midly = "0.5"
rand = "0.9"
proc-macro2 = "1"

[dev-dependencies]
proc-macro2 = "1"
