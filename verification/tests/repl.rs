//! The code wrapped around REPL expressions.

use mmlx::repl::{unique_suffix, wrap_iter, wrap_iter_with, wrap_note, wrap_note_with};

#[test]
fn wrappers_shape_code() {
    let wrapped = wrap_note("ser!([c4q])");
    assert!(wrapped.contains("ser!([c4q])"));
    assert!(wrapped.contains(": Note"));
    assert!(wrapped.contains("serde_json::to_string"));
    let iter_wrapped = wrap_iter("std::iter::once(c4q)");
    assert!(iter_wrapped.contains("Iterator<Item = Note>"));
    assert!(iter_wrapped.contains("__iter_"));
}

#[test]
fn suffixes_unique() {
    assert_ne!(unique_suffix(), unique_suffix());
    assert_eq!(unique_suffix().len(), 16);
}

#[test]
fn suffix_alphabet_is_alphanumeric() {
    let s = unique_suffix();
    assert!(s.chars().all(|c| c.is_ascii_alphanumeric()));
}

#[test]
fn wrapper_text_is_exact() {
    assert_eq!(
        wrap_note_with("c4q", "abc"),
        "{\n            let __note_abc: Note = { c4q };\n            serde_json::to_string(&__note_abc).unwrap()\n        }"
    );
    assert_eq!(
        wrap_iter_with("it", "xyz"),
        "{\n            let result = { it };\n            let mut __iter_xyz: Box<dyn Iterator<Item = Note> + Send + Sync + 'static> =\n                Box::new(result);\n            serde_json::to_string(\"__iter_xyz\").unwrap()\n        }"
    );
}
