//! mmlx: a music macro language core whose composition logic is verified.
//!
//! Durations are exact tick counts (`TICKS_PER_WHOLE` ticks per whole note)
//! and real-valued parameters travel as IEEE-754 single-precision bit
//! patterns, so that every structural operation on scores can be stated and
//! proved over integers.

pub mod note;
pub mod attrs;
pub mod text;
pub mod edit;
pub mod compose;
pub mod series;
pub mod algo;
pub mod items;
pub mod keysig;
pub mod params;
pub mod ids;
pub mod audio;
pub mod repl;
pub mod words;
pub mod names;
pub mod midi;
pub mod sf2;
pub mod chip;
pub mod server;
pub mod laws;
pub mod routing;
pub mod transport;
pub mod synth;
pub mod score_text;
pub mod songs;
pub mod conformance;
pub mod scope;
