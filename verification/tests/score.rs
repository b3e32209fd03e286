//! Score structure: `bar`/`track` build the same trees as `par`/`ser`.

use mmlx::compose::{bar, par, ser, track};
use mmlx::names::note_named;
use mmlx::note::{Note, ParamValue};
use mmlx::params::create_param_setter;

fn n(name: &str) -> Note {
    note_named(name).unwrap()
}

fn voice(instrument: &str, channel_key: &str, channel: f32) -> Note {
    Note::Serial(vec![
        create_param_setter("instrument", ParamValue::String(instrument.to_string()), None),
        create_param_setter(channel_key, ParamValue::Number(channel.to_bits()), None),
    ])
}

#[test]
fn bar_track_match_par_ser() {
    let voice_lead = voice("ym", "ym_channel", 0.0);
    let voice_bass = voice("ym", "ym_channel", 1.0);
    let plain = ser(vec![par(vec![
        ser(vec![voice_lead.duplicate(), n("c4q"), n("d4q")]),
        ser(vec![voice_bass.duplicate(), n("c2h")]),
    ])]);
    let scored = ser(vec![bar(vec![
        track(vec![voice_lead, n("c4q"), n("d4q")]),
        track(vec![voice_bass, n("c2h")]),
    ])]);
    assert_eq!(plain, scored);
}

#[test]
fn bar_without_voices_needs_no_args() {
    let plain = ser(vec![par(vec![ser(vec![n("rw")])])]);
    let scored = ser(vec![bar(vec![track(vec![n("rw")])])]);
    assert_eq!(plain, scored);
}
