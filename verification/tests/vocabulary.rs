//! Key signatures, parameter names, note names and their descriptions.

use mmlx::words::{duration_code_of, spell_pitch};
use mmlx::keysig::{
    get_base_midi_and_offset, get_key_signature_adjustment, parse_key_signature,
    try_key_signature_adjustment, try_parse_key_signature,
};
use mmlx::names::note_named;
use mmlx::note::{Note, ParamValue, TICKS_PER_WHOLE};
use mmlx::params::{
    create_param_setter, match_prefix, resolve_key_value, try_create_param_setter,
    try_resolve_key_value, valid_noise_types, valid_param_keys, valid_patches, ParamError,
};
use mmlx::words::{pitch_words, value_words};

#[test]
fn base_midi_and_offset() {
    assert_eq!(get_base_midi_and_offset(60), (60, 0));
    assert_eq!(get_base_midi_and_offset(61), (61, 0));
    assert_eq!(get_base_midi_and_offset(62), (60, 2));
    assert_eq!(get_base_midi_and_offset(66), (61, 5));
}

#[test]
fn key_signatures_parse() {
    assert_eq!(parse_key_signature("Cmaj"), (0, 0));
    assert_eq!(parse_key_signature("amin"), (9, -1));
    assert_eq!(parse_key_signature("Bbmaj"), (10, 0));
    assert_eq!(parse_key_signature("f#min"), (6, -1));
    assert_eq!(parse_key_signature("dm"), (2, -1));
    assert_eq!(parse_key_signature("G"), (7, 0));
    assert_eq!(try_parse_key_signature("xmaj"), None);
    assert_eq!(try_parse_key_signature(""), None);
}

#[test]
fn key_signature_adjustments() {
    // A natural minor on C: E flat, A flat, B flat.
    assert_eq!(get_key_signature_adjustment("cmin", 4), -1);
    assert_eq!(get_key_signature_adjustment("cmin", 3), 1);
    assert_eq!(get_key_signature_adjustment("cmaj", 4), 0);
    assert_eq!(get_key_signature_adjustment("cmaj", 1), 0);
    assert_eq!(try_key_signature_adjustment("h", 0), None);
}

#[test]
fn prefix_matching() {
    let options: &[&'static str] = &["tempo", "time_note", "time_beat", "gate"];
    assert_eq!(match_prefix("tempo", options), Ok("tempo"));
    assert_eq!(match_prefix("GATE", options), Ok("gate"));
    assert_eq!(match_prefix("ga", options), Ok("gate"));
    assert_eq!(match_prefix("TE", options), Ok("tempo"));
    assert_eq!(match_prefix("", options), Err("Input cannot be empty.".to_string()));
    assert_eq!(
        match_prefix("zz", options),
        Err("Unknown input \"zz\". Valid options starting with \"zz\": []".to_string())
    );
    assert_eq!(
        match_prefix("ti", options),
        Err("Ambiguous input \"ti\". Possible matches: [\"time_note\", \"time_beat\"]".to_string())
    );
}

#[test]
fn vocabularies() {
    assert_eq!(valid_param_keys().len(), 115);
    assert!(valid_param_keys().contains(&"ym_channel"));
    assert_eq!(valid_patches(), &["sine", "square", "triangle", "sawtooth", "noise"]);
    assert_eq!(valid_noise_types().len(), 4);
}

#[test]
fn param_setters_resolve() {
    assert_eq!(
        create_param_setter("tem", ParamValue::Number(120.0f32.to_bits()), None),
        Note::ParamSetter { key: "tempo".to_string(), value: ParamValue::Number(120.0f32.to_bits()) }
    );
    assert_eq!(
        create_param_setter("patch", ParamValue::String("saw".to_string()), None),
        Note::ParamSetter { key: "patch".to_string(), value: ParamValue::String("sawtooth".to_string()) }
    );
    // A numeric string becomes the number it parses to.
    assert_eq!(
        resolve_key_value("velocity", "90", Some(90.0f32.to_bits())),
        ("velocity".to_string(), ParamValue::Number(90.0f32.to_bits()))
    );
    assert_eq!(
        resolve_key_value("instrument", "ym", None),
        ("instrument".to_string(), ParamValue::String("ym".to_string()))
    );
}

#[test]
fn param_setter_errors() {
    assert_eq!(
        try_create_param_setter("nonsense", ParamValue::Unset, None),
        Err(ParamError::InvalidKey)
    );
    let env = mmlx::note::Envelope {
        target: "x".to_string(),
        points: vec![],
        interpolation: mmlx::note::InterpolationType::Linear,
    };
    assert_eq!(
        try_create_param_setter("instrument", ParamValue::Note(Box::new(Note::Envelope(env))), None),
        Err(ParamError::EnvelopeNotAccepted)
    );
    assert!(matches!(
        try_create_param_setter("patch", ParamValue::String("s".to_string()), None),
        Err(ParamError::InvalidValue(_))
    ));
    assert!(try_resolve_key_value("noise_type", "whi", None).is_ok());
}

#[test]
fn envelope_values_are_retargeted() {
    let env = mmlx::note::Envelope {
        target: "x".to_string(),
        points: vec![],
        interpolation: mmlx::note::InterpolationType::Cosine,
    };
    let setter = create_param_setter("pan", ParamValue::Note(Box::new(Note::Envelope(env))), None);
    match setter {
        Note::ParamSetter { key, value: ParamValue::Envelope(e) } => {
            assert_eq!(key, "pan");
            assert_eq!(e.target, "pan");
        }
        other => panic!("{other:?}"),
    }
}

#[test]
fn note_names_resolve() {
    let q = TICKS_PER_WHOLE / 4;
    assert_eq!(note_named("c4q"), Some(Note::Atom { midi: 60, duration: q, parameters: vec![] }));
    assert_eq!(note_named("cs4q"), Some(Note::Atom { midi: 61, duration: q, parameters: vec![] }));
    assert_eq!(note_named("bff3hd"), Some(Note::Atom { midi: 57, duration: 3 * q, parameters: vec![] }));
    assert_eq!(note_named("c_1w"), Some(Note::Atom { midi: 0, duration: TICKS_PER_WHOLE, parameters: vec![] }));
    assert_eq!(note_named("g9o").map(|n| matches!(n, Note::Atom { midi: 127, .. })), Some(true));
    assert_eq!(note_named("gs9o"), None);
    assert_eq!(note_named("rq"), Some(Note::Rest { duration: q, parameters: vec![] }));
    assert_eq!(note_named("hddd"), Some(Note::DurationTie { duration: TICKS_PER_WHOLE * 15 / 16 }));
    assert_eq!(note_named("p"), Some(Note::PreviousPitch { optional_duration: None, parameters: vec![] }));
    assert_eq!(note_named("pe"), Some(Note::PreviousPitch { optional_duration: Some(q / 2), parameters: vec![] }));
    assert_eq!(note_named("oddd"), Some(Note::DurationTie { duration: 18900 }));
    assert_eq!(note_named("cnn4q"), note_named("c4q"));
    assert_eq!(note_named("c4qdddd"), None);
    assert_eq!(note_named("cx4q"), None);
    assert_eq!(note_named(""), None);
}

#[test]
fn words_describe_values_and_pitches() {
    assert_eq!(value_words("q", 0), "quarter note (1/4)");
    assert_eq!(value_words("q", 1), "dotted quarter note (3/8)");
    assert_eq!(value_words("w", 3), "triple-dotted whole note (15/8)");
    assert_eq!(value_words("zz", 2), "double-dotted hundred-twenty-eighth note (7/512)");
    assert_eq!(pitch_words("c", "", 4, 60), "middle C (C4), MIDI 60");
    assert_eq!(pitch_words("f", "#", -1, 6), "F#-1, MIDI 6");
}

#[test]
fn match_prefix_counts_a_repeated_option_once() {
    let options: &[&'static str] = &["time_beat", "tempo", "time_beat"];
    assert_eq!(match_prefix("time_b", options), Ok("time_beat"));
    let ambiguous = match_prefix("t", options).unwrap_err();
    assert_eq!(ambiguous, "Ambiguous input \"t\". Possible matches: [\"time_beat\", \"tempo\"]");
}

#[test]
fn pitches_and_durations_are_written_as_in_scores() {
    assert_eq!(spell_pitch(60), "c4");
    assert_eq!(spell_pitch(61), "cs4");
    assert_eq!(spell_pitch(69), "a4");
    assert_eq!(spell_pitch(127), "g9");
    assert_eq!(spell_pitch(11), "b0");
    assert_eq!(spell_pitch(12), "c0");
    assert_eq!(duration_code_of(322_560), Some("q"));
    assert_eq!(duration_code_of(483_840), Some("qd"));
    assert_eq!(duration_code_of(1_935_360), Some("wd"));
    assert_eq!(duration_code_of(10_080), Some("o"));
    assert_eq!(duration_code_of(322_561), None);
}
