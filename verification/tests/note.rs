//! The score tree's accessors and constructors.

use mmlx::note::{Duration, Envelope, EnvelopePoint, InterpolationType, Note, ParamValue, TimeUnit, TICKS_PER_WHOLE};

#[test]
fn param_values_answer_their_own_kind_only() {
    let s = ParamValue::String("square".to_string());
    assert_eq!(s.as_string(), Some(&"square".to_string()));
    assert_eq!(s.as_number(), None);
    let n = ParamValue::Number(0.5f32.to_bits());
    assert_eq!(n.as_number(), Some(0.5f32.to_bits()));
    assert_eq!(n.as_string(), None);
    assert!(n.as_note().is_none());
    let note = ParamValue::Note(Box::new(Note::Rest { duration: 4, parameters: Vec::new() }));
    assert_eq!(note.as_note(), Some(&Note::Rest { duration: 4, parameters: Vec::new() }));
    assert!(note.as_envelope().is_none());
    let env = ParamValue::Envelope(Envelope::with_points("gain", Vec::new()));
    assert_eq!(env.as_envelope().map(|e| e.target.as_str()), Some("gain"));
    assert_eq!(ParamValue::Unset.as_string(), None);
}

#[test]
fn base_durations_of_atoms_and_rests() {
    let q = TICKS_PER_WHOLE / 4;
    assert_eq!(Note::Atom { midi: 60, duration: q, parameters: Vec::new() }.get_base_duration(), Some(q));
    assert_eq!(Note::Rest { duration: 2 * q, parameters: Vec::new() }.get_base_duration(), Some(2 * q));
    assert_eq!(Note::DurationTie { duration: q }.get_base_duration(), None);
    assert_eq!(Note::Serial(Vec::new()).get_base_duration(), None);
}

#[test]
fn envelope_points_and_curves() {
    let p = EnvelopePoint::new_note(1.0f32.to_bits(), "q");
    assert_eq!(p.value, 1.0f32.to_bits());
    assert_eq!(p.duration, Duration::Note("q".to_string()));
    assert_eq!(EnvelopePoint::new_seconds(0, 2.0f32.to_bits()).duration, Duration::Time(2.0f32.to_bits(), TimeUnit::Seconds));
    assert_eq!(EnvelopePoint::new_ms(0, 250.0f32.to_bits()).duration, Duration::Time(250.0f32.to_bits(), TimeUnit::Milliseconds));
    assert_eq!(EnvelopePoint::new_percent(0, 50.0f32.to_bits()).duration, Duration::Time(50.0f32.to_bits(), TimeUnit::Percent));
    let linear = Envelope::with_points("cutoff", vec![EnvelopePoint::new_ms(0.7f32.to_bits(), 10.0f32.to_bits())]);
    assert_eq!(linear.target, "cutoff");
    assert_eq!(linear.points.len(), 1);
    assert_eq!(linear.interpolation, InterpolationType::Linear);
    let cosine = Envelope::with_interpolation("pan", Vec::new(), InterpolationType::Cosine);
    assert_eq!(cosine.interpolation, InterpolationType::Cosine);
    assert_eq!(cosine.target, "pan");
}

#[test]
fn param_values_from_strings_notes_and_envelopes() {
    assert_eq!(ParamValue::from("lead".to_string()), ParamValue::String("lead".to_string()));
    let rest = Note::Rest { duration: 8, parameters: Vec::new() };
    assert_eq!(
        ParamValue::from(Note::Rest { duration: 8, parameters: Vec::new() }),
        ParamValue::Note(Box::new(rest))
    );
    let env = ParamValue::from(Envelope::with_points("pan", Vec::new()));
    assert_eq!(env.as_envelope().map(|e| e.target.as_str()), Some("pan"));
}
