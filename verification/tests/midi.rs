//! Standard MIDI file export and import.

use mmlx::midi::{
    build_track, events_to_smf, events_to_smf_multi, import_tracks, index_pitches, patch_program,
    smf_to_note, try_smf_to_note, ExportEvent, ExportKind, SmfTiming, TrackItem, TrackMessage,
};
use mmlx::note::{Note, ParamValue, TICKS_PER_WHOLE};

fn on(tick: u32, id: u64, pitch: u8, instrument: &str, patch: Option<&str>) -> ExportEvent {
    ExportEvent {
        tick,
        kind: ExportKind::NoteOn { note_id: id, pitch, velocity: 100, patch: patch.map(str::to_string) },
        instrument: instrument.to_string(),
    }
}

fn off(tick: u32, id: u64, instrument: &str) -> ExportEvent {
    ExportEvent { tick, kind: ExportKind::NoteOff { note_id: id }, instrument: instrument.to_string() }
}

fn other(tick: u32, instrument: &str) -> ExportEvent {
    ExportEvent { tick, kind: ExportKind::Other, instrument: instrument.to_string() }
}

/// `ser!([param!(tempo = 120), c4q, e4q, g4q])` at 480 ticks per quarter.
fn three_quarters() -> Vec<ExportEvent> {
    vec![
        other(0, "basic_synth"),
        on(0, 1, 60, "basic_synth", None),
        off(480, 1, "basic_synth"),
        on(480, 2, 64, "basic_synth", None),
        off(960, 2, "basic_synth"),
        on(960, 3, 67, "basic_synth", None),
        off(1440, 3, "basic_synth"),
    ]
}

#[test]
fn export_parses_back() {
    let events = three_quarters();
    let expected_ons = events.iter().filter(|e| matches!(e.kind, ExportKind::NoteOn { .. })).count();
    let bytes = events_to_smf(&events, 480, 500_000);
    assert!(!bytes.is_empty());
    let smf = midly::Smf::parse(&bytes).expect("parse exported SMF");
    assert_eq!(smf.tracks.len(), 1);
    let mut ons = 0;
    let mut offs = 0;
    let mut first_pitch = None;
    for event in &smf.tracks[0] {
        if let midly::TrackEventKind::Midi { message, .. } = event.kind {
            match message {
                midly::MidiMessage::NoteOn { key, .. } => {
                    ons += 1;
                    first_pitch.get_or_insert(u8::from(key));
                }
                midly::MidiMessage::NoteOff { .. } => offs += 1,
                _ => {}
            }
        }
    }
    assert_eq!(ons, expected_ons);
    assert_eq!(offs, ons);
    assert_eq!(first_pitch, Some(60));
}

#[test]
fn multi_port_splits_instruments() {
    let events = vec![
        other(0, "lead"),
        other(0, "bass"),
        on(0, 1, 60, "lead", Some("square")),
        on(0, 2, 48, "bass", Some("triangle")),
        off(480, 1, "lead"),
        on(480, 3, 64, "lead", Some("square")),
        off(960, 3, "lead"),
        off(960, 2, "bass"),
    ];
    let bytes = events_to_smf_multi(&events, 480, 500_000);
    let smf = midly::Smf::parse(&bytes).expect("parse multi SMF");
    // Tempo track + one track per instrument.
    assert_eq!(smf.tracks.len(), 3);
    let counts: Vec<usize> = smf
        .tracks
        .iter()
        .map(|track| {
            track
                .iter()
                .filter(|event| {
                    matches!(
                        event.kind,
                        midly::TrackEventKind::Midi { message: midly::MidiMessage::NoteOn { .. }, .. }
                    )
                })
                .count()
        })
        .collect();
    assert_eq!(counts.iter().sum::<usize>(), 3);
    assert!(counts.contains(&2) && counts.contains(&1));
    // Tracks follow the sorted instrument names: bass (1 note), then lead (2).
    assert_eq!(counts, vec![0, 1, 2]);
}

#[test]
fn import_round_trips_pitches() {
    // c4q, rq, e4q, g4q
    let events = vec![
        on(0, 1, 60, "basic_synth", None),
        off(480, 1, "basic_synth"),
        other(480, "basic_synth"),
        on(960, 2, 64, "basic_synth", None),
        off(1440, 2, "basic_synth"),
        on(1440, 3, 67, "basic_synth", None),
        off(1920, 3, "basic_synth"),
    ];
    let bytes = events_to_smf(&events, 480, 500_000);
    let note = smf_to_note(&bytes).expect("import");
    let Note::Serial(items) = note else {
        panic!("import yields a Serial");
    };
    let pitches: Vec<Option<u8>> = items
        .iter()
        .map(|item| match item {
            Note::Atom { midi, .. } => Some(*midi),
            _ => None,
        })
        .collect();
    // c4, rest, e4, g4.
    assert_eq!(pitches, vec![Some(60), None, Some(64), Some(67)]);
    // Quarter notes come back as quarter notes.
    assert!(matches!(items[0], Note::Atom { duration, .. } if duration == TICKS_PER_WHOLE / 4));
    assert!(matches!(items[1], Note::Rest { duration, .. } if duration == TICKS_PER_WHOLE / 4));
}

#[test]
fn patch_programs() {
    assert_eq!(patch_program("sine"), 80);
    assert_eq!(patch_program("square"), 81);
    assert_eq!(patch_program("triangle"), 80);
    assert_eq!(patch_program("sawtooth"), 82);
    assert_eq!(patch_program("noise"), 127);
    assert_eq!(patch_program("kazoo"), 81);
}

#[test]
fn track_orders_offs_before_ons_and_sends_program_once() {
    let events = vec![on(0, 1, 60, "x", Some("sine")), off(480, 1, "x"), on(480, 2, 62, "x", Some("noise"))];
    let pitches = index_pitches(&events);
    let track = build_track(&events, &pitches, 3, Some(500_000));
    assert_eq!(
        track,
        vec![
            TrackItem { delta: 0, message: TrackMessage::Tempo(500_000) },
            TrackItem { delta: 0, message: TrackMessage::ProgramChange { channel: 3, program: 80 } },
            TrackItem { delta: 0, message: TrackMessage::NoteOn { channel: 3, key: 60, vel: 100 } },
            TrackItem { delta: 480, message: TrackMessage::NoteOff { channel: 3, key: 60 } },
            TrackItem { delta: 0, message: TrackMessage::NoteOn { channel: 3, key: 62, vel: 100 } },
            TrackItem { delta: 0, message: TrackMessage::EndOfTrack },
        ]
    );
}

#[test]
fn unknown_note_off_is_dropped() {
    let events = vec![off(10, 99, "x")];
    let pitches = index_pitches(&events);
    let track = build_track(&events, &pitches, 0, None);
    assert_eq!(track, vec![TrackItem { delta: 0, message: TrackMessage::EndOfTrack }]);
}

#[test]
fn import_sorts_notes_and_keeps_velocity() {
    let tracks = vec![vec![
        TrackItem { delta: 480, message: TrackMessage::NoteOn { channel: 0, key: 64, vel: 90 } },
        TrackItem { delta: 480, message: TrackMessage::NoteOff { channel: 0, key: 64 } },
    ], vec![
        TrackItem { delta: 0, message: TrackMessage::NoteOn { channel: 1, key: 48, vel: 100 } },
        TrackItem { delta: 480, message: TrackMessage::NoteOn { channel: 1, key: 48, vel: 0 } },
    ]];
    let note = import_tracks(SmfTiming::Metrical(480), &tracks).unwrap();
    let q = TICKS_PER_WHOLE / 4;
    assert_eq!(
        note,
        Note::Serial(vec![
            Note::Atom { midi: 48, duration: q, parameters: vec![] },
            Note::Atom {
                midi: 64,
                duration: q,
                parameters: vec![("velocity".to_string(), ParamValue::Number(90.0f32.to_bits()))],
            },
        ])
    );
}

#[test]
fn import_errors() {
    assert_eq!(import_tracks(SmfTiming::Timecode, &vec![]), Err("timecode timing unsupported".to_string()));
    assert_eq!(import_tracks(SmfTiming::Metrical(0), &vec![]), Err("zero ticks per quarter note".to_string()));
    let err = smf_to_note(&[1, 2, 3]).unwrap_err();
    assert!(err.starts_with("SMF parse: "), "{err}");
    assert!(matches!(try_smf_to_note(&[1, 2, 3]), Some(Err(_))));
}

#[test]
fn velocity_bits_match_f32() {
    for v in [0u8, 1, 2, 3, 7, 64, 99, 101, 127, 200, 255] {
        let tracks = vec![vec![
            TrackItem { delta: 0, message: TrackMessage::NoteOn { channel: 0, key: 60, vel: v.max(1) } },
            TrackItem { delta: 1, message: TrackMessage::NoteOff { channel: 0, key: 60 } },
        ]];
        let Note::Serial(items) = import_tracks(SmfTiming::Metrical(96), &tracks).unwrap() else {
            panic!()
        };
        let Note::Atom { parameters, .. } = &items[0] else { panic!() };
        let vel = v.max(1);
        if vel == 100 {
            assert!(parameters.is_empty());
        } else {
            assert_eq!(parameters[0].1, ParamValue::Number((vel as f32).to_bits()));
        }
    }
}
