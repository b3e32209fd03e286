use mmlx::note::{Note, TICKS_PER_WHOLE};
use mmlx::songs::{alisia_stage1, infinite_arp, loop_alisia_stage1, song_stream_by_name};

fn lanes(n: &Note) -> usize {
    match n {
        Note::Parallel(items) => items.len(),
        _ => 0,
    }
}

fn sounds(n: &Note) -> bool {
    match n {
        Note::Atom { .. } | Note::AtomImplicitDuration { .. } | Note::PreviousPitch { .. } => true,
        Note::Serial(v) | Note::Parallel(v) | Note::ParallelMin(v) | Note::ForkSequence(v) | Note::ForkParallel(v) => {
            v.iter().any(sounds)
        }
        _ => false,
    }
}

#[test]
fn full_song_streams_intro_then_loop_forever() {
    let bodies: Vec<Note> = (0..4u64)
        .map(|i| song_stream_by_name("alisia_stage1", i).expect("stream registry misses alisia_stage1"))
        .collect();
    assert_eq!(bodies.len(), 4);
    let (intro, loops) = bodies.split_first().expect("intro body");
    assert_eq!(loops.len(), 3);
    assert!(sounds(intro), "intro sounds");
    assert!(sounds(&loops[0]), "loop sounds");
    assert_ne!(*intro, loops[0], "intro differs from loop");
    for body in loops {
        assert_eq!(*body, loops[0], "loop repeats exactly");
    }
}

#[test]
fn stream_registry_knows_only_the_theme() {
    assert!(song_stream_by_name("no_such_song", 0).is_none());
    assert!(song_stream_by_name("alisia_stage1", 0).is_some());
    assert!(song_stream_by_name("alisia_stage1", 7).is_some());
}

#[test]
fn theme_resolves_to_ten_lanes() {
    // The tempo applies to the ten lanes: the text resolves in full.
    assert_eq!(lanes(&alisia_stage1()), 10);
    assert_eq!(lanes(&loop_alisia_stage1()), 10);
    assert_eq!(song_stream_by_name("alisia_stage1", 0), Some(alisia_stage1()));
    assert_eq!(song_stream_by_name("alisia_stage1", 1), Some(loop_alisia_stage1()));
}

fn first_atom(n: &Note) -> Option<&Note> {
    match n {
        Note::Atom { .. } => Some(n),
        Note::Serial(v) | Note::Parallel(v) => v.iter().find_map(first_atom),
        _ => None,
    }
}

#[test]
fn theme_carries_its_tempo() {
    // 116.955444 as a single-precision bit pattern.
    let tempo = mmlx::note::ParamValue::Number(0x42E9_E930);
    match first_atom(&alisia_stage1()) {
        Some(Note::Atom { parameters, .. }) => {
            assert!(parameters.iter().any(|(k, v)| k == "tempo" && *v == tempo), "{parameters:?}");
        }
        other => panic!("expected an atom, got {other:?}"),
    }
}

#[test]
fn infinite_stream_takes_lazily() {
    let first: Vec<Note> = (0..8u64).map(infinite_arp).collect();
    assert_eq!(first.len(), 8);
}

#[test]
fn arp_cycles_c_e_g_c() {
    let keys: Vec<u8> = (0..8u64)
        .map(|i| match infinite_arp(i) {
            Note::Atom { midi, duration, parameters } => {
                assert_eq!(duration, TICKS_PER_WHOLE / 4);
                assert!(parameters.is_empty());
                midi
            }
            other => panic!("expected an atom, got {other:?}"),
        })
        .collect();
    assert_eq!(keys, vec![60, 64, 67, 72, 60, 64, 67, 72]);
}
