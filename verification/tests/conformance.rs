use mmlx::conformance::{all_features, song_by_name};
use mmlx::note::{Note, ParamValue};
use mmlx::songs::song_stream_by_name;

/// Whether some block failed to resolve (an empty parallel block stands in).
fn has_silence(n: &Note) -> bool {
    match n {
        Note::Parallel(v) if v.is_empty() => true,
        Note::Serial(v) | Note::Parallel(v) | Note::ParallelMin(v) | Note::ForkSequence(v) | Note::ForkParallel(v) => {
            v.iter().any(has_silence)
        }
        Note::ParamSetter { value: ParamValue::Note(b), .. } => has_silence(b),
        _ => false,
    }
}

fn count(n: &Note, f: &dyn Fn(&Note) -> bool) -> usize {
    let inner = match n {
        Note::Serial(v) | Note::Parallel(v) | Note::ParallelMin(v) | Note::ForkSequence(v) | Note::ForkParallel(v) => {
            v.iter().map(|c| count(c, f)).sum()
        }
        _ => 0,
    };
    inner + if f(n) { 1 } else { 0 }
}

fn setter_keys(n: &Note, out: &mut Vec<String>) {
    match n {
        Note::ParamSetter { key, .. } => out.push(key.clone()),
        Note::Serial(v) | Note::Parallel(v) | Note::ParallelMin(v) | Note::ForkSequence(v) | Note::ForkParallel(v) => {
            for c in v {
                setter_keys(c, out);
            }
        }
        _ => {}
    }
}

#[test]
fn registry_resolves_compiled_songs() {
    for name in ["all_features"] {
        let song = song_by_name(name).unwrap_or_else(|| panic!("registry misses {name}"));
        assert!(count(&song, &|n| matches!(n, Note::Atom { .. })) > 0, "{name} streams notes");
    }
    assert!(song_by_name("no_such_song").is_none());
    assert!(song_stream_by_name("no_such_song", 0).is_none());
    assert!(song_stream_by_name("alisia_stage1", 0).is_some());
}

#[test]
fn registry_plays_the_conformance_song() {
    assert_eq!(song_by_name("all_features"), Some(all_features()));
}

#[test]
fn conformance_song_resolves_every_section() {
    let song = all_features();
    assert!(!has_silence(&song), "every block resolves");
    match &song {
        Note::Serial(items) => {
            assert_eq!(items.len(), 16);
            assert_eq!(items[0], Note::Comment("mmlx all-features conformance song".to_string()));
        }
        other => panic!("expected a sequence, got {other:?}"),
    }
}

#[test]
fn conformance_song_has_many_notes_rests_and_params() {
    let song = all_features();
    assert!(count(&song, &|n| matches!(n, Note::Atom { .. })) > 20);
    assert!(count(&song, &|n| matches!(n, Note::Rest { .. })) >= 2);
    assert!(count(&song, &|n| matches!(n, Note::ParamSetter { .. })) >= 5);
    assert_eq!(count(&song, &|n| matches!(n, Note::Comment(_))), 1);
}

#[test]
fn conformance_song_keys_are_resolved_by_prefix() {
    let mut keys = Vec::new();
    setter_keys(&all_features(), &mut keys);
    assert!(keys.iter().any(|k| k == "time_beat"), "{keys:?}");
    assert!(keys.iter().any(|k| k == "time_note"), "{keys:?}");
    assert!(!keys.iter().any(|k| k == "time_b" || k == "time_n"));
}

#[test]
fn conformance_envelopes_are_retargeted() {
    let mut found = Vec::new();
    fn walk(n: &Note, found: &mut Vec<String>) {
        match n {
            Note::ParamSetter { value: ParamValue::Envelope(e), .. } => found.push(e.target.clone()),
            Note::Atom { parameters, .. } => {
                for (_, v) in parameters {
                    if let ParamValue::Envelope(e) = v {
                        found.push(e.target.clone());
                    }
                }
            }
            Note::Serial(v) | Note::Parallel(v) | Note::ParallelMin(v) | Note::ForkSequence(v) | Note::ForkParallel(v) => {
                for c in v {
                    walk(c, found);
                }
            }
            _ => {}
        }
    }
    walk(&all_features(), &mut found);
    for t in ["volume", "pitch", "duty", "note", "attack_envelope", "release_envelope"] {
        assert!(found.iter().any(|f| f == t), "{t} missing from {found:?}");
    }
}
