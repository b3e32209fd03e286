//! Example and property tests of the note-list algorithms, with durations
//! in ticks (`TICKS_PER_WHOLE` per whole note).

use mmlx::algo::{
    ambitus, articulate, atom_parts, canon, chordize, continue_melody, dechord, dedup_repeats,
    demix, divide, divide_all, euclidean, harmonize, invert, lanes, lsystem_to_pitches,
    messiaen_permute, mix, retrograde, rotate, sample, scale, shuffle, to_bars, transpose_all, zip,
    AmbitusMode, Articulation,
};
use mmlx::note::{copy_notes, Note, ParamValue, TICKS_PER_WHOLE};
use mmlx::series::{infinity_series, lindenmayer, markov, schillinger, twelve_tone, walk};

const Q: u64 = TICKS_PER_WHOLE / 4;
const H: u64 = TICKS_PER_WHOLE / 2;

fn atom(midi: u8, duration: u64) -> Note {
    Note::Atom { midi, duration, parameters: Vec::new() }
}

fn rest(duration: u64) -> Note {
    Note::Rest { duration, parameters: Vec::new() }
}

fn midis(notes: &[Note]) -> Vec<Option<u8>> {
    notes
        .iter()
        .map(|note| match note {
            Note::Atom { midi, .. } => Some(*midi),
            _ => None,
        })
        .collect()
}

#[test]
fn retrograde_is_involution() {
    let notes = vec![atom(60, Q), atom(62, Q), atom(64, H)];
    assert_eq!(retrograde(retrograde(copy_notes(&notes))), notes);
    assert_eq!(midis(&retrograde(notes)), vec![Some(64), Some(62), Some(60)]);
}

#[test]
fn rotate_properties() {
    let notes = vec![atom(60, Q), atom(62, Q), atom(64, Q)];
    assert_eq!(rotate(copy_notes(&notes), 0), notes);
    assert_eq!(midis(&rotate(copy_notes(&notes), 1)), vec![Some(62), Some(64), Some(60)]);
    assert_eq!(rotate(copy_notes(&notes), 3), notes);
    assert_eq!(rotate(copy_notes(&notes), -1), rotate(notes, 2));
}

#[test]
fn divide_splits_duration() {
    let parts = divide(&atom(60, H), 4);
    assert_eq!(parts.len(), 4);
    let total: u64 = parts.iter().map(|note| atom_parts(note).unwrap().1).sum();
    assert_eq!(total, H);
    assert_eq!(divide_all(vec![atom(60, Q), rest(Q)], 2).len(), 4);
}

#[test]
fn dedup_keeps_runs() {
    let notes = vec![atom(60, Q), atom(60, Q), atom(60, Q), atom(62, Q)];
    assert_eq!(dedup_repeats(1, notes).len(), 2);
}

#[test]
fn transpose_clamps_and_invert_mirrors() {
    assert_eq!(midis(&transpose_all(vec![atom(127, Q)], 5)), vec![Some(127)]);
    let notes = vec![atom(60, Q), atom(64, Q)];
    assert_eq!(midis(&invert(notes, 60)), vec![Some(60), Some(56)]);
}

#[test]
fn ambitus_clip_and_fold() {
    let notes = vec![atom(40, Q), atom(90, Q)];
    assert_eq!(
        midis(&ambitus(copy_notes(&notes), 60, 72, AmbitusMode::Clip)),
        vec![Some(60), Some(72)]
    );
    // 40 + 24 = 64 in range; 90 - 24 = 66 in range.
    assert_eq!(midis(&ambitus(notes, 60, 72, AmbitusMode::Fold)), vec![Some(64), Some(66)]);
}

#[test]
fn scale_chords_and_voices() {
    let run = scale(60, &[2, 2, 1, 2, 2, 2, 1], Q, 8);
    assert_eq!(midis(&run).last(), Some(&Some(72)));
    let chord = chordize(vec![atom(60, H), atom(64, H)]);
    assert_eq!(dechord(&chord).len(), 2);
    let chords = vec![chord];
    assert_eq!(midis(&demix(&chords, 1)), vec![Some(64)]);
    assert_eq!(mix(&[vec![atom(60, H)], vec![atom(64, H)]]).len(), 1);
}

#[test]
fn augment_articulate_crescendo() {
    let stacc = articulate(vec![atom(60, Q)], Articulation::Staccato);
    match &stacc[0] {
        Note::Atom { parameters, .. } => {
            assert!(parameters.iter().any(|(key, value)| key == "gate"
                && matches!(value, ParamValue::Number(v) if (f32::from_bits(*v) - 0.5).abs() < 1e-6)));
        }
        _ => panic!("expected atom"),
    }
}

#[test]
fn zip_lanes_bars() {
    let zipped = zip(vec![60, 64], vec![Q]);
    assert_eq!(zipped.len(), 2);
    let (pitches, durations) = lanes(&zipped);
    assert_eq!(pitches, vec![Some(60), Some(64)]);
    assert_eq!(durations, vec![Q, Q]);
    // Two quarters (half a whole) fill one 2-beat bar; the third starts a new bar.
    let bars = to_bars(vec![atom(60, Q), atom(62, Q), atom(64, Q)], 2);
    assert_eq!(bars.len(), 2);
    assert_eq!(bars[0].len(), 2);
}

#[test]
fn seeded_processes_deterministic() {
    let notes = vec![atom(60, Q), atom(62, Q), atom(64, Q), atom(65, Q)];
    assert_eq!(shuffle(copy_notes(&notes), 7), shuffle(copy_notes(&notes), 7));
    // Permutation check: same multiset of pitches.
    let mut a = midis(&shuffle(copy_notes(&notes), 7));
    let mut b = midis(&notes);
    a.sort();
    b.sort();
    assert_eq!(a, b);
    assert_eq!(sample(&notes, 5, 3).len(), 5);
    assert_eq!(sample(&notes, 5, 3), sample(&notes, 5, 3));
    let walked = walk(60, 2, 50, 11);
    assert!(walked.iter().all(|pitch| *pitch <= 127));
    let chain = markov(&[60, 62, 64, 62, 60], 20, 5);
    assert!(chain.iter().all(|pitch| [60, 62, 64].contains(pitch)));
}

#[test]
fn euclidean_spreads_hits() {
    let pattern = euclidean(3, 8, atom(60, Q), rest(Q));
    assert_eq!(pattern.len(), 8);
    assert_eq!(pattern.iter().filter(|note| matches!(note, Note::Atom { .. })).count(), 3);
}

#[test]
fn row_forms_and_systems() {
    let row: Vec<u8> = (0..12).collect();
    let [prime, retro, inv, ri] = twelve_tone(&row);
    assert_eq!(prime, row);
    assert_eq!(retro, row.iter().rev().cloned().collect::<Vec<_>>());
    assert_eq!(inv[0], 0);
    assert_eq!(ri, inv.iter().rev().cloned().collect::<Vec<_>>());
    // Schillinger(3,4): attacks at 0,3,4,6,8,9,12 -> gaps sum to 12.
    let gaps = schillinger(3, 4);
    assert_eq!(gaps.iter().sum::<u32>(), 12);
    let notes = vec![atom(60, Q), atom(62, Q), atom(64, Q)];
    let permuted = messiaen_permute(notes, &[3, 1, 2]);
    assert_eq!(midis(&permuted), vec![Some(64), Some(60), Some(62)]);
    let canon_note = canon(vec![atom(60, Q)], &[(7, Q)]);
    assert!(matches!(canon_note, Note::Parallel(voices) if voices.len() == 2));
}

#[test]
fn harmonize_and_continue() {
    let line = vec![atom(60, Q), atom(62, Q)];
    let harmony = harmonize(copy_notes(&line), &[4, 7]);
    let Note::Parallel(voices) = harmony else {
        panic!("harmonize yields Parallel");
    };
    assert_eq!(voices.len(), 3);
    let continued = continue_melody(&line, Q, 8, 9);
    assert_eq!(continued.len(), 8);
    assert_eq!(continue_melody(&line, Q, 8, 9), continued);
    assert!(
        continued.iter().all(|note| matches!(note, Note::Atom { midi: 60 | 62, .. })),
        "continuation stays in the corpus pitch set"
    );
}

#[test]
fn generative_series() {
    // L-system: A->AB, B->A gives Fibonacci words.
    let word = lindenmayer("A", &[('A', "AB"), ('B', "A")], 4);
    assert_eq!(word, "ABAABABA");
    let melody = lsystem_to_pitches("+-++", 60, &[2], '+', '-', Q);
    assert_eq!(melody.len(), 4);
    assert_eq!(infinity_series(0, 1, 8).len(), 8);
}

#[test]
fn schillinger_gaps_are_exact() {
    assert_eq!(schillinger(3, 4), vec![3, 1, 2, 2, 1, 3]);
}

#[test]
fn infinity_series_values() {
    // Nørgård's series from 0, 1.
    assert_eq!(infinity_series(0, 1, 8), vec![0, 1, -1, 2, 1, 0, -2, 3]);
}

#[test]
fn schillinger_running_sums_are_the_attack_points() {
    let gaps = schillinger(3, 4);
    let mut sums = Vec::new();
    let mut t = 0u32;
    for g in &gaps {
        sums.push(t);
        t += g;
    }
    let expected: Vec<u32> = (0..12).filter(|x| x % 3 == 0 || x % 4 == 0).collect();
    assert_eq!(sums, expected);
    assert_eq!(t, 12);
}

#[test]
fn infinity_series_shorter_is_prefix() {
    // One series per seed pair: a shorter call is a prefix of a longer one.
    let long = infinity_series(1, 2, 16);
    for m in 0..=16 {
        assert_eq!(infinity_series(1, 2, m), long[..m].to_vec());
    }
    assert_eq!(infinity_series(1, 2, 8), vec![1, 2, -2, 3, 2, -1, -3, 4]);
    assert_eq!(infinity_series(5, 7, 0), Vec::<i32>::new());
    assert_eq!(infinity_series(5, 7, 1), vec![5]);
}

#[test]
fn lindenmayer_rewrites_compose() {
    let rules = [('A', "AB"), ('B', "A")];
    let two = lindenmayer("A", &rules, 2);
    assert_eq!(lindenmayer(&two, &rules, 3), lindenmayer("A", &rules, 5));
    assert_eq!(lindenmayer("AXB", &rules, 0), "AXB");
    // A character without a rule is copied.
    assert_eq!(lindenmayer("AXB", &rules, 1), "ABXA");
}
