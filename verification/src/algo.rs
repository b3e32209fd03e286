//! Composition functions over note lists: reordering, pitch transforms,
//! chords, lanes, bars and seeded selections. Atoms and rests are
//! transformed; other notes pass through unchanged.

use vstd::prelude::*;
use crate::note::{Note, NoteV, ParamValue, ParamValueV, ParamsV, notes_view, params_view, copy_params, copy_notes};
use crate::edit::{transpose_note, transpose_spec, with_param};
use crate::compose::{par, par_defined, par_items, ser, ser_defined, ser_items, lemma_par_of_serials, lemma_ser_rest_then_block, par_init, ParState};
use crate::series::{lcg_advance, lcg_next, lcg_out, markov, markov_spec, seed_state, seeded};
use crate::text::to_owned_string;

verus! {

// --- accessors ---

/// Pitch (`None` for a rest) and duration of an atom or rest.
pub open spec fn parts(n: NoteV) -> Option<(Option<u8>, u64)> {
    match n {
        NoteV::Atom { midi, duration, .. } => Some((Some(midi), duration)),
        NoteV::Rest { duration, .. } => Some((None, duration)),
        _ => None,
    }
}

/// Split a note into pitch (`Some(midi)` for an atom, `None` for a rest)
/// and duration; `None` for any other note.
pub fn atom_parts(note: &Note) -> (r: Option<(Option<u8>, u64)>)
    ensures
        r == parts(note@),
{
    match note {
        Note::Atom { midi, duration, .. } => Some((Some(*midi), *duration)),
        Note::Rest { duration, .. } => Some((None, *duration)),
        _ => None,
    }
}

/// An atom or rest with a new duration; any other note unchanged.
pub open spec fn with_duration_spec(n: NoteV, duration: u64) -> NoteV {
    match n {
        NoteV::Atom { midi, parameters, .. } => NoteV::Atom { midi, duration, parameters },
        NoteV::Rest { parameters, .. } => NoteV::Rest { duration, parameters },
        _ => n,
    }
}

/// Copy a note with a new duration (atoms and rests only).
pub fn with_duration(note: &Note, duration: u64) -> (r: Note)
    ensures
        r@ == with_duration_spec(note@, duration),
{
    match note {
        Note::Atom { midi, parameters, .. } => Note::Atom { midi: *midi, duration, parameters: copy_params(parameters) },
        Note::Rest { parameters, .. } => Note::Rest { duration, parameters: copy_params(parameters) },
        _ => note.duplicate(),
    }
}

/// The first number stored under `key` in a parameter list, if the first
/// entry with that key holds a number.
pub open spec fn first_number(p: ParamsV, key: Seq<char>) -> Option<u32>
    decreases p.len(),
{
    if p.len() == 0 {
        None
    } else if p[0].0 == key {
        match p[0].1 {
            ParamValueV::Number(n) => Some(n),
            _ => None,
        }
    } else {
        first_number(p.drop_first(), key)
    }
}

pub open spec fn existing_number_spec(n: NoteV, key: Seq<char>) -> Option<u32> {
    match n {
        NoteV::Atom { parameters, .. } => first_number(parameters, key),
        NoteV::Rest { parameters, .. } => first_number(parameters, key),
        NoteV::AtomImplicitDuration { parameters, .. } => first_number(parameters, key),
        NoteV::PreviousPitch { parameters, .. } => first_number(parameters, key),
        _ => None,
    }
}

/// The number (bit pattern) of the first parameter named `key` of a note
/// that has parameters, when that parameter is a number.
pub fn existing_number(note: &Note, key: &str) -> (r: Option<u32>)
    ensures
        r == existing_number_spec(note@, key@),
{
    let parameters = match note {
        Note::Atom { parameters, .. } => parameters,
        Note::Rest { parameters, .. } => parameters,
        Note::AtomImplicitDuration { parameters, .. } => parameters,
        Note::PreviousPitch { parameters, .. } => parameters,
        _ => { return None; },
    };
    let ghost pv = params_view(parameters@);
    let n = parameters.len();
    let mut i: usize = 0;
    assert(pv.skip(0) =~= pv);
    assert(existing_number_spec(note@, key@) == first_number(pv, key@));
    while i < n
        invariant
            n == parameters@.len(),
            pv == params_view(parameters@),
            i <= n,
            first_number(pv, key@) == first_number(pv.skip(i as int), key@),
            existing_number_spec(note@, key@) == first_number(pv, key@),
        decreases n - i,
    {
        assert(pv.skip(i as int)[0] == pv[i as int]);
        assert(pv[i as int] == (parameters@[i as int].0@, parameters@[i as int].1.view()));
        if crate::text::str_eq(parameters[i].0.as_str(), key) {
            return match &parameters[i].1 {
                ParamValue::Number(v) => Some(*v),
                _ => None,
            };
        }
        assert(pv.skip(i as int).drop_first() =~= pv.skip(i + 1));
        i = i + 1;
    }
    assert(pv.skip(n as int).len() == 0);
    None
}

// --- deterministic sequence transforms ---

/// Reverse note order.
pub fn retrograde(notes: Vec<Note>) -> (r: Vec<Note>)
    ensures
        notes_view(r@) == notes_view(notes@).reverse(),
{
    let ghost v = notes_view(notes@);
    let mut rest = notes;
    let mut out: Vec<Note> = Vec::new();
    while rest.len() > 0
        invariant
            v.len() == out@.len() + rest@.len(),
            notes_view(rest@) == v.take(rest@.len() as int),
            notes_view(out@) == v.reverse().take(out@.len() as int),
        decreases rest@.len(),
    {
        let ghost k = rest@.len();
        assert(notes_view(rest@)[k - 1] == rest@[k - 1]@);
        assert(v.take(k as int)[k - 1] == v[k - 1]);
        let n = rest.pop().unwrap();
        assert(n@ == v[k - 1]);
        assert(notes_view(rest@) =~= v.take(k - 1));
        let ghost before = notes_view(out@);
        out.push(n);
        assert(notes_view(out@) =~= before.push(v[k - 1]));
        assert(notes_view(out@) =~= v.reverse().take(out@.len() as int));
    }
    assert(notes_view(out@) =~= v.reverse());
    out
}

/// The left rotation amount for `n` over `m` elements: `n` modulo `m`
/// (a negative `n` rotates right).
pub open spec fn rotation(n: int, m: int) -> int {
    if n >= 0 { n % m } else { (m - ((-n) % m)) % m }
}

/// Rotate left by `n` (negative rotates right). Length-preserving:
/// element `i` of the result is element `(i + k) % len` of the input,
/// `k` being `n` modulo the length.
pub fn rotate(notes: Vec<Note>, n: isize) -> (r: Vec<Note>)
    requires
        notes@.len() * 2 <= usize::MAX,
    ensures
        r@.len() == notes@.len(),
        forall|i: int| 0 <= i < notes@.len() ==>
            (#[trigger] r@[i])@ == notes@[(i + rotation(n as int, notes@.len() as int)) % (notes@.len() as int)]@,
{
    if notes.len() == 0 {
        return notes;
    }
    let m = notes.len();
    let k: usize = if n >= 0 {
        (n as usize) % m
    } else {
        let a: usize = (-(n + 1)) as usize;
        let neg = (a % m + 1) % m;
        assert(neg as int == (-(n as int)) % (m as int)) by (nonlinear_arith)
            requires
                a as int == -(n as int) - 1,
                neg as int == ((a as int) % (m as int) + 1) % (m as int),
                m > 0,
        {
            vstd::arithmetic::div_mod::lemma_add_mod_noop(a as int, 1, m as int);
            vstd::arithmetic::div_mod::lemma_mod_twice(a as int, m as int);
            if m > 1 {
                vstd::arithmetic::div_mod::lemma_small_mod(1, m as nat);
            }
            if m == 1 {
                vstd::arithmetic::div_mod::lemma_mod_self_0(1);
            }
        }
        (m - neg) % m
    };
    assert(k as int == rotation(n as int, m as int));
    let mut out: Vec<Note> = Vec::new();
    for i in 0..m
        invariant
            m == notes@.len(),
            m > 0,
            m * 2 <= usize::MAX,
            k < m,
            k as int == rotation(n as int, m as int),
            out@.len() == i,
            forall|j: int| 0 <= j < i ==> (#[trigger] out@[j])@ == notes@[(j + k) % (m as int)]@,
    {
        let idx: usize = (i + k) % m;
        out.push(notes[idx].duplicate());
    }
    out
}

/// Runs of one pitch longer than `max_run` are cut (rests and other notes
/// break a run): the notes kept, the pitch of the current run and its
/// length.
pub open spec fn dedup_fold(max_run: usize, notes: Seq<NoteV>) -> (Seq<NoteV>, Option<u8>, int)
    decreases notes.len(),
{
    if notes.len() == 0 {
        (Seq::empty(), None, 0)
    } else {
        let (out, run_pitch, run_len) = dedup_fold(max_run, notes.drop_last());
        let n = notes.last();
        match parts(n) {
            Some((Some(m), _)) =>
                if Some(m) == run_pitch {
                    if run_len + 1 <= max_run { (out.push(n), run_pitch, run_len + 1) } else { (out, run_pitch, run_len + 1) }
                } else {
                    (out.push(n), Some(m), 1)
                },
            _ => (out.push(n), None, 0),
        }
    }
}

/// Remove repeats of the same pitch beyond `max_run` in a row (rests
/// break runs); `max_run` 1 keeps no immediate pitch repeat.
pub fn dedup_repeats(max_run: usize, notes: Vec<Note>) -> (r: Vec<Note>)
    ensures
        notes_view(r@) == dedup_fold(max_run, notes_view(notes@)).0,
        (forall|i: int, j: int| #[trigger] crate::laws::pitch_run(notes_view(notes@), i, j) ==> j - i + 1 <= max_run)
            ==> notes_view(r@) == notes_view(notes@),
{
    let ghost v = notes_view(notes@);
    let mut out: Vec<Note> = Vec::new();
    let mut run_pitch: Option<u8> = None;
    let mut run_len: usize = 0;
    let n = notes.len();
    assert(v.take(0) =~= Seq::<NoteV>::empty());
    assert(notes_view(out@) =~= Seq::<NoteV>::empty());
    for i in 0..n
        invariant
            n == notes@.len(),
            v == notes_view(notes@),
            run_len <= i,
            dedup_fold(max_run, v.take(i as int)) == (notes_view(out@), run_pitch, run_len as int),
    {
        assert(v.take(i + 1).drop_last() =~= v.take(i as int));
        assert(v.take(i + 1).last() == notes@[i as int]@);
        let note = &notes[i];
        let ghost before = notes_view(out@);
        match atom_parts(note) {
            Some((Some(midi), _)) => {
                if run_pitch == Some(midi) {
                    run_len = run_len + 1;
                    if run_len <= max_run {
                        out.push(note.duplicate());
                        assert(notes_view(out@) =~= before.push(note@));
                    }
                } else {
                    run_pitch = Some(midi);
                    run_len = 1;
                    out.push(note.duplicate());
                    assert(notes_view(out@) =~= before.push(note@));
                }
            },
            _ => {
                run_pitch = None;
                run_len = 0;
                out.push(note.duplicate());
                assert(notes_view(out@) =~= before.push(note@));
            },
        }
    }
    assert(v.take(n as int) =~= v);
    proof {
        if forall|i: int, j: int| #[trigger] crate::laws::pitch_run(v, i, j) ==> j - i + 1 <= max_run {
            crate::laws::law_dedup_keeps_short_runs(max_run, v);
        }
    }
    out
}

/// Every note transposed by `iv`.
pub open spec fn transposed_all(notes: Seq<NoteV>, iv: i8) -> Seq<NoteV> {
    notes.map_values(|n: NoteV| transpose_spec(n, iv))
}

/// Transpose every note by `semitones` (pitches clamped to 0..=127).
pub fn transpose_all(notes: Vec<Note>, semitones: i8) -> (r: Vec<Note>)
    ensures
        notes_view(r@) == transposed_all(notes_view(notes@), semitones),
        r@.len() == notes@.len(),
        semitones != 0 ==> forall|i: int| 0 <= i < notes@.len() ==>
            crate::laws::atoms_moved(crate::laws::atoms_of(notes@[i]@), crate::laws::atoms_of(#[trigger] r@[i]@), semitones),
{
    let mut out: Vec<Note> = Vec::new();
    let n = notes.len();
    for i in 0..n
        invariant
            n == notes@.len(),
            notes_view(out@) == notes_view(notes@).take(i as int).map_values(|n: NoteV| transpose_spec(n, semitones)),
    {
        let ghost before = notes_view(out@);
        out.push(transpose_note(&notes[i], semitones));
        assert(notes_view(out@) =~= before.push(transpose_spec(notes@[i as int]@, semitones)));
        assert(notes_view(out@) =~= notes_view(notes@).take(i + 1).map_values(|n: NoteV| transpose_spec(n, semitones)));
    }
    assert(notes_view(notes@).take(n as int) =~= notes_view(notes@));
    proof {
        if semitones != 0 {
            assert forall|i: int| 0 <= i < notes@.len() implies
                crate::laws::atoms_moved(crate::laws::atoms_of(notes@[i]@), crate::laws::atoms_of(#[trigger] out@[i]@), semitones) by {
                crate::laws::law_transpose_moves_every_atom(notes@[i]@, semitones);
                assert(notes_view(out@)[i] == out@[i]@);
            }
        }
    }
    out
}

/// A pitch mirrored around `axis`, clamped to 0..=127.
pub open spec fn mirrored(midi: u8, axis: u8) -> u8 {
    let p = 2 * axis - midi;
    (if p < 0 { 0 } else if p > 127 { 127 } else { p }) as u8
}

pub open spec fn invert_spec(n: NoteV, axis: u8) -> NoteV {
    match n {
        NoteV::Atom { midi, duration, parameters } => NoteV::Atom { midi: mirrored(midi, axis), duration, parameters },
        _ => n,
    }
}

/// Mirror the pitch of every atom around `axis_midi`
/// (`pitch -> 2 * axis - pitch`, clamped to 0..=127).
pub fn invert(notes: Vec<Note>, axis_midi: u8) -> (r: Vec<Note>)
    ensures
        notes_view(r@) == notes_view(notes@).map_values(|n: NoteV| invert_spec(n, axis_midi)),
{
    let mut out: Vec<Note> = Vec::new();
    let n = notes.len();
    for i in 0..n
        invariant
            n == notes@.len(),
            notes_view(out@) == notes_view(notes@).take(i as int).map_values(|n: NoteV| invert_spec(n, axis_midi)),
    {
        let ghost before = notes_view(out@);
        let note = &notes[i];
        let r = match note {
            Note::Atom { midi, duration, parameters } => {
                let p: i16 = 2 * axis_midi as i16 - *midi as i16;
                let m: u8 = if p < 0 { 0 } else if p > 127 { 127 } else { p as u8 };
                Note::Atom { midi: m, duration: *duration, parameters: copy_params(parameters) }
            },
            _ => note.duplicate(),
        };
        out.push(r);
        assert(notes_view(out@) =~= before.push(invert_spec(note@, axis_midi)));
        assert(notes_view(out@) =~= notes_view(notes@).take(i + 1).map_values(|n: NoteV| invert_spec(n, axis_midi)));
    }
    assert(notes_view(notes@).take(n as int) =~= notes_view(notes@));
    out
}

/// How pitches are forced into a range.
#[derive(Clone, Copy, PartialEq, Eq, Debug)]
pub enum AmbitusMode {
    Clip,
    Fold,
}

/// Octaves up (saturating) while below `lo`.
pub open spec fn fold_up(p: u8, lo: u8) -> u8
    decreases 256 - p,
{
    if p < lo {
        if p >= 244 { 255 } else { fold_up((p + 12) as u8, lo) }
    } else {
        p
    }
}

/// Octaves down (saturating) while above `hi`.
pub open spec fn fold_down(p: u8, hi: u8) -> u8
    decreases p,
{
    if p > hi {
        if p < 12 { fold_down(0, hi) } else { fold_down((p - 12) as u8, hi) }
    } else {
        p
    }
}

pub open spec fn ambitus_pitch(p: u8, lo: u8, hi: u8, mode: AmbitusMode) -> u8 {
    match mode {
        AmbitusMode::Clip => if p < lo { lo } else if p > hi { hi } else { p },
        AmbitusMode::Fold => fold_down(fold_up(p, lo), hi),
    }
}

pub open spec fn ambitus_spec(n: NoteV, lo: u8, hi: u8, mode: AmbitusMode) -> NoteV {
    match n {
        NoteV::Atom { midi, duration, parameters } => NoteV::Atom { midi: ambitus_pitch(midi, lo, hi, mode), duration, parameters },
        _ => n,
    }
}

fn ambitus_exec(pitch: u8, lo: u8, hi: u8, mode: AmbitusMode) -> (r: u8)
    ensures
        r == ambitus_pitch(pitch, lo, hi, mode),
{
    let mut pitch = pitch;
    match mode {
        AmbitusMode::Clip => {
            if pitch < lo { lo } else if pitch > hi { hi } else { pitch }
        },
        AmbitusMode::Fold => {
            let ghost p0 = pitch;
            while pitch < lo
                invariant
                    fold_up(pitch, lo) == fold_up(p0, lo),
                decreases 256 - pitch,
            {
                pitch = pitch.saturating_add(12);
            }
            let ghost p1 = pitch;
            while pitch > hi
                invariant
                    fold_down(pitch, hi) == fold_down(p1, hi),
                decreases pitch,
            {
                pitch = pitch.saturating_sub(12);
            }
            pitch
        },
    }
}

/// Force every atom's pitch into `lo..=hi`, clipping or moving by octaves
/// (up while below `lo`, then down while above `hi`, saturating).
pub fn ambitus(notes: Vec<Note>, lo: u8, hi: u8, mode: AmbitusMode) -> (r: Vec<Note>)
    requires
        lo <= hi,
    ensures
        notes_view(r@) == notes_view(notes@).map_values(|n: NoteV| ambitus_spec(n, lo, hi, mode)),
        mode == AmbitusMode::Clip ==> forall|i: int| 0 <= i < notes@.len() ==> (#[trigger] notes@[i])@ is Atom ==> {
            let p = notes@[i]@->Atom_midi;
            let q = r@[i]@->Atom_midi;
            &&& lo <= p <= hi ==> q == p
            &&& p < lo ==> q == lo
            &&& p > hi ==> q == hi
        },
{
    let mut out: Vec<Note> = Vec::new();
    let n = notes.len();
    for i in 0..n
        invariant
            n == notes@.len(),
            notes_view(out@) == notes_view(notes@).take(i as int).map_values(|n: NoteV| ambitus_spec(n, lo, hi, mode)),
    {
        let ghost before = notes_view(out@);
        let note = &notes[i];
        let r = match note {
            Note::Atom { midi, duration, parameters } =>
                Note::Atom { midi: ambitus_exec(*midi, lo, hi, mode), duration: *duration, parameters: copy_params(parameters) },
            _ => note.duplicate(),
        };
        out.push(r);
        assert(notes_view(out@) =~= before.push(ambitus_spec(note@, lo, hi, mode)));
        assert(notes_view(out@) =~= notes_view(notes@).take(i + 1).map_values(|n: NoteV| ambitus_spec(n, lo, hi, mode)));
    }
    assert(notes_view(notes@).take(n as int) =~= notes_view(notes@));
    proof {
        assert forall|i: int| 0 <= i < notes@.len() implies #[trigger] notes_view(notes@)[i] == notes@[i]@ by {}
        if mode == AmbitusMode::Clip {
            assert forall|i: int| 0 <= i < notes@.len() && (#[trigger] notes@[i])@ is Atom implies {
                let p = notes@[i]@->Atom_midi;
                let q = out@[i]@->Atom_midi;
                &&& lo <= p <= hi ==> q == p
                &&& p < lo ==> q == lo
                &&& p > hi ==> q == hi
            } by {
                crate::laws::law_ambitus_clip(notes@[i]@, lo, hi);
                assert(out@[i]@ == notes_view(out@)[i]);
            }
        }
    }
    out
}

// --- chords and voices ---

/// Stack notes as a chord (a parallel block).
pub fn chordize(notes: Vec<Note>) -> (r: Note)
    requires
        par_defined(notes_view(notes@)),
    ensures
        r@ == NoteV::Parallel(par_items(notes_view(notes@))),
{
    par(notes)
}

/// One parallel level flattened into its voices; any other note alone.
pub open spec fn dechord_spec(n: NoteV) -> Seq<NoteV> {
    match n {
        NoteV::Parallel(voices) => voices,
        _ => seq![n],
    }
}

/// Flatten one parallel level back into a voice list.
pub fn dechord(note: &Note) -> (r: Vec<Note>)
    ensures
        notes_view(r@) == dechord_spec(note@),
{
    match note {
        Note::Parallel(voices) => copy_notes(voices),
        _ => {
            let mut v: Vec<Note> = Vec::new();
            v.push(note.duplicate());
            assert(notes_view(v@) =~= seq![note@]);
            v
        },
    }
}

/// Voice `voice` of every chord that has one.
pub open spec fn demix_spec(chords: Seq<NoteV>, voice: int) -> Seq<NoteV>
    decreases chords.len(),
{
    if chords.len() == 0 {
        Seq::empty()
    } else {
        let prefix = demix_spec(chords.drop_last(), voice);
        let vs = dechord_spec(chords.last());
        if voice < vs.len() { prefix.push(vs[voice]) } else { prefix }
    }
}

/// Split chords into one voice line: the `voice`-th note of each chord
/// (chords without it are skipped; a plain note is a one-voice chord).
pub fn demix(chords: &[Note], voice: usize) -> (r: Vec<Note>)
    ensures
        notes_view(r@) == demix_spec(notes_view(chords@), voice as int),
{
    let ghost cv = notes_view(chords@);
    let mut out: Vec<Note> = Vec::new();
    let n = chords.len();
    assert(cv.take(0) =~= Seq::<NoteV>::empty());
    assert(notes_view(out@) =~= Seq::<NoteV>::empty());
    for i in 0..n
        invariant
            n == chords@.len(),
            cv == notes_view(chords@),
            notes_view(out@) == demix_spec(cv.take(i as int), voice as int),
    {
        assert(cv.take(i + 1).drop_last() =~= cv.take(i as int));
        assert(cv.take(i + 1).last() == chords@[i as int]@);
        let voices = dechord(&chords[i]);
        if voice < voices.len() {
            let ghost before = notes_view(out@);
            let mut voices = voices;
            let picked = voices.swap_remove(voice);
            out.push(picked);
            assert(notes_view(out@) =~= before.push(dechord_spec(chords@[i as int]@)[voice as int]));
        }
    }
    assert(cv.take(n as int) =~= cv);
    out
}

/// Notes of the voices at position `i`, in voice order (shorter voices
/// contribute nothing).
pub open spec fn mix_row(voices: Seq<Seq<NoteV>>, i: int) -> Seq<NoteV>
    decreases voices.len(),
{
    if voices.len() == 0 {
        Seq::empty()
    } else {
        let prefix = mix_row(voices.drop_last(), i);
        if 0 <= i < voices.last().len() { prefix.push(voices.last()[i]) } else { prefix }
    }
}

/// Length of the longest voice.
pub open spec fn max_len(voices: Seq<Seq<NoteV>>) -> nat
    decreases voices.len(),
{
    if voices.len() == 0 {
        0
    } else {
        let m = max_len(voices.drop_last());
        if voices.last().len() > m { voices.last().len() } else { m }
    }
}

/// The model of a list of voices.
pub open spec fn voices_view(voices: Seq<Vec<Note>>) -> Seq<Seq<NoteV>> {
    voices.map_values(|v: Vec<Note>| notes_view(v@))
}

fn row_at(voices: &[Vec<Note>], i: usize) -> (r: Vec<Note>)
    ensures
        notes_view(r@) == mix_row(voices_view(voices@), i as int),
{
    let ghost vv = voices_view(voices@);
    let mut row: Vec<Note> = Vec::new();
    let n = voices.len();
    assert(vv.take(0) =~= Seq::<Seq<NoteV>>::empty());
    assert(notes_view(row@) =~= Seq::<NoteV>::empty());
    for k in 0..n
        invariant
            n == voices@.len(),
            vv == voices_view(voices@),
            notes_view(row@) == mix_row(vv.take(k as int), i as int),
    {
        assert(vv.take(k + 1).drop_last() =~= vv.take(k as int));
        assert(vv.take(k + 1).last() == notes_view(voices@[k as int]@));
        if i < voices[k].len() {
            let ghost before = notes_view(row@);
            row.push(voices[k][i].duplicate());
            assert(notes_view(row@) =~= before.push(notes_view(voices@[k as int]@)[i as int]));
        }
    }
    assert(vv.take(n as int) =~= vv);
    row
}

/// Recombine voice lines into chords: chord `i` stacks the `i`-th note of
/// every voice that has one, for `i` below the longest voice's length.
pub fn mix(voices: &[Vec<Note>]) -> (r: Vec<Note>)
    requires
        forall|i: int| 0 <= i < max_len(voices_view(voices@)) ==> par_defined(#[trigger] mix_row(voices_view(voices@), i)),
    ensures
        notes_view(r@) == Seq::new(max_len(voices_view(voices@)), |i: int| NoteV::Parallel(par_items(mix_row(voices_view(voices@), i)))),
{
    let ghost vv = voices_view(voices@);
    let mut len: usize = 0;
    let n = voices.len();
    assert(vv.take(0) =~= Seq::<Seq<NoteV>>::empty());
    for k in 0..n
        invariant
            n == voices@.len(),
            vv == voices_view(voices@),
            len == max_len(vv.take(k as int)),
    {
        assert(vv.take(k + 1).drop_last() =~= vv.take(k as int));
        assert(vv.take(k + 1).last().len() == voices@[k as int]@.len());
        if voices[k].len() > len {
            len = voices[k].len();
        }
    }
    assert(vv.take(n as int) =~= vv);
    let mut out: Vec<Note> = Vec::new();
    for i in 0..len
        invariant
            vv == voices_view(voices@),
            len == max_len(vv),
            forall|j: int| 0 <= j < max_len(vv) ==> par_defined(#[trigger] mix_row(vv, j)),
            out@.len() == i,
            forall|j: int| 0 <= j < i ==> (#[trigger] out@[j])@ == NoteV::Parallel(par_items(mix_row(vv, j))),
    {
        let row = row_at(voices, i);
        assert(par_defined(mix_row(vv, i as int)));
        out.push(chordize(row));
    }
    assert(notes_view(out@) =~= Seq::new(max_len(vv), |i: int| NoteV::Parallel(par_items(mix_row(vv, i)))));
    out
}

/// Articulations, carried as a per-note `gate`.
#[derive(Clone, Copy, PartialEq, Eq, Debug)]
pub enum Articulation {
    Staccato,
    Tenuto,
    Legato,
}

/// Gate bit pattern of each articulation (IEEE-754 single):
/// staccato one half, tenuto nine tenths, legato eleven tenths.
pub open spec fn gate_bits(a: Articulation) -> u32 {
    match a {
        Articulation::Staccato => 0x3F00_0000,
        Articulation::Tenuto => 0x3F66_6666,
        Articulation::Legato => 0x3F8C_CCCD,
    }
}

pub open spec fn gate_key() -> Seq<char> {
    seq!['g', 'a', 't', 'e']
}

/// Apply an articulation as every note's `gate` parameter.
pub fn articulate(notes: Vec<Note>, articulation: Articulation) -> (r: Vec<Note>)
    ensures
        notes_view(r@) == notes_view(notes@).map_values(|n: NoteV| with_param(n, gate_key(), ParamValueV::Number(gate_bits(articulation)))),
{
    let gate: u32 = match articulation {
        Articulation::Staccato => 0x3F00_0000,
        Articulation::Tenuto => 0x3F66_6666,
        Articulation::Legato => 0x3F8C_CCCD,
    };
    let ghost f = |n: NoteV| with_param(n, gate_key(), ParamValueV::Number(gate_bits(articulation)));
    let mut out: Vec<Note> = Vec::new();
    let n = notes.len();
    for i in 0..n
        invariant
            n == notes@.len(),
            gate == gate_bits(articulation),
            f == (|n: NoteV| with_param(n, gate_key(), ParamValueV::Number(gate_bits(articulation)))),
            notes_view(out@) == notes_view(notes@).take(i as int).map_values(f),
    {
        proof { reveal_strlit("gate"); }
        let key = to_owned_string("gate");
        assert(key@ =~= gate_key());
        let ghost before = notes_view(out@);
        let note = notes[i].duplicate();
        out.push(note.param(key, ParamValue::Number(gate)));
        assert(notes_view(out@) =~= before.push(f(notes@[i as int]@)));
        assert(notes_view(out@) =~= notes_view(notes@).take(i + 1).map_values(f));
    }
    assert(notes_view(notes@).take(n as int) =~= notes_view(notes@));
    out
}

/// The voices of `harmonize`: the melody, then one transposed copy per
/// interval, each resolved as a sequence.
pub open spec fn harmonize_voices(notes: Seq<NoteV>, intervals: Seq<i8>) -> Seq<NoteV> {
    seq![NoteV::Serial(ser_items(notes, false))]
        + intervals.map_values(|iv: i8| NoteV::Serial(ser_items(transposed_all(notes, iv), false)))
}

/// The melody and each transposed copy resolve as sequences.
pub open spec fn harmonize_defined(notes: Seq<NoteV>, intervals: Seq<i8>) -> bool {
    &&& ser_defined(notes, false)
    &&& forall|k: int| 0 <= k < intervals.len() ==> ser_defined(#[trigger] transposed_all(notes, intervals[k]), false)
}

/// Harmonize: the melody plus one copy transposed by each interval, as a
/// parallel block of sequences (intervals `[4, 7]` stack a major triad).
pub fn harmonize(notes: Vec<Note>, intervals: &[i8]) -> (r: Note)
    requires
        harmonize_defined(notes_view(notes@), intervals@),
    ensures
        r@ == NoteV::Parallel(harmonize_voices(notes_view(notes@), intervals@)),
{
    let ghost nv = notes_view(notes@);
    let ghost target = harmonize_voices(nv, intervals@);
    let mut voices: Vec<Note> = Vec::new();
    voices.push(ser(copy_notes(&notes)));
    let n = intervals.len();
    for k in 0..n
        invariant
            n == intervals@.len(),
            nv == notes_view(notes@),
            harmonize_defined(nv, intervals@),
            target == harmonize_voices(nv, intervals@),
            notes_view(voices@) == target.take(k + 1),
    {
        let iv = intervals[k];
        let moved = transpose_all(copy_notes(&notes), iv);
        assert(notes_view(moved@) =~= transposed_all(nv, intervals@[k as int]));
        let ghost before = notes_view(voices@);
        let v = ser(moved);
        assert(v@ == target[k + 1]);
        voices.push(v);
        assert(notes_view(voices@) =~= before.push(target[k + 1]));
        assert(notes_view(voices@) =~= target.take(k + 2));
    }
    assert(target.take(n + 1) =~= target);
    proof { lemma_par_of_serials(target); }
    par(voices)
}

/// The voices of `canon`: the melody, then per entry a rest of the given
/// length followed by the melody transposed by the given interval.
pub open spec fn canon_voices(notes: Seq<NoteV>, entries: Seq<(i8, u64)>) -> Seq<NoteV> {
    seq![NoteV::Serial(ser_items(notes, false))]
        + entries.map_values(|e: (i8, u64)| NoteV::Serial(seq![
            NoteV::Rest { duration: e.1, parameters: Seq::empty() },
            NoteV::Serial(ser_items(transposed_all(notes, e.0), false)),
        ]))
}

pub open spec fn canon_defined(notes: Seq<NoteV>, entries: Seq<(i8, u64)>) -> bool {
    &&& ser_defined(notes, false)
    &&& forall|k: int| 0 <= k < entries.len() ==> ser_defined(#[trigger] transposed_all(notes, entries[k].0), false)
}

/// Canon: the melody plus, per entry `(interval, delay)`, a transposed copy
/// entering after a rest of `delay` ticks.
pub fn canon(notes: Vec<Note>, entries: &[(i8, u64)]) -> (r: Note)
    requires
        canon_defined(notes_view(notes@), entries@),
    ensures
        r@ == NoteV::Parallel(canon_voices(notes_view(notes@), entries@)),
{
    let ghost nv = notes_view(notes@);
    let ghost target = canon_voices(nv, entries@);
    let mut voices: Vec<Note> = Vec::new();
    voices.push(ser(copy_notes(&notes)));
    let n = entries.len();
    for k in 0..n
        invariant
            n == entries@.len(),
            nv == notes_view(notes@),
            canon_defined(nv, entries@),
            target == canon_voices(nv, entries@),
            notes_view(voices@) == target.take(k + 1),
    {
        let (iv, delay) = entries[k];
        let moved = transpose_all(copy_notes(&notes), iv);
        assert(notes_view(moved@) =~= transposed_all(nv, entries@[k as int].0));
        let inner = ser(moved);
        let mut entry: Vec<Note> = Vec::new();
        let no_params: Vec<(String, ParamValue)> = Vec::new();
        assert(params_view(no_params@) =~= Seq::empty());
        entry.push(Note::Rest { duration: delay, parameters: no_params });
        entry.push(inner);
        let ghost ev = seq![NoteV::Rest { duration: delay, parameters: Seq::empty() }, entry@[1]@];
        assert(notes_view(entry@) =~= ev);
        proof { lemma_ser_rest_then_block(delay, entry@[1]@); }
        let ghost before = notes_view(voices@);
        let v = ser(entry);
        assert(v@ == target[k + 1]);
        voices.push(v);
        assert(notes_view(voices@) =~= before.push(target[k + 1]));
        assert(notes_view(voices@) =~= target.take(k + 2));
    }
    assert(target.take(n + 1) =~= target);
    proof { lemma_par_of_serials(target); }
    par(voices)
}

/// The pitches of the atoms of a list, in order.
pub open spec fn atom_pitches(notes: Seq<NoteV>) -> Seq<u8>
    decreases notes.len(),
{
    if notes.len() == 0 {
        Seq::empty()
    } else {
        let prefix = atom_pitches(notes.drop_last());
        match notes.last() {
            NoteV::Atom { midi, .. } => prefix.push(midi),
            _ => prefix,
        }
    }
}

/// A bare atom.
pub open spec fn plain_atom(midi: u8, duration: u64) -> NoteV {
    NoteV::Atom { midi, duration, parameters: Seq::empty() }
}

fn make_atom(midi: u8, duration: u64) -> (r: Note)
    ensures
        r@ == plain_atom(midi, duration),
{
    let p: Vec<(String, ParamValue)> = Vec::new();
    assert(params_view(p@) =~= Seq::empty());
    Note::Atom { midi, duration, parameters: p }
}

/// Continue a melody: a seeded first-order Markov chain over the corpus
/// atoms' pitches generates `len` bare atoms of `duration` ticks.
pub fn continue_melody(corpus: &[Note], duration: u64, len: usize, seed: u64) -> (r: Vec<Note>)
    ensures
        notes_view(r@) == markov_spec(atom_pitches(notes_view(corpus@)), len as nat, seed).map_values(|m: u8| plain_atom(m, duration)),
{
    let ghost cv = notes_view(corpus@);
    let mut classes: Vec<u8> = Vec::new();
    let n = corpus.len();
    assert(cv.take(0) =~= Seq::<NoteV>::empty());
    for i in 0..n
        invariant
            n == corpus@.len(),
            cv == notes_view(corpus@),
            classes@ == atom_pitches(cv.take(i as int)),
    {
        assert(cv.take(i + 1).drop_last() =~= cv.take(i as int));
        assert(cv.take(i + 1).last() == corpus@[i as int]@);
        match &corpus[i] {
            Note::Atom { midi, .. } => { classes.push(*midi); },
            _ => {},
        }
    }
    assert(cv.take(n as int) =~= cv);
    let pitches = markov(classes.as_slice(), len, seed);
    let mut out: Vec<Note> = Vec::new();
    let m = pitches.len();
    for i in 0..m
        invariant
            m == pitches@.len(),
            notes_view(out@) == pitches@.take(i as int).map_values(|p: u8| plain_atom(p, duration)),
    {
        let ghost before = notes_view(out@);
        out.push(make_atom(pitches[i], duration));
        assert(notes_view(out@) =~= before.push(plain_atom(pitches@[i as int], duration)));
        assert(notes_view(out@) =~= pitches@.take(i + 1).map_values(|p: u8| plain_atom(p, duration)));
    }
    assert(pitches@.take(m as int) =~= pitches@);
    out
}

/// Zip lanes: atom `i` takes pitch `i mod |pitches|` and duration
/// `i mod |durations|`, for `i` below the longer lane's length.
pub fn zip(pitches: Vec<u8>, durations: Vec<u64>) -> (r: Vec<Note>)
    requires
        (pitches@.len() == 0) == (durations@.len() == 0),
    ensures
        notes_view(r@) == Seq::new(
            if pitches@.len() > durations@.len() { pitches@.len() } else { durations@.len() },
            |i: int| plain_atom(pitches@[i % pitches@.len() as int], durations@[i % durations@.len() as int]),
        ),
{
    let len = if pitches.len() > durations.len() { pitches.len() } else { durations.len() };
    let mut out: Vec<Note> = Vec::new();
    for i in 0..len
        invariant
            (pitches@.len() == 0) == (durations@.len() == 0),
            len == (if pitches@.len() > durations@.len() { pitches@.len() } else { durations@.len() }),
            out@.len() == i,
            forall|j: int| 0 <= j < i ==> (#[trigger] out@[j])@ == plain_atom(pitches@[j % pitches@.len() as int], durations@[j % durations@.len() as int]),
    {
        out.push(make_atom(pitches[i % pitches.len()], durations[i % durations.len()]));
    }
    assert(notes_view(out@) =~= Seq::new(len as nat, |i: int| plain_atom(pitches@[i % pitches@.len() as int], durations@[i % durations@.len() as int])));
    out
}

/// Project a list into its pitch lane (`None` for rests and non-atoms) and
/// its duration lane (0 for non-atoms).
pub fn lanes(notes: &[Note]) -> (r: (Vec<Option<u8>>, Vec<u64>))
    ensures
        r.0@.len() == notes@.len(),
        r.1@.len() == notes@.len(),
        forall|i: int| 0 <= i < notes@.len() ==> (#[trigger] r.0@[i]) == match parts(notes@[i]@) { Some(p) => p.0, None => None },
        forall|i: int| 0 <= i < notes@.len() ==> (#[trigger] r.1@[i]) == match parts(notes@[i]@) { Some(p) => p.1, None => 0 },
{
    let mut ps: Vec<Option<u8>> = Vec::new();
    let mut ds: Vec<u64> = Vec::new();
    let n = notes.len();
    for i in 0..n
        invariant
            n == notes@.len(),
            ps@.len() == i,
            ds@.len() == i,
            forall|j: int| 0 <= j < i ==> (#[trigger] ps@[j]) == match parts(notes@[j]@) { Some(p) => p.0, None => None },
            forall|j: int| 0 <= j < i ==> (#[trigger] ds@[j]) == match parts(notes@[j]@) { Some(p) => p.1, None => 0 },
    {
        match atom_parts(&notes[i]) {
            Some((pitch, duration)) => { ps.push(pitch); ds.push(duration); },
            None => { ps.push(None); ds.push(0); },
        }
    }
    (ps, ds)
}

/// Ticks in a bar of `bar_quarters` quarter notes.
pub open spec fn bar_ticks(bar_quarters: u32) -> int {
    bar_quarters as int * (crate::note::TICKS_PER_WHOLE / 4) as int
}

/// Bars built so far and the ticks used in the last one.
pub open spec fn bars_fold(notes: Seq<NoteV>, bar_quarters: u32) -> (Seq<Seq<NoteV>>, int)
    decreases notes.len(),
{
    if notes.len() == 0 {
        (seq![Seq::empty()], 0)
    } else {
        let (bars, used) = bars_fold(notes.drop_last(), bar_quarters);
        let n = notes.last();
        let d = match parts(n) { Some(p) => p.1 as int, None => 0 };
        let (bars2, used2) = if used + d > bar_ticks(bar_quarters) && bars.last().len() > 0 {
            (bars.push(Seq::empty()), 0)
        } else {
            (bars, used)
        };
        (bars2.update(bars2.len() - 1, bars2.last().push(n)), used2 + d)
    }
}

proof fn lemma_bars_fold(notes: Seq<NoteV>, bar_quarters: u32)
    ensures
        bars_fold(notes, bar_quarters).0.len() > 0,
        bars_fold(notes, bar_quarters).0.last().len() == 0 ==> bars_fold(notes, bar_quarters).1 == 0,
        0 <= bars_fold(notes, bar_quarters).1 <= u64::MAX,
    decreases notes.len(),
{
    if notes.len() > 0 {
        lemma_bars_fold(notes.drop_last(), bar_quarters);
        assert(bar_ticks(bar_quarters) < u64::MAX) by (nonlinear_arith)
            requires bar_quarters <= u32::MAX;
    }
}

/// Group notes into bars of `bar_quarters` quarter notes by duration sum:
/// a note opens a new bar when it would overflow a non-empty current one.
pub fn to_bars(notes: Vec<Note>, bar_quarters: u32) -> (r: Vec<Vec<Note>>)
    ensures
        r@.map_values(|b: Vec<Note>| notes_view(b@)) == bars_fold(notes_view(notes@), bar_quarters).0,
        r@.len() >= 1,
        forall|i: int| 0 <= i < r@.len() ==> (#[trigger] r@[i])@.len() <= 1
            || crate::laws::bar_fill(notes_view(r@[i]@)) <= bar_ticks(bar_quarters),
        forall|i: int| 0 <= i < r@.len() - 1 ==> (#[trigger] r@[i])@.len() > 0 && r@[i + 1]@.len() > 0
            && crate::laws::bar_fill(notes_view(r@[i]@)) + crate::laws::note_ticks(r@[i + 1]@[0]@) > bar_ticks(bar_quarters),
{
    let ghost v = notes_view(notes@);
    assert(bar_quarters as int * (crate::note::TICKS_PER_WHOLE / 4) as int <= u64::MAX) by (nonlinear_arith)
        requires bar_quarters <= u32::MAX;
    let bar_whole: u64 = bar_quarters as u64 * (crate::note::TICKS_PER_WHOLE / 4);
    let mut bars: Vec<Vec<Note>> = Vec::new();
    let mut current: Vec<Note> = Vec::new();
    let mut used: u64 = 0;
    let n = notes.len();
    assert(v.take(0) =~= Seq::<NoteV>::empty());
    assert(notes_view(current@) =~= Seq::<NoteV>::empty());
    assert(bars@.map_values(|b: Vec<Note>| notes_view(b@)) =~= Seq::<Seq<NoteV>>::empty());
    assert(Seq::<Seq<NoteV>>::empty().push(Seq::<NoteV>::empty()) =~= seq![Seq::<NoteV>::empty()]);
    for i in 0..n
        invariant
            n == notes@.len(),
            v == notes_view(notes@),
            bar_whole == bar_ticks(bar_quarters),
            bars_fold(v.take(i as int), bar_quarters) == (bars@.map_values(|b: Vec<Note>| notes_view(b@)).push(notes_view(current@)), used as int),
    {
        proof {
            lemma_bars_fold(v.take(i + 1), bar_quarters);
            lemma_bars_fold(v.take(i as int), bar_quarters);
            assert(v.take(i + 1).drop_last() =~= v.take(i as int));
            assert(v.take(i + 1).last() == notes@[i as int]@);
        }
        let ghost nv = notes@[i as int]@;
        let ghost bv0 = bars@.map_values(|b: Vec<Note>| notes_view(b@));
        let ghost cv0 = notes_view(current@);
        let d: u64 = match atom_parts(&notes[i]) { Some((_, d)) => d, None => 0 };
        let ghost reset = (used as int) + (d as int) > bar_ticks(bar_quarters) && cv0.len() > 0;
        if (used as u128) + (d as u128) > bar_whole as u128 && current.len() > 0 {
            bars.push(current);
            current = Vec::new();
            used = 0;
            assert(bars@.map_values(|b: Vec<Note>| notes_view(b@)) =~= bv0.push(cv0));
            assert(notes_view(current@) =~= Seq::<NoteV>::empty());
        }
        let ghost bv1 = bars@.map_values(|b: Vec<Note>| notes_view(b@));
        let ghost cv1 = notes_view(current@);
        assert(bv1.push(cv1) == (if reset { bv0.push(cv0).push(Seq::empty()) } else { bv0.push(cv0) }));
        current.push(notes[i].duplicate());
        assert(notes_view(current@) =~= cv1.push(nv));
        assert(bv1.push(cv1).update(bv1.len() as int, cv1.push(nv)) =~= bv1.push(notes_view(current@)));
        used = used + d;
    }
    assert(v.take(n as int) =~= v);
    let ghost bv = bars@.map_values(|b: Vec<Note>| notes_view(b@));
    bars.push(current);
    assert(bars@.map_values(|b: Vec<Note>| notes_view(b@)) =~= bv.push(notes_view(current@)));
    proof {
        crate::laws::law_bars_fill_greedily(v, bar_quarters);
        let bf = bars_fold(v, bar_quarters).0;
        assert(bars@.len() == bf.len());
        assert forall|i: int| 0 <= i < bars@.len() implies #[trigger] notes_view(bars@[i]@) == bf[i] by {
            assert(bars@.map_values(|b: Vec<Note>| notes_view(b@))[i] == notes_view(bars@[i]@));
        }
        assert forall|i: int| 0 <= i < bars@.len() - 1 implies
            (#[trigger] bars@[i])@.len() > 0 && bars@[i + 1]@.len() > 0
            && crate::laws::bar_fill(notes_view(bars@[i]@)) + crate::laws::note_ticks(bars@[i + 1]@[0]@) > bar_ticks(bar_quarters) by {
            assert(notes_view(bars@[i]@) == bf[i]);
            assert(notes_view(bars@[i + 1]@) == bf[i + 1]);
            assert(notes_view(bars@[i + 1]@)[0] == bars@[i + 1]@[0]@);
        }
        assert forall|i: int| 0 <= i < bars@.len() implies (#[trigger] bars@[i])@.len() <= 1
            || crate::laws::bar_fill(notes_view(bars@[i]@)) <= bar_ticks(bar_quarters) by {
            assert(notes_view(bars@[i]@) == bf[i]);
        }
    }
    bars
}

// --- seeded selections ---

/// Fisher–Yates swaps from index `i` down to 1, the generator at `state`.
pub open spec fn shuffle_perm(perm: Seq<int>, i: int, state: u64) -> Seq<int>
    decreases i,
{
    if i < 1 {
        perm
    } else {
        let j = (lcg_out(state) as int) % (i + 1);
        shuffle_perm(perm.update(i, perm[j]).update(j, perm[i]), i - 1, lcg_advance(state))
    }
}

/// The order `shuffle` puts `len` positions in.
pub open spec fn shuffle_order(len: nat, seed: u64) -> Seq<int> {
    shuffle_perm(Seq::new(len, |i: int| i), len - 1, seeded(seed))
}

fn swap_entries(perm: &mut Vec<usize>, i: usize, j: usize, len: usize)
    requires
        i < old(perm)@.len(),
        j < old(perm)@.len(),
        forall|k: int| 0 <= k < old(perm)@.len() ==> old(perm)@[k] < len,
    ensures
        final(perm)@ == old(perm)@.update(i as int, old(perm)@[j as int]).update(j as int, old(perm)@[i as int]),
        forall|k: int| 0 <= k < final(perm)@.len() ==> final(perm)@[k] < len,
{
    let a = perm[i];
    let b = perm[j];
    perm.set(i, b);
    perm.set(j, a);
}

/// Shuffle with an explicit seed (Fisher–Yates driven by the generator):
/// note `k` of the result is input note `shuffle_order(len, seed)[k]`.
pub fn shuffle(notes: Vec<Note>, seed: u64) -> (r: Vec<Note>)
    ensures
        r@.len() == notes@.len(),
        forall|k: int| 0 <= k < notes@.len() ==> 0 <= #[trigger] shuffle_order(notes@.len(), seed)[k] < notes@.len()
            && r@[k]@ == notes@[shuffle_order(notes@.len(), seed)[k]]@,
{
    let len = notes.len();
    let mut perm: Vec<usize> = Vec::new();
    for i in 0..len
        invariant
            perm@.len() == i,
            forall|k: int| 0 <= k < i ==> perm@[k] == k,
    {
        perm.push(i);
    }
    let ghost target = shuffle_order(len as nat, seed);
    let mut state = seed_state(seed);
    let mut i: usize = if len == 0 { 0 } else { len - 1 };
    let ghost mut pv: Seq<int> = Seq::new(len as nat, |k: int| k);
    assert(forall|k: int| 0 <= k < len ==> #[trigger] perm@[k] as int == pv[k]);
    proof {
        if len == 0 {
            assert(shuffle_perm(pv, -1, seeded(seed)) == pv);
        }
    }
    while i >= 1
        invariant
            perm@.len() == len,
            pv.len() == len,
            len == 0 ==> i == 0,
            i < len || len == 0,
            forall|k: int| 0 <= k < len ==> #[trigger] perm@[k] < len,
            forall|k: int| 0 <= k < len ==> #[trigger] perm@[k] as int == pv[k],
            shuffle_perm(pv, i as int, state) == target,
        decreases i,
    {
        let drawn = lcg_next(&mut state);
        let j: usize = (drawn as usize) % (i + 1);
        swap_entries(&mut perm, i, j, len);
        proof {
            pv = pv.update(i as int, pv[j as int]).update(j as int, pv[i as int]);
        }
        i = i - 1;
    }
    proof {
        if len > 0 {
            assert(shuffle_perm(pv, 0, state) == pv);
        }
    }
    assert(pv == target);

    let mut out: Vec<Note> = Vec::new();
    for k in 0..len
        invariant
            len == notes@.len(),
            perm@.len() == len,
            forall|t: int| 0 <= t < len ==> #[trigger] perm@[t] < len,
            forall|t: int| 0 <= t < len ==> #[trigger] perm@[t] as int == pv[t],
            pv.len() == len,
            pv == target,
            out@.len() == k,
            forall|t: int| 0 <= t < k ==> (#[trigger] out@[t])@ == notes@[target[t]]@,
    {
        out.push(notes[perm[k]].duplicate());
    }
    assert forall|k: int| 0 <= k < len implies 0 <= #[trigger] target[k] < len by {
        assert(perm@[k] < len);
        assert(perm@[k] as int == pv[k]);
    }
    out
}

/// The generator state after `k` steps from `s`.
pub open spec fn lcg_after(s: u64, k: nat) -> u64
    decreases k,
{
    if k == 0 { s } else { lcg_advance(lcg_after(s, (k - 1) as nat)) }
}

/// Sample `n` notes with replacement: pick `k` is input note
/// `draw_k mod len`, `draw_k` being the `k`-th value drawn from the seed.
pub fn sample(notes: &[Note], n: usize, seed: u64) -> (r: Vec<Note>)
    ensures
        notes@.len() == 0 || n == 0 ==> r@.len() == 0,
        notes@.len() > 0 && n > 0 ==> r@.len() == n && forall|k: int| 0 <= k < n ==>
            (#[trigger] r@[k])@ == notes@[(lcg_out(lcg_after(seeded(seed), k as nat)) as int) % (notes@.len() as int)]@,
{
    if notes.len() == 0 || n == 0 {
        return Vec::new();
    }
    let mut state = seed_state(seed);
    let mut out: Vec<Note> = Vec::new();
    for k in 0..n
        invariant
            notes@.len() > 0,
            state == lcg_after(seeded(seed), k as nat),
            out@.len() == k,
            forall|t: int| 0 <= t < k ==>
                (#[trigger] out@[t])@ == notes@[(lcg_out(lcg_after(seeded(seed), t as nat)) as int) % (notes@.len() as int)]@,
    {
        let drawn = lcg_next(&mut state);
        out.push(notes[(drawn as usize) % notes.len()].duplicate());
    }
    out
}

/// Hit slots of a Euclidean rhythm after placing the first `k` of `p` hits
/// over `steps` slots: hit `i` lands on slot `i * steps / p`.
pub open spec fn euclid_pattern(p: nat, steps: nat, k: nat) -> Seq<bool>
    decreases k,
{
    if k == 0 {
        Seq::new(steps, |t: int| false)
    } else {
        euclid_pattern(p, steps, (k - 1) as nat).update((((k - 1) * steps) as int) / (p as int), true)
    }
}

pub open spec fn min_usize(a: usize, b: usize) -> usize {
    if a < b { a } else { b }
}

/// Euclidean rhythm: `pulses` hits (at most `steps`) spread evenly over
/// `steps` slots; a hit slot holds `hit`, the others `rest`.
pub fn euclidean(pulses: usize, steps: usize, hit: Note, rest: Note) -> (r: Vec<Note>)
    requires
        min_usize(pulses, steps) == 0 || (min_usize(pulses, steps) - 1) * steps <= usize::MAX,
    ensures
        r@.len() == steps,
        forall|t: int| 0 <= t < steps ==> (#[trigger] r@[t])@ ==
            if euclid_pattern(min_usize(pulses, steps) as nat, steps as nat, min_usize(pulses, steps) as nat)[t] { hit@ } else { rest@ },
{
    if steps == 0 {
        return Vec::new();
    }
    let p = if pulses < steps { pulses } else { steps };
    let mut pattern: Vec<bool> = Vec::new();
    for t in 0..steps
        invariant
            pattern@.len() == t,
            forall|u: int| 0 <= u < t ==> !pattern@[u],
    {
        pattern.push(false);
    }
    assert(pattern@ =~= euclid_pattern(p as nat, steps as nat, 0));
    for i in 0..p
        invariant
            p == min_usize(pulses, steps),
            p <= steps,
            steps > 0,
            (p - 1) * steps <= usize::MAX,
            pattern@ == euclid_pattern(p as nat, steps as nat, i as nat),
            pattern@.len() == steps,
    {
        assert(i * steps <= (p - 1) * steps) by (nonlinear_arith)
            requires i < p;
        assert(i * steps / (p as int) < steps) by (nonlinear_arith)
            requires i < p, p > 0, steps > 0;
        let slot = (i * steps) / p;
        pattern.set(slot, true);
    }
    let mut out: Vec<Note> = Vec::new();
    for t in 0..steps
        invariant
            pattern@.len() == steps,
            pattern@ == euclid_pattern(p as nat, steps as nat, p as nat),
            out@.len() == t,
            forall|u: int| 0 <= u < t ==> (#[trigger] out@[u])@ == if pattern@[u] { hit@ } else { rest@ },
    {
        if pattern[t] {
            out.push(hit.duplicate());
        } else {
            out.push(rest.duplicate());
        }
    }
    out
}

/// Entry `i mod |table|` of a permutation table.
pub open spec fn table_slot(table: Seq<usize>, i: int) -> usize {
    table[i % table.len() as int]
}

/// Messiaen-style permutation: note `i` becomes input note
/// `(table[i mod |table|] - 1) mod len` (1-based table, wrapping).
pub fn messiaen_permute(notes: Vec<Note>, table: &[usize]) -> (r: Vec<Note>)
    requires
        notes@.len() == 0 || table@.len() == 0 || forall|i: int| 0 <= i < notes@.len() ==> #[trigger] table_slot(table@, i) >= 1,
    ensures
        notes@.len() == 0 || table@.len() == 0 ==> notes_view(r@) == notes_view(notes@),
        notes@.len() > 0 && table@.len() > 0 ==> r@.len() == notes@.len() && forall|i: int| 0 <= i < notes@.len() ==>
            (#[trigger] r@[i])@ == notes@[(table_slot(table@, i) - 1) % (notes@.len() as int)]@,
{
    if notes.len() == 0 || table.len() == 0 {
        return notes;
    }
    let mut out: Vec<Note> = Vec::new();
    let n = notes.len();
    for i in 0..n
        invariant
            n == notes@.len(),
            table@.len() > 0,
            forall|t: int| 0 <= t < n ==> #[trigger] table_slot(table@, t) >= 1,
            out@.len() == i,
            forall|t: int| 0 <= t < i ==>
                (#[trigger] out@[t])@ == notes@[(table_slot(table@, t) - 1) % (n as int)]@,
    {
        assert(table_slot(table@, i as int) >= 1);
        let slot = table[i % table.len()];
        out.push(notes[(slot - 1) % n].duplicate());
    }
    out
}

/// Pitch `i` of a scale run before clamping: the root plus the first `i`
/// intervals, cycling.
pub open spec fn scale_pitch(root: u8, intervals: Seq<i8>, i: nat) -> int
    decreases i,
{
    if i == 0 { root as int } else { scale_pitch(root, intervals, (i - 1) as nat) + intervals[((i - 1) as int) % intervals.len() as int] }
}

/// A scale run: `len` bare atoms of `duration` ticks, starting at `root`
/// and stepping through `intervals` cyclically, pitches clamped to 0..=127.
pub fn scale(root: u8, intervals: &[i8], duration: u64, len: usize) -> (r: Vec<Note>)
    requires
        len <= 1 || intervals@.len() > 0,
        forall|i: nat| i < len ==> i16::MIN <= #[trigger] scale_pitch(root, intervals@, i) <= i16::MAX,
    ensures
        notes_view(r@) == Seq::new(len as nat, |i: int| plain_atom(clamp_u8(scale_pitch(root, intervals@, i as nat)), duration)),
{
    let mut pitch: i16 = root as i16;
    let mut out: Vec<Note> = Vec::new();
    for i in 0..len
        invariant
            len <= 1 || intervals@.len() > 0,
            forall|k: nat| k < len ==> i16::MIN <= #[trigger] scale_pitch(root, intervals@, k) <= i16::MAX,
            i > 0 ==> pitch == scale_pitch(root, intervals@, (i - 1) as nat),
            i == 0 ==> pitch == root,
            out@.len() == i,
            forall|k: int| 0 <= k < i ==> (#[trigger] out@[k])@ == plain_atom(clamp_u8(scale_pitch(root, intervals@, k as nat)), duration),
    {
        if i > 0 {
            assert(scale_pitch(root, intervals@, i as nat) == pitch + intervals@[((i - 1) as int) % intervals@.len() as int]);
            assert(i16::MIN <= scale_pitch(root, intervals@, i as nat) <= i16::MAX);
            pitch = pitch + intervals[(i - 1) % intervals.len()] as i16;
        }
        let m: u8 = if pitch < 0 { 0 } else if pitch > 127 { 127 } else { pitch as u8 };
        out.push(make_atom(m, duration));
    }
    assert(notes_view(out@) =~= Seq::new(len as nat, |i: int| plain_atom(clamp_u8(scale_pitch(root, intervals@, i as nat)), duration)));
    out
}

/// Clamp to 0..=127.
pub open spec fn clamp_u8(p: int) -> u8 {
    (if p < 0 { 0 } else if p > 127 { 127 } else { p }) as u8
}

/// Split an atom or rest into `n` equal parts (`duration / n` ticks each,
/// rounded down); any other note is kept alone.
pub fn divide(note: &Note, n: usize) -> (r: Vec<Note>)
    requires
        n >= 1,
    ensures
        parts(note@) is None ==> notes_view(r@) == seq![note@],
        parts(note@) is Some ==> notes_view(r@) == Seq::new(n as nat, |i: int| with_duration_spec(note@, (parts(note@)->Some_0.1 / n as u64) as u64)),
{
    match atom_parts(note) {
        Some((_, duration)) => {
            let d = duration / n as u64;
            let mut out: Vec<Note> = Vec::new();
            for i in 0..n
                invariant
                    out@.len() == i,
                    forall|j: int| 0 <= j < i ==> (#[trigger] out@[j])@ == with_duration_spec(note@, d),
            {
                out.push(with_duration(note, d));
            }
            assert(notes_view(out@) =~= Seq::new(n as nat, |i: int| with_duration_spec(note@, d)));
            out
        },
        None => {
            let mut out: Vec<Note> = Vec::new();
            out.push(note.duplicate());
            assert(notes_view(out@) =~= seq![note@]);
            out
        },
    }
}

/// `divide` in the model.
pub open spec fn divide_spec(n: NoteV, k: usize) -> Seq<NoteV> {
    match parts(n) {
        Some(p) => Seq::new(k as nat, |i: int| with_duration_spec(n, (p.1 / k as u64) as u64)),
        None => seq![n],
    }
}

/// The concatenation of a list of lists.
pub open spec fn concat_all(s: Seq<Seq<NoteV>>) -> Seq<NoteV>
    decreases s.len(),
{
    if s.len() == 0 { Seq::empty() } else { concat_all(s.drop_last()) + s.last() }
}

/// Divide every atom and rest of the list.
pub fn divide_all(notes: Vec<Note>, n: usize) -> (r: Vec<Note>)
    requires
        n >= 1,
    ensures
        notes_view(r@) == concat_all(notes_view(notes@).map_values(|x: NoteV| divide_spec(x, n))),
{
    let ghost v = notes_view(notes@).map_values(|x: NoteV| divide_spec(x, n));
    let mut out: Vec<Note> = Vec::new();
    let m = notes.len();
    assert(v.take(0) =~= Seq::<Seq<NoteV>>::empty());
    assert(notes_view(out@) =~= Seq::<NoteV>::empty());
    for i in 0..m
        invariant
            m == notes@.len(),
            n >= 1,
            v == notes_view(notes@).map_values(|x: NoteV| divide_spec(x, n)),
            notes_view(out@) == concat_all(v.take(i as int)),
    {
        let parts_i = divide(&notes[i], n);
        let ghost before = notes_view(out@);
        assert(notes_view(parts_i@) == v[i as int]);
        let mut k: usize = 0;
        while k < parts_i.len()
            invariant
                notes_view(out@) == before + notes_view(parts_i@).take(k as int),
                k <= parts_i@.len(),
            decreases parts_i@.len() - k,
        {
            let ghost prev = notes_view(out@);
            out.push(parts_i[k].duplicate());
            assert(notes_view(out@) =~= prev.push(parts_i@[k as int]@));
            assert(notes_view(out@) =~= before + notes_view(parts_i@).take(k + 1));
            k = k + 1;
        }
        assert(notes_view(parts_i@).take(parts_i@.len() as int) =~= notes_view(parts_i@));
        assert(v.take(i + 1).drop_last() =~= v.take(i as int));
    }
    assert(v.take(m as int) =~= v);
    out
}

/// State of an L-system walk after some characters: scale degree, pitch
/// before clamping and the pitches emitted; `None` where the walk fails
/// (an empty scale or an overflow).
pub open spec fn lsys_fold(chars: Seq<char>, start: u8, scale: Seq<i8>, up: char, down: char) -> Option<(int, int, Seq<u8>)>
    decreases chars.len(),
{
    if chars.len() == 0 {
        Some((0, start as int, Seq::empty()))
    } else {
        match lsys_fold(chars.drop_last(), start, scale, up, down) {
            None => None,
            Some((degree, pitch, out)) => {
                let ch = chars.last();
                if ch != up && ch != down {
                    Some((degree, pitch, out))
                } else {
                    let d = if ch == up { degree + 1 } else { degree - 1 };
                    if d < i32::MIN || d > i32::MAX || scale.len() == 0 {
                        None
                    } else {
                        let p = pitch + scale[rotation(d, scale.len() as int)];
                        if p < i16::MIN || p > i16::MAX { None } else { Some((d, p, out.push(clamp_u8(p)))) }
                    }
                }
            },
        }
    }
}

/// Map an L-system string to pitches: `up` steps one scale degree up,
/// `down` one down (other characters are skipped); each step adds the
/// scale interval of the new degree (modulo the scale length) and emits a
/// bare atom of `duration` ticks with the pitch clamped to 0..=127.
pub fn lsystem_to_pitches(system: &str, start: u8, scale: &[i8], up: char, down: char, duration: u64) -> (r: Vec<Note>)
    requires
        lsys_fold(system@, start, scale@, up, down) is Some,
        scale@.len() <= i32::MAX,
    ensures
        notes_view(r@) == lsys_fold(system@, start, scale@, up, down)->Some_0.2.map_values(|m: u8| plain_atom(m, duration)),
{
    let chars = crate::text::chars_of(system);
    let mut degree: i32 = 0;
    let mut pitch: i16 = start as i16;
    let mut out: Vec<Note> = Vec::new();
    let ghost mut emitted: Seq<u8> = Seq::empty();
    let n = chars.len();
    assert(system@.take(0) =~= Seq::<char>::empty());
    assert(notes_view(out@) =~= Seq::<NoteV>::empty());
    for i in 0..n
        invariant
            n == chars@.len(),
            chars@ == system@,
            lsys_fold(system@, start, scale@, up, down) is Some,
            scale@.len() <= i32::MAX,
            lsys_fold(system@.take(i as int), start, scale@, up, down) == Some((degree as int, pitch as int, emitted)),
            notes_view(out@) == emitted.map_values(|m: u8| plain_atom(m, duration)),
    {
        proof {
            lemma_lsys_prefix(system@, start, scale@, up, down, i + 1);
            assert(system@.take(i + 1).drop_last() =~= system@.take(i as int));
            assert(system@.take(i + 1).last() == chars@[i as int]);
        }
        let ch = chars[i];
        if ch == up || ch == down {
            if ch == up { degree = degree + 1; } else { degree = degree - 1; }
            let len = scale.len() as i64;
            let dg = degree as i64;
            let idx: usize = if dg >= 0 { (dg % len) as usize } else { ((len - ((-dg) % len)) % len) as usize };
            pitch = pitch + scale[idx] as i16;
            let m: u8 = if pitch < 0 { 0 } else if pitch > 127 { 127 } else { pitch as u8 };
            let ghost before = notes_view(out@);
            out.push(make_atom(m, duration));
            assert(notes_view(out@) =~= before.push(plain_atom(m, duration)));
            proof { emitted = emitted.push(m); }
            assert(notes_view(out@) =~= emitted.map_values(|m: u8| plain_atom(m, duration)));
        }
    }
    assert(system@.take(n as int) =~= system@);
    out
}

pub proof fn lemma_lsys_prefix(chars: Seq<char>, start: u8, scale: Seq<i8>, up: char, down: char, i: int)
    requires
        lsys_fold(chars, start, scale, up, down) is Some,
        0 <= i <= chars.len(),
    ensures
        lsys_fold(chars.take(i), start, scale, up, down) is Some,
    decreases chars.len() - i,
{
    if i < chars.len() {
        lemma_lsys_prefix(chars, start, scale, up, down, i + 1);
        assert(chars.take(i + 1).drop_last() =~= chars.take(i));
    } else {
        assert(chars.take(i) =~= chars);
    }
}

} // verus!
