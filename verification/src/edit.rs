//! Per-note edits: setting a parameter, applying block attributes, and
//! transposing.

use vstd::prelude::*;
use linked_hash_map::LinkedHashMap;
use crate::note::{Note, NoteV, ParamValue, ParamValueV, ParamsV, params_view, notes_view, copy_string, copy_params};
use crate::attrs::{attr_entries, attrs_entries, attrs_from_vec, attrs_insert, attrs_into_vec, insert_all, insert_entry};
use crate::text::str_eq;

verus! {

/// `Note::param` in the model: the parameter list of an atom, rest,
/// implicit-duration atom or previous-pitch note is rebuilt as an ordered
/// map and `k` is inserted (moved to the back if present); compositions
/// set it on every child; all other notes are unchanged.
pub open spec fn with_param(n: NoteV, k: Seq<char>, v: ParamValueV) -> NoteV
    decreases n,
{
    match n {
        NoteV::Atom { midi, duration, parameters } =>
            NoteV::Atom { midi, duration, parameters: insert_entry(insert_all(Seq::empty(), parameters), k, v) },
        NoteV::Rest { duration, parameters } =>
            NoteV::Rest { duration, parameters: insert_entry(insert_all(Seq::empty(), parameters), k, v) },
        NoteV::AtomImplicitDuration { midi, parameters } =>
            NoteV::AtomImplicitDuration { midi, parameters: insert_entry(insert_all(Seq::empty(), parameters), k, v) },
        NoteV::PreviousPitch { optional_duration, parameters } =>
            NoteV::PreviousPitch { optional_duration, parameters: insert_entry(insert_all(Seq::empty(), parameters), k, v) },
        NoteV::Serial(s) => NoteV::Serial(Seq::new(s.len(), |i: int| if 0 <= i < s.len() { with_param(s[i], k, v) } else { arbitrary() })),
        NoteV::Parallel(s) => NoteV::Parallel(Seq::new(s.len(), |i: int| if 0 <= i < s.len() { with_param(s[i], k, v) } else { arbitrary() })),
        NoteV::ParallelMin(s) => NoteV::ParallelMin(Seq::new(s.len(), |i: int| if 0 <= i < s.len() { with_param(s[i], k, v) } else { arbitrary() })),
        NoteV::ForkSequence(s) => NoteV::ForkSequence(Seq::new(s.len(), |i: int| if 0 <= i < s.len() { with_param(s[i], k, v) } else { arbitrary() })),
        NoteV::ForkParallel(s) => NoteV::ForkParallel(Seq::new(s.len(), |i: int| if 0 <= i < s.len() { with_param(s[i], k, v) } else { arbitrary() })),
        _ => n,
    }
}

/// The parameter key that block attributes never apply to a note.
pub open spec fn key_key() -> Seq<char> {
    seq!['k', 'e', 'y']
}

/// Index of the first entry with key `k`.
pub open spec fn find_key(p: ParamsV, k: Seq<char>) -> Option<int>
    decreases p.len(),
{
    if p.len() == 0 {
        None
    } else if p[0].0 == k {
        Some(0)
    } else {
        match find_key(p.drop_first(), k) {
            Some(j) => Some(j + 1),
            None => None,
        }
    }
}

/// Applying one attribute to a parameter list: `"key"` is skipped, the
/// first entry with the same key is overwritten in place, otherwise the
/// attribute is appended.
pub open spec fn apply_one(p: ParamsV, k: Seq<char>, v: ParamValueV) -> ParamsV {
    if k == key_key() {
        p
    } else {
        match find_key(p, k) {
            Some(j) => p.update(j, (k, v)),
            None => p.push((k, v)),
        }
    }
}

/// Applying attributes in order.
pub open spec fn apply_all(p: ParamsV, attrs: ParamsV) -> ParamsV
    decreases attrs.len(),
{
    if attrs.len() == 0 {
        p
    } else {
        apply_one(apply_all(p, attrs.drop_last()), attrs.last().0, attrs.last().1)
    }
}

/// `apply_parameters` in the model: notes with parameters receive the
/// attributes, compositions pass them to every child, the rest is unchanged.
pub open spec fn applied(n: NoteV, attrs: ParamsV) -> NoteV
    decreases n,
{
    match n {
        NoteV::Atom { midi, duration, parameters } =>
            NoteV::Atom { midi, duration, parameters: apply_all(parameters, attrs) },
        NoteV::Rest { duration, parameters } =>
            NoteV::Rest { duration, parameters: apply_all(parameters, attrs) },
        NoteV::AtomImplicitDuration { midi, parameters } =>
            NoteV::AtomImplicitDuration { midi, parameters: apply_all(parameters, attrs) },
        NoteV::PreviousPitch { optional_duration, parameters } =>
            NoteV::PreviousPitch { optional_duration, parameters: apply_all(parameters, attrs) },
        NoteV::Serial(s) => NoteV::Serial(Seq::new(s.len(), |i: int| if 0 <= i < s.len() { applied(s[i], attrs) } else { arbitrary() })),
        NoteV::Parallel(s) => NoteV::Parallel(Seq::new(s.len(), |i: int| if 0 <= i < s.len() { applied(s[i], attrs) } else { arbitrary() })),
        NoteV::ParallelMin(s) => NoteV::ParallelMin(Seq::new(s.len(), |i: int| if 0 <= i < s.len() { applied(s[i], attrs) } else { arbitrary() })),
        NoteV::ForkSequence(s) => NoteV::ForkSequence(Seq::new(s.len(), |i: int| if 0 <= i < s.len() { applied(s[i], attrs) } else { arbitrary() })),
        NoteV::ForkParallel(s) => NoteV::ForkParallel(Seq::new(s.len(), |i: int| if 0 <= i < s.len() { applied(s[i], attrs) } else { arbitrary() })),
        _ => n,
    }
}

/// Rebuild a parameter list as an ordered map with `key` inserted.
fn reinsert(parameters: Vec<(String, ParamValue)>, key: String, value: ParamValue) -> (r: Vec<(String, ParamValue)>)
    ensures
        params_view(r@) == insert_entry(insert_all(Seq::empty(), params_view(parameters@)), key@, value.view()),
{
    let mut map = attrs_from_vec(parameters);
    attrs_insert(&mut map, key, value);
    attrs_into_vec(map)
}

/// Set `key` on every note of a list.
fn param_all(v: &Vec<Note>, key: &String, value: &ParamValue) -> (r: Vec<Note>)
    ensures
        notes_view(r@) == Seq::new(v@.len(), |i: int| with_param(v@[i].view(), key@, value.view())),
    decreases v,
{
    let mut r: Vec<Note> = Vec::new();
    let n = v.len();
    for i in 0..n
        invariant
            n == v@.len(),
            r@.len() == i,
            forall|j: int| 0 <= j < i ==> (#[trigger] r@[j]).view() == with_param(v@[j].view(), key@, value.view()),
    {
        proof {
            assert(decreases_to!(v => v@));
        }
        r.push(v[i].param_ref(key, value));
    }
    assert(notes_view(r@) =~= Seq::new(v@.len(), |i: int| with_param(v@[i].view(), key@, value.view())));
    r
}

impl Note {
    /// `param` on a borrowed note.
    fn param_ref(&self, key: &String, value: &ParamValue) -> (r: Note)
        ensures
            r@ == with_param(self@, key@, value.view()),
        decreases self,
    {
        match self {
            Note::Atom { midi, duration, parameters } =>
                Note::Atom { midi: *midi, duration: *duration, parameters: reinsert(copy_params(parameters), copy_string(key), value.duplicate()) },
            Note::Rest { duration, parameters } =>
                Note::Rest { duration: *duration, parameters: reinsert(copy_params(parameters), copy_string(key), value.duplicate()) },
            Note::AtomImplicitDuration { midi, parameters } =>
                Note::AtomImplicitDuration { midi: *midi, parameters: reinsert(copy_params(parameters), copy_string(key), value.duplicate()) },
            Note::PreviousPitch { optional_duration, parameters } =>
                Note::PreviousPitch { optional_duration: *optional_duration, parameters: reinsert(copy_params(parameters), copy_string(key), value.duplicate()) },
            Note::Serial(v) => {
                let r = param_all(v, key, value);
                proof { assert(notes_view(r@) =~= with_param(self@, key@, value.view())->Serial_0); }
                Note::Serial(r)
            },
            Note::Parallel(v) => {
                let r = param_all(v, key, value);
                proof { assert(notes_view(r@) =~= with_param(self@, key@, value.view())->Parallel_0); }
                Note::Parallel(r)
            },
            Note::ParallelMin(v) => {
                let r = param_all(v, key, value);
                proof { assert(notes_view(r@) =~= with_param(self@, key@, value.view())->ParallelMin_0); }
                Note::ParallelMin(r)
            },
            Note::ForkSequence(v) => {
                let r = param_all(v, key, value);
                proof { assert(notes_view(r@) =~= with_param(self@, key@, value.view())->ForkSequence_0); }
                Note::ForkSequence(r)
            },
            Note::ForkParallel(v) => {
                let r = param_all(v, key, value);
                proof { assert(notes_view(r@) =~= with_param(self@, key@, value.view())->ForkParallel_0); }
                Note::ForkParallel(r)
            },
            _ => self.duplicate(),
        }
    }

    /// Adds or updates a parameter: the note's parameters are rebuilt as an
    /// ordered map, `key` is inserted (moving to the back when present);
    /// compositions set it on every child; other notes are unchanged.
    pub fn param(self, key: String, value: ParamValue) -> (r: Note)
        ensures
            r@ == with_param(self@, key@, value.view()),
    {
        match self {
            Note::Atom { midi, duration, parameters } =>
                Note::Atom { midi, duration, parameters: reinsert(parameters, key, value) },
            Note::Rest { duration, parameters } =>
                Note::Rest { duration, parameters: reinsert(parameters, key, value) },
            Note::AtomImplicitDuration { midi, parameters } =>
                Note::AtomImplicitDuration { midi, parameters: reinsert(parameters, key, value) },
            Note::PreviousPitch { optional_duration, parameters } =>
                Note::PreviousPitch { optional_duration, parameters: reinsert(parameters, key, value) },
            other => other.param_ref(&key, &value),
        }
    }
}

/// The model of borrowed map entries.
pub open spec fn ref_entries_view(s: Seq<(&String, &ParamValue)>) -> ParamsV {
    Seq::new(s.len(), |i: int| (s[i].0@, s[i].1.view()))
}

proof fn lemma_find_key_found(p: ParamsV, k: Seq<char>, j: int)
    requires
        0 <= j < p.len(),
        p[j].0 == k,
        forall|t: int| 0 <= t < j ==> p[t].0 != k,
    ensures
        find_key(p, k) == Some(j),
    decreases j,
{
    if j > 0 {
        lemma_find_key_found(p.drop_first(), k, j - 1);
    }
}

proof fn lemma_find_key_absent(p: ParamsV, k: Seq<char>)
    requires
        forall|t: int| 0 <= t < p.len() ==> p[t].0 != k,
    ensures
        find_key(p, k) is None,
    decreases p.len(),
{
    if p.len() > 0 {
        lemma_find_key_absent(p.drop_first(), k);
    }
}

/// Apply one attribute to a parameter list in place.
fn apply_one_exec(p: &mut Vec<(String, ParamValue)>, k: &String, v: &ParamValue)
    ensures
        params_view(final(p)@) == apply_one(params_view(old(p)@), k@, v.view()),
{
    proof {
        reveal_strlit("key");
        assert("key"@ =~= key_key());
    }
    if str_eq(k.as_str(), "key") {
        assert(k@ == key_key());
        return;
    }
    assert(k@ != key_key());
    let ghost pv = params_view(p@);
    let n = p.len();
    let mut j: usize = 0;
    while j < n
        invariant
            n == p@.len(),
            pv == params_view(p@),
            pv == params_view(old(p)@),
            k@ != key_key(),
            j <= n,
            forall|t: int| 0 <= t < j ==> pv[t].0 != k@,
        decreases n - j,
    {
        if p[j].0 == *k {
            proof { lemma_find_key_found(pv, k@, j as int); }
            p.set(j, (copy_string(k), v.duplicate()));
            assert(params_view(p@) =~= pv.update(j as int, (k@, v.view())));
            return;
        }
        j = j + 1;
    }
    proof { lemma_find_key_absent(pv, k@); }
    p.push((copy_string(k), v.duplicate()));
    assert(params_view(p@) =~= pv.push((k@, v.view())));
}

/// Apply every attribute, in order, to a parameter list in place.
fn apply_list(p: &mut Vec<(String, ParamValue)>, entries: &Vec<(&String, &ParamValue)>)
    ensures
        params_view(final(p)@) == apply_all(params_view(old(p)@), ref_entries_view(entries@)),
{
    let ghost e = ref_entries_view(entries@);
    let ghost p0 = params_view(p@);
    let n = entries.len();
    for i in 0..n
        invariant
            n == entries@.len(),
            e == ref_entries_view(entries@),
            params_view(p@) == apply_all(p0, e.take(i as int)),
    {
        assert(e.take(i + 1).drop_last() =~= e.take(i as int));
        let entry = entries[i];
        apply_one_exec(p, entry.0, entry.1);
    }
    assert(e.take(n as int) =~= e);
}

/// Apply attributes to every note of a list.
fn apply_notes(v: &Vec<Note>, entries: &Vec<(&String, &ParamValue)>) -> (r: Vec<Note>)
    ensures
        notes_view(r@) == Seq::new(v@.len(), |i: int| applied(v@[i].view(), ref_entries_view(entries@))),
    decreases v,
{
    let mut r: Vec<Note> = Vec::new();
    let n = v.len();
    for i in 0..n
        invariant
            n == v@.len(),
            r@.len() == i,
            forall|j: int| 0 <= j < i ==> (#[trigger] r@[j]).view() == applied(v@[j].view(), ref_entries_view(entries@)),
    {
        proof {
            assert(decreases_to!(v => v@));
        }
        r.push(apply_ref(&v[i], entries));
    }
    assert(notes_view(r@) =~= Seq::new(v@.len(), |i: int| applied(v@[i].view(), ref_entries_view(entries@))));
    r
}

fn apply_to_params(parameters: &Vec<(String, ParamValue)>, entries: &Vec<(&String, &ParamValue)>) -> (r: Vec<(String, ParamValue)>)
    ensures
        params_view(r@) == apply_all(params_view(parameters@), ref_entries_view(entries@)),
{
    let mut p = copy_params(parameters);
    apply_list(&mut p, entries);
    p
}

fn apply_ref(note: &Note, entries: &Vec<(&String, &ParamValue)>) -> (r: Note)
    ensures
        r@ == applied(note@, ref_entries_view(entries@)),
    decreases note,
{
    let ghost e = ref_entries_view(entries@);
    match note {
        Note::Atom { midi, duration, parameters } =>
            Note::Atom { midi: *midi, duration: *duration, parameters: apply_to_params(parameters, entries) },
        Note::Rest { duration, parameters } =>
            Note::Rest { duration: *duration, parameters: apply_to_params(parameters, entries) },
        Note::AtomImplicitDuration { midi, parameters } =>
            Note::AtomImplicitDuration { midi: *midi, parameters: apply_to_params(parameters, entries) },
        Note::PreviousPitch { optional_duration, parameters } =>
            Note::PreviousPitch { optional_duration: *optional_duration, parameters: apply_to_params(parameters, entries) },
        Note::Serial(v) => {
            let r = apply_notes(v, entries);
            proof { assert(notes_view(r@) =~= applied(note@, e)->Serial_0); }
            Note::Serial(r)
        },
        Note::Parallel(v) => {
            let r = apply_notes(v, entries);
            proof { assert(notes_view(r@) =~= applied(note@, e)->Parallel_0); }
            Note::Parallel(r)
        },
        Note::ParallelMin(v) => {
            let r = apply_notes(v, entries);
            proof { assert(notes_view(r@) =~= applied(note@, e)->ParallelMin_0); }
            Note::ParallelMin(r)
        },
        Note::ForkSequence(v) => {
            let r = apply_notes(v, entries);
            proof { assert(notes_view(r@) =~= applied(note@, e)->ForkSequence_0); }
            Note::ForkSequence(r)
        },
        Note::ForkParallel(v) => {
            let r = apply_notes(v, entries);
            proof { assert(notes_view(r@) =~= applied(note@, e)->ForkParallel_0); }
            Note::ForkParallel(r)
        },
        _ => note.duplicate(),
    }
}

/// Apply block attributes to a note: each attribute other than `"key"`,
/// in the map's order, overwrites the first parameter with its key or is
/// appended; compositions pass the attributes to every child.
pub fn apply_parameters(note: Note, params: &LinkedHashMap<String, ParamValue>) -> (r: Note)
    ensures
        r@ == applied(note@, attr_entries(*params)),
{
    let entries = attrs_entries(params);
    assert(ref_entries_view(entries@) =~= attr_entries(*params));
    apply_ref(&note, &entries)
}

/// Clamp a pitch moved by `offset` semitones into 0..=127.
pub open spec fn shifted(midi: u8, offset: i8) -> u8 {
    let p = midi as int + offset as int;
    if p < 0 { 0 } else if p > 127 { 127 } else { p as u8 }
}

/// `transpose_note` in the model, for a non-zero offset: pitched atoms move
/// (clamped), compositions transpose every child, the rest is unchanged.
pub open spec fn transposed(n: NoteV, offset: i8) -> NoteV
    decreases n,
{
    match n {
        NoteV::Atom { midi, duration, parameters } =>
            NoteV::Atom { midi: shifted(midi, offset), duration, parameters },
        NoteV::AtomImplicitDuration { midi, parameters } =>
            NoteV::AtomImplicitDuration { midi: shifted(midi, offset), parameters },
        NoteV::Serial(s) => NoteV::Serial(Seq::new(s.len(), |i: int| if 0 <= i < s.len() { transposed(s[i], offset) } else { arbitrary() })),
        NoteV::Parallel(s) => NoteV::Parallel(Seq::new(s.len(), |i: int| if 0 <= i < s.len() { transposed(s[i], offset) } else { arbitrary() })),
        NoteV::ParallelMin(s) => NoteV::ParallelMin(Seq::new(s.len(), |i: int| if 0 <= i < s.len() { transposed(s[i], offset) } else { arbitrary() })),
        NoteV::ForkSequence(s) => NoteV::ForkSequence(Seq::new(s.len(), |i: int| if 0 <= i < s.len() { transposed(s[i], offset) } else { arbitrary() })),
        NoteV::ForkParallel(s) => NoteV::ForkParallel(Seq::new(s.len(), |i: int| if 0 <= i < s.len() { transposed(s[i], offset) } else { arbitrary() })),
        _ => n,
    }
}

/// The transposition of `n` by `offset`; a zero offset leaves it as is.
pub open spec fn transpose_spec(n: NoteV, offset: i8) -> NoteV {
    if offset == 0 { n } else { transposed(n, offset) }
}

fn shift_pitch(midi: u8, offset: i8) -> (r: u8)
    ensures
        r == shifted(midi, offset),
{
    let p: i16 = midi as i16 + offset as i16;
    if p < 0 { 0 } else if p > 127 { 127 } else { p as u8 }
}

fn transpose_notes(v: &Vec<Note>, offset: i8) -> (r: Vec<Note>)
    requires
        offset != 0,
    ensures
        notes_view(r@) == Seq::new(v@.len(), |i: int| transposed(v@[i].view(), offset)),
    decreases v,
{
    let mut r: Vec<Note> = Vec::new();
    let n = v.len();
    for i in 0..n
        invariant
            n == v@.len(),
            offset != 0,
            r@.len() == i,
            forall|j: int| 0 <= j < i ==> (#[trigger] r@[j]).view() == transposed(v@[j].view(), offset),
    {
        proof {
            assert(decreases_to!(v => v@));
        }
        r.push(transpose_note(&v[i], offset));
    }
    assert(notes_view(r@) =~= Seq::new(v@.len(), |i: int| transposed(v@[i].view(), offset)));
    r
}

/// Transpose by `offset` semitones: atoms and implicit-duration atoms move
/// (clamped to 0..=127), compositions transpose their children, other
/// notes (previous-pitch notes included) are unchanged. A zero offset
/// returns the note as is.
pub fn transpose_note(note: &Note, offset: i8) -> (r: Note)
    ensures
        r@ == transpose_spec(note@, offset),
        offset != 0 ==> crate::laws::atoms_moved(crate::laws::atoms_of(note@), crate::laws::atoms_of(r@), offset),
    decreases note,
{
    proof {
        crate::laws::law_transpose_moves_every_atom(note@, offset);
    }
    if offset == 0 {
        return note.duplicate();
    }
    match note {
        Note::Atom { midi, duration, parameters } =>
            Note::Atom { midi: shift_pitch(*midi, offset), duration: *duration, parameters: copy_params(parameters) },
        Note::AtomImplicitDuration { midi, parameters } =>
            Note::AtomImplicitDuration { midi: shift_pitch(*midi, offset), parameters: copy_params(parameters) },
        Note::Serial(v) => {
            let r = transpose_notes(v, offset);
            proof { assert(notes_view(r@) =~= transposed(note@, offset)->Serial_0); }
            Note::Serial(r)
        },
        Note::Parallel(v) => {
            let r = transpose_notes(v, offset);
            proof { assert(notes_view(r@) =~= transposed(note@, offset)->Parallel_0); }
            Note::Parallel(r)
        },
        Note::ParallelMin(v) => {
            let r = transpose_notes(v, offset);
            proof { assert(notes_view(r@) =~= transposed(note@, offset)->ParallelMin_0); }
            Note::ParallelMin(r)
        },
        Note::ForkSequence(v) => {
            let r = transpose_notes(v, offset);
            proof { assert(notes_view(r@) =~= transposed(note@, offset)->ForkSequence_0); }
            Note::ForkSequence(r)
        },
        Note::ForkParallel(v) => {
            let r = transpose_notes(v, offset);
            proof { assert(notes_view(r@) =~= transposed(note@, offset)->ForkParallel_0); }
            Note::ForkParallel(r)
        },
        _ => note.duplicate(),
    }
}

/// Applying no attributes leaves a note unchanged.
pub proof fn lemma_applied_empty(n: NoteV)
    ensures
        applied(n, Seq::empty()) == n,
    decreases n,
{
    match n {
        NoteV::Serial(s) => {
            assert forall|i: int| 0 <= i < s.len() implies applied(s[i], Seq::<(Seq<char>, ParamValueV)>::empty()) == s[i] by { lemma_applied_empty(s[i]); }
            assert(applied(n, Seq::<(Seq<char>, ParamValueV)>::empty())->Serial_0 =~= s);
        },
        NoteV::Parallel(s) => {
            assert forall|i: int| 0 <= i < s.len() implies applied(s[i], Seq::<(Seq<char>, ParamValueV)>::empty()) == s[i] by { lemma_applied_empty(s[i]); }
            assert(applied(n, Seq::<(Seq<char>, ParamValueV)>::empty())->Parallel_0 =~= s);
        },
        NoteV::ParallelMin(s) => {
            assert forall|i: int| 0 <= i < s.len() implies applied(s[i], Seq::<(Seq<char>, ParamValueV)>::empty()) == s[i] by { lemma_applied_empty(s[i]); }
            assert(applied(n, Seq::<(Seq<char>, ParamValueV)>::empty())->ParallelMin_0 =~= s);
        },
        NoteV::ForkSequence(s) => {
            assert forall|i: int| 0 <= i < s.len() implies applied(s[i], Seq::<(Seq<char>, ParamValueV)>::empty()) == s[i] by { lemma_applied_empty(s[i]); }
            assert(applied(n, Seq::<(Seq<char>, ParamValueV)>::empty())->ForkSequence_0 =~= s);
        },
        NoteV::ForkParallel(s) => {
            assert forall|i: int| 0 <= i < s.len() implies applied(s[i], Seq::<(Seq<char>, ParamValueV)>::empty()) == s[i] by { lemma_applied_empty(s[i]); }
            assert(applied(n, Seq::<(Seq<char>, ParamValueV)>::empty())->ForkParallel_0 =~= s);
        },
        _ => {},
    }
}

} // verus!
