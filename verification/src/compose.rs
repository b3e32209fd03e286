//! Composition: `ser`, `par`, `parmin`, `forkseq` and `forkpar` resolve a
//! list of items (implicit durations, previous pitches, ties, repeats and
//! block attributes) into a serial or parallel note.

use vstd::prelude::*;
use linked_hash_map::LinkedHashMap;
use crate::note::{Note, NoteV, ParamValue, ParamsV, notes_view, copy_params, copy_string};
use crate::attrs::{attr_entries, attrs_new, attrs_insert, insert_entry};
use crate::edit::{applied, apply_parameters, lemma_applied_empty};

verus! {

/// Pitch taken by a previous-pitch note when no pitch came before (C4).
pub const DEFAULT_PITCH: u8 = 60u8;

/// Sum of tick counts, saturating at `u64::MAX`.
pub open spec fn sat_add(a: u64, b: u64) -> u64 {
    if a + b > u64::MAX { u64::MAX } else { (a + b) as u64 }
}

/// The duration of an atom or rest.
pub open spec fn base_duration(n: NoteV) -> Option<u64> {
    match n {
        NoteV::Atom { duration, .. } => Some(duration),
        NoteV::Rest { duration, .. } => Some(duration),
        _ => None,
    }
}

/// Pitch remembered after `n`: an atom's pitch, otherwise `prev`.
pub open spec fn pitch_after(n: NoteV, prev: Option<u8>) -> Option<u8> {
    match n {
        NoteV::Atom { midi, .. } => Some(midi),
        _ => prev,
    }
}

/// An implicit-duration atom takes the last duration; a previous-pitch
/// note takes the last pitch (C4 when none) and its own duration or the
/// last one. `None` where no duration is available.
pub open spec fn resolve_implicit(item: NoteV, last_duration: Option<u64>, last_pitch: Option<u8>) -> Option<NoteV> {
    match item {
        NoteV::AtomImplicitDuration { midi, parameters } => match last_duration {
            Some(d) => Some(NoteV::Atom { midi, duration: d, parameters }),
            None => None,
        },
        NoteV::PreviousPitch { optional_duration, parameters } => {
            let pitch = match last_pitch { Some(p) => p, None => DEFAULT_PITCH };
            let d = match optional_duration { Some(d) => Some(d), None => last_duration };
            match d {
                Some(d) => Some(NoteV::Atom { midi: pitch, duration: d, parameters }),
                None => None,
            }
        },
        _ => Some(item),
    }
}

/// A tie lengthens an atom or a rest.
pub open spec fn extend_tie(n: NoteV, tie: u64) -> Option<NoteV> {
    match n {
        NoteV::Atom { midi, duration, parameters } =>
            Some(NoteV::Atom { midi, duration: sat_add(duration, tie), parameters }),
        NoteV::Rest { duration, parameters } =>
            Some(NoteV::Rest { duration: sat_add(duration, tie), parameters }),
        _ => None,
    }
}

/// What `repeat` may follow: atoms, rests, serial and parallel blocks, and
/// in a forked sequence also forks and min-parallel blocks.
pub open spec fn repeatable(n: NoteV, fork: bool) -> bool {
    match n {
        NoteV::Atom { .. } | NoteV::Rest { .. } | NoteV::Serial(_) | NoteV::Parallel(_) => true,
        NoteV::ForkSequence(_) | NoteV::ForkParallel(_) | NoteV::ParallelMin(_) => fork,
        _ => false,
    }
}

// ---------------------------------------------------------------------------
// Sequences
// ---------------------------------------------------------------------------

/// Resolution state of a sequence.
pub ghost struct SerState {
    pub resolved: Seq<NoteV>,
    pub attrs: ParamsV,
    pub last_duration: Option<u64>,
    pub last_pitch: Option<u8>,
}

pub open spec fn ser_init() -> SerState {
    SerState { resolved: Seq::empty(), attrs: Seq::empty(), last_duration: None, last_pitch: None }
}

/// Push a resolved, attributed item: setters also become block attributes,
/// atoms and rests update the remembered duration and pitch, and a bare
/// envelope is refused.
pub open spec fn ser_push(st: SerState, n: NoteV) -> Option<SerState> {
    match n {
        NoteV::Envelope(_) => None,
        NoteV::ParamSetter { key, value } =>
            Some(SerState { resolved: st.resolved.push(n), attrs: insert_entry(st.attrs, key, value), ..st }),
        NoteV::Atom { midi, duration, .. } =>
            Some(SerState { resolved: st.resolved.push(n), last_duration: Some(duration), last_pitch: Some(midi), ..st }),
        NoteV::Rest { duration, .. } =>
            Some(SerState { resolved: st.resolved.push(n), last_duration: Some(duration), ..st }),
        _ => Some(SerState { resolved: st.resolved.push(n), ..st }),
    }
}

/// One item of a sequence. `None` where the item cannot be resolved in
/// this state (the sequence is refused).
pub open spec fn ser_step(st: SerState, item: NoteV, fork: bool) -> Option<SerState> {
    match item {
        NoteV::DurationTie { duration: tie } =>
            if st.resolved.len() == 0 {
                None
            } else {
                match extend_tie(st.resolved.last(), tie) {
                    Some(n) => Some(SerState {
                        resolved: st.resolved.drop_last().push(n),
                        last_duration: base_duration(n),
                        last_pitch: pitch_after(n, st.last_pitch),
                        ..st
                    }),
                    None => None,
                }
            },
        NoteV::RepeatMarker(count) =>
            if count == 0 {
                Some(st)
            } else if st.resolved.len() == 0 || !repeatable(st.resolved.last(), fork) {
                None
            } else {
                let last = st.resolved.last();
                let r = applied(last, st.attrs);
                Some(SerState {
                    resolved: st.resolved + Seq::new(count as nat, |i: int| r),
                    last_duration: match base_duration(last) { Some(d) => Some(d), None => st.last_duration },
                    last_pitch: pitch_after(last, st.last_pitch),
                    ..st
                })
            },
        _ => match resolve_implicit(item, st.last_duration, st.last_pitch) {
            Some(res) => ser_push(st, applied(res, st.attrs)),
            None => None,
        },
    }
}

/// The state after every item of a sequence.
pub open spec fn ser_fold(items: Seq<NoteV>, fork: bool) -> Option<SerState>
    decreases items.len(),
{
    if items.len() == 0 {
        Some(ser_init())
    } else {
        match ser_fold(items.drop_last(), fork) {
            Some(st) => ser_step(st, items.last(), fork),
            None => None,
        }
    }
}

/// The sequence resolves: every item can be resolved in turn. A sequence
/// that does not is refused (it panics).
pub open spec fn ser_defined(items: Seq<NoteV>, fork: bool) -> bool {
    ser_fold(items, fork) is Some
}

/// The resolved items of an accepted sequence.
pub open spec fn ser_items(items: Seq<NoteV>, fork: bool) -> Seq<NoteV> {
    ser_fold(items, fork)->Some_0.resolved
}

pub proof fn lemma_ser_prefix(items: Seq<NoteV>, fork: bool, i: int)
    requires
        ser_defined(items, fork),
        0 <= i <= items.len(),
    ensures
        ser_fold(items.take(i), fork) is Some,
    decreases items.len() - i,
{
    if i < items.len() {
        lemma_ser_prefix(items, fork, i + 1);
        assert(items.take(i + 1).drop_last() =~= items.take(i));
    } else {
        assert(items.take(i) =~= items);
    }
}

struct SerExec {
    resolved: Vec<Note>,
    attrs: LinkedHashMap<String, ParamValue>,
    last_duration: Option<u64>,
    last_pitch: Option<u8>,
}

impl SerExec {
    spec fn model(&self) -> SerState {
        SerState {
            resolved: notes_view(self.resolved@),
            attrs: attr_entries(self.attrs),
            last_duration: self.last_duration,
            last_pitch: self.last_pitch,
        }
    }
}

fn duration_of(n: &Note) -> (r: Option<u64>)
    ensures
        r == base_duration(n@),
{
    match n {
        Note::Atom { duration, .. } => Some(*duration),
        Note::Rest { duration, .. } => Some(*duration),
        _ => None,
    }
}

/// Resolve an implicit duration or previous pitch.
fn resolve_item(item: &Note, last_duration: Option<u64>, last_pitch: Option<u8>) -> (r: Note)
    requires
        resolve_implicit(item@, last_duration, last_pitch) is Some,
    ensures
        Some(r@) == resolve_implicit(item@, last_duration, last_pitch),
{
    match item {
        Note::AtomImplicitDuration { midi, parameters } => {
            let d = match last_duration { Some(d) => d, None => { proof { assert(false); } 0 } };
            Note::Atom { midi: *midi, duration: d, parameters: copy_params(parameters) }
        },
        Note::PreviousPitch { optional_duration, parameters } => {
            let pitch = match last_pitch { Some(p) => p, None => DEFAULT_PITCH };
            let d = match optional_duration {
                Some(d) => *d,
                None => match last_duration { Some(d) => d, None => { proof { assert(false); } 0 } },
            };
            Note::Atom { midi: pitch, duration: d, parameters: copy_params(parameters) }
        },
        _ => item.duplicate(),
    }
}

/// Lengthen an atom or rest by a tie.
fn tie_onto(n: Note, tie: u64) -> (r: Note)
    requires
        extend_tie(n@, tie) is Some,
    ensures
        Some(r@) == extend_tie(n@, tie),
{
    match n {
        Note::Atom { midi, duration, parameters } =>
            Note::Atom { midi, duration: duration.saturating_add(tie), parameters },
        Note::Rest { duration, parameters } =>
            Note::Rest { duration: duration.saturating_add(tie), parameters },
        other => other,
    }
}

fn ser_push_exec(st: &mut SerExec, n: Note)
    requires
        ser_push(old(st).model(), n@) is Some,
    ensures
        Some(final(st).model()) == ser_push(old(st).model(), n@),
{
    let ghost nv = n@;
    match &n {
        Note::ParamSetter { key, value } => {
            attrs_insert(&mut st.attrs, copy_string(key), value.duplicate());
        },
        Note::Atom { midi, duration, .. } => {
            st.last_duration = Some(*duration);
            st.last_pitch = Some(*midi);
        },
        Note::Rest { duration, .. } => {
            st.last_duration = Some(*duration);
        },
        _ => {},
    }
    st.resolved.push(n);
    assert(notes_view(st.resolved@) =~= notes_view(old(st).resolved@).push(nv));
}

fn ser_step_exec(st: &mut SerExec, item: &Note, fork: bool)
    requires
        ser_step(old(st).model(), item@, fork) is Some,
    ensures
        ser_step(old(st).model(), item@, fork) == Some(final(st).model()),
{
    let ghost m0 = st.model();
    match item {
        Note::DurationTie { duration: tie } => {
            let last = st.resolved.pop();
            match last {
                Some(n) => {
                    assert(n@ == m0.resolved.last());
                    let t = tie_onto(n, *tie);
                    st.last_duration = duration_of(&t);
                    match &t {
                        Note::Atom { midi, .. } => { st.last_pitch = Some(*midi); },
                        _ => {},
                    }
                    let ghost tv = t@;
                    st.resolved.push(t);
                    assert(notes_view(st.resolved@) =~= m0.resolved.drop_last().push(tv));
                },
                None => { proof { assert(false); } },
            }
        },
        Note::RepeatMarker(count) => {
            if *count == 0 {
                return;
            }
            let last = match st.resolved.pop() {
                Some(n) => n,
                None => { proof { assert(false); } return; },
            };
            assert(last@ == m0.resolved.last());
            assert(notes_view(st.resolved@) =~= m0.resolved.drop_last());
            let keep = last.duplicate();
            st.resolved.push(keep);
            assert(notes_view(st.resolved@) =~= m0.resolved);
            match duration_of(&last) {
                Some(d) => { st.last_duration = Some(d); },
                None => {},
            }
            match &last {
                Note::Atom { midi, .. } => { st.last_pitch = Some(*midi); },
                _ => {},
            }
            let r = apply_parameters(last, &st.attrs);
            let ghost rv = r@;
            let ghost base = notes_view(st.resolved@);
            let ghost ld = st.last_duration;
            let ghost lp = st.last_pitch;
            let ghost at = attr_entries(st.attrs);
            assert(rv == applied(m0.resolved.last(), m0.attrs));
            let mut k: usize = 0;
            while k < *count
                invariant
                    k <= *count,
                    r@ == rv,
                    notes_view(st.resolved@) == base + Seq::new(k as nat, |i: int| rv),
                    attr_entries(st.attrs) == at,
                    st.last_duration == ld,
                    st.last_pitch == lp,
                decreases *count - k,
            {
                let ghost prev = notes_view(st.resolved@);
                let copy = r.duplicate();
                st.resolved.push(copy);
                assert(notes_view(st.resolved@) =~= prev.push(rv));
                assert(notes_view(st.resolved@) =~= base + Seq::new((k + 1) as nat, |i: int| rv));
                k = k + 1;
            }
        },
        _ => {
            let res = resolve_item(item, st.last_duration, st.last_pitch);
            let n = apply_parameters(res, &st.attrs);
            ser_push_exec(st, n);
        },
    }
}

/// Resolve a sequence, as `ser` and `forkseq` do.
fn resolve_serial(items: &Vec<Note>, fork: bool) -> (r: Vec<Note>)
    requires
        ser_defined(notes_view(items@), fork),
    ensures
        notes_view(r@) == ser_items(notes_view(items@), fork),
{
    let ghost iv = notes_view(items@);
    let mut st = SerExec { resolved: Vec::new(), attrs: attrs_new(), last_duration: None, last_pitch: None };
    assert(notes_view(st.resolved@) =~= Seq::<NoteV>::empty());
    assert(iv.take(0) =~= Seq::<NoteV>::empty());
    let n = items.len();
    for i in 0..n
        invariant
            n == items@.len(),
            iv == notes_view(items@),
            ser_defined(iv, fork),
            ser_fold(iv.take(i as int), fork) == Some(st.model()),
    {
        proof {
            lemma_ser_prefix(iv, fork, i + 1);
            assert(iv.take(i + 1).drop_last() =~= iv.take(i as int));
            assert(iv.take(i + 1).last() == items@[i as int]@);
        }
        ser_step_exec(&mut st, &items[i], fork);
    }
    assert(iv.take(n as int) =~= iv);
    st.resolved
}

/// Sequential composition: resolves implicit durations and previous
/// pitches, merges ties into the preceding atom or rest, expands
/// `repeat` markers, applies the block's attributes (set by parameter
/// setters, which stay in the sequence) to the following items.
pub fn ser(items: Vec<Note>) -> (r: Note)
    requires
        ser_defined(notes_view(items@), false),
    ensures
        r@ == NoteV::Serial(ser_items(notes_view(items@), false)),
{
    Note::Serial(resolve_serial(&items, false))
}

/// Whether `item` can be resolved after the items so far.
fn ser_step_ok(st: &SerExec, item: &Note, fork: bool) -> (r: bool)
    ensures
        r == ser_step(st.model(), item@, fork) is Some,
{
    let n = st.resolved.len();
    match item {
        Note::DurationTie { .. } => {
            if n == 0 {
                return false;
            }
            match &st.resolved[n - 1] {
                Note::Atom { .. } | Note::Rest { .. } => true,
                _ => false,
            }
        },
        Note::RepeatMarker(count) => {
            if *count == 0 {
                return true;
            }
            if n == 0 {
                return false;
            }
            match &st.resolved[n - 1] {
                Note::Atom { .. } | Note::Rest { .. } | Note::Serial(_) | Note::Parallel(_) => true,
                Note::ForkSequence(_) | Note::ForkParallel(_) | Note::ParallelMin(_) => fork,
                _ => false,
            }
        },
        Note::AtomImplicitDuration { .. } => st.last_duration.is_some(),
        Note::PreviousPitch { optional_duration, .. } => optional_duration.is_some() || st.last_duration.is_some(),
        Note::Envelope(_) => false,
        _ => true,
    }
}

/// The items resolved in sequence, where they resolve: `None` exactly when
/// they do not.
fn try_resolve_serial(items: Vec<Note>, fork: bool) -> (r: Option<Vec<Note>>)
    ensures
        match r {
            Some(v) => ser_defined(notes_view(items@), fork) && notes_view(v@) == ser_items(notes_view(items@), fork),
            None => !ser_defined(notes_view(items@), fork),
        },
{
    let ghost iv = notes_view(items@);
    let mut st = SerExec { resolved: Vec::new(), attrs: attrs_new(), last_duration: None, last_pitch: None };
    assert(notes_view(st.resolved@) =~= Seq::<NoteV>::empty());
    assert(iv.take(0) =~= Seq::<NoteV>::empty());
    let n = items.len();
    for i in 0..n
        invariant
            n == items@.len(),
            iv == notes_view(items@),
            ser_fold(iv.take(i as int), fork) == Some(st.model()),
    {
        proof {
            assert(iv.take(i + 1).drop_last() =~= iv.take(i as int));
            assert(iv.take(i + 1).last() == items@[i as int]@);
        }
        if !ser_step_ok(&st, &items[i], fork) {
            proof {
                lemma_ser_undefined(iv, fork, i + 1);
            }
            return None;
        }
        ser_step_exec(&mut st, &items[i], fork);
    }
    assert(iv.take(n as int) =~= iv);
    Some(st.resolved)
}

/// Sequential composition where the items may not resolve: `None` exactly
/// when `ser` would refuse them.
pub fn try_ser(items: Vec<Note>) -> (r: Option<Note>)
    ensures
        match r {
            Some(n) => ser_defined(notes_view(items@), false) && n@ == NoteV::Serial(ser_items(notes_view(items@), false)),
            None => !ser_defined(notes_view(items@), false),
        },
{
    match try_resolve_serial(items, false) {
        Some(v) => Some(Note::Serial(v)),
        None => None,
    }
}

/// A forked sequence where the items may not resolve: `None` exactly when
/// `forkseq` would refuse them.
pub fn try_forkseq(items: Vec<Note>) -> (r: Option<Note>)
    ensures
        match r {
            Some(n) => ser_defined(notes_view(items@), true) && n@ == NoteV::ForkSequence(ser_items(notes_view(items@), true)),
            None => !ser_defined(notes_view(items@), true),
        },
{
    match try_resolve_serial(items, true) {
        Some(v) => Some(Note::ForkSequence(v)),
        None => None,
    }
}

proof fn lemma_ser_undefined(items: Seq<NoteV>, fork: bool, i: int)
    requires
        0 <= i <= items.len(),
        ser_fold(items.take(i), fork) is None,
    ensures
        !ser_defined(items, fork),
{
    if ser_defined(items, fork) {
        lemma_ser_prefix(items, fork, i);
    }
}

/// A forked sequence: resolved like `ser` (forks and min-parallel blocks
/// may also be repeated), then played without advancing the outer time.
pub fn forkseq(items: Vec<Note>) -> (r: Note)
    requires
        ser_defined(notes_view(items@), true),
    ensures
        r@ == NoteV::ForkSequence(ser_items(notes_view(items@), true)),
{
    Note::ForkSequence(resolve_serial(&items, true))
}

/// One lane of a bar: the same resolution as `ser`.
pub fn track(items: Vec<Note>) -> (r: Note)
    requires
        ser_defined(notes_view(items@), false),
    ensures
        r@ == NoteV::Serial(ser_items(notes_view(items@), false)),
{
    ser(items)
}

// ---------------------------------------------------------------------------
// Parallel blocks
// ---------------------------------------------------------------------------

/// Resolution state of a parallel block. `tie_ready` holds while the last
/// item is an atom or rest that a following tie may lengthen.
pub ghost struct ParState {
    pub items: Seq<NoteV>,
    pub attrs: ParamsV,
    pub last_duration: Option<u64>,
    pub last_pitch: Option<u8>,
    pub tie_ready: bool,
}

pub open spec fn par_init() -> ParState {
    ParState { items: Seq::empty(), attrs: Seq::empty(), last_duration: None, last_pitch: None, tie_ready: false }
}

/// Push a resolved, attributed item of a parallel block: setters only
/// become block attributes, atoms and rests may take a tie, a bare
/// envelope is refused.
pub open spec fn par_push(st: ParState, n: NoteV) -> Option<ParState> {
    match n {
        NoteV::Envelope(_) => None,
        NoteV::ParamSetter { key, value } =>
            Some(ParState { attrs: insert_entry(st.attrs, key, value), ..st }),
        NoteV::Atom { midi, duration, .. } =>
            Some(ParState { items: st.items.push(n), last_duration: Some(duration), last_pitch: Some(midi), tie_ready: true, ..st }),
        NoteV::Rest { duration, .. } =>
            Some(ParState { items: st.items.push(n), last_duration: Some(duration), tie_ready: true, ..st }),
        _ => Some(ParState { items: st.items.push(n), tie_ready: false, ..st }),
    }
}

/// One item of a parallel block. `None` where the item cannot be resolved
/// in this state (the block is refused).
pub open spec fn par_step(st: ParState, item: NoteV) -> Option<ParState> {
    match item {
        NoteV::DurationTie { duration: tie } =>
            if !st.tie_ready {
                None
            } else if st.items.len() == 0 {
                Some(st)
            } else {
                match extend_tie(st.items.last(), tie) {
                    Some(n) => Some(ParState {
                        items: st.items.drop_last().push(n),
                        last_duration: base_duration(n),
                        last_pitch: pitch_after(n, st.last_pitch),
                        ..st
                    }),
                    None => Some(st),
                }
            },
        _ => match resolve_implicit(item, st.last_duration, st.last_pitch) {
            Some(res) => par_push(st, applied(res, st.attrs)),
            None => None,
        },
    }
}

pub open spec fn par_fold(items: Seq<NoteV>) -> Option<ParState>
    decreases items.len(),
{
    if items.len() == 0 {
        Some(par_init())
    } else {
        match par_fold(items.drop_last()) {
            Some(st) => par_step(st, items.last()),
            None => None,
        }
    }
}

/// The parallel block resolves: every item can be resolved in turn. A
/// block that does not is refused (it panics).
pub open spec fn par_defined(items: Seq<NoteV>) -> bool {
    par_fold(items) is Some
}

/// The items of an accepted parallel block.
pub open spec fn par_items(items: Seq<NoteV>) -> Seq<NoteV> {
    par_fold(items)->Some_0.items
}

pub proof fn lemma_par_prefix(items: Seq<NoteV>, i: int)
    requires
        par_defined(items),
        0 <= i <= items.len(),
    ensures
        par_fold(items.take(i)) is Some,
    decreases items.len() - i,
{
    if i < items.len() {
        lemma_par_prefix(items, i + 1);
        assert(items.take(i + 1).drop_last() =~= items.take(i));
    } else {
        assert(items.take(i) =~= items);
    }
}

pub open spec fn par_inv(st: ParState) -> bool {
    st.tie_ready ==> st.items.len() > 0 && extend_tie(st.items.last(), 0) is Some
}

pub proof fn lemma_par_fold_inv(items: Seq<NoteV>)
    requires
        par_defined(items),
    ensures
        par_inv(par_fold(items)->Some_0),
    decreases items.len(),
{
    if items.len() > 0 {
        lemma_par_fold_inv(items.drop_last());
    }
}

struct ParExec {
    items: Vec<Note>,
    attrs: LinkedHashMap<String, ParamValue>,
    last_duration: Option<u64>,
    last_pitch: Option<u8>,
    tie_ready: bool,
}

impl ParExec {
    spec fn model(&self) -> ParState {
        ParState {
            items: notes_view(self.items@),
            attrs: attr_entries(self.attrs),
            last_duration: self.last_duration,
            last_pitch: self.last_pitch,
            tie_ready: self.tie_ready,
        }
    }
}

fn par_push_exec(st: &mut ParExec, n: Note)
    requires
        par_push(old(st).model(), n@) is Some,
    ensures
        Some(final(st).model()) == par_push(old(st).model(), n@),
{
    let ghost nv = n@;
    match &n {
        Note::ParamSetter { key, value } => {
            attrs_insert(&mut st.attrs, copy_string(key), value.duplicate());
            return;
        },
        Note::Atom { midi, duration, .. } => {
            st.last_duration = Some(*duration);
            st.last_pitch = Some(*midi);
            st.tie_ready = true;
        },
        Note::Rest { duration, .. } => {
            st.last_duration = Some(*duration);
            st.tie_ready = true;
        },
        _ => {
            st.tie_ready = false;
        },
    }
    st.items.push(n);
    assert(notes_view(st.items@) =~= notes_view(old(st).items@).push(nv));
}

fn par_step_exec(st: &mut ParExec, item: &Note)
    requires
        par_step(old(st).model(), item@) is Some,
        par_inv(old(st).model()),
    ensures
        par_step(old(st).model(), item@) == Some(final(st).model()),
{
    let ghost m0 = st.model();
    match item {
        Note::DurationTie { duration: tie } => {
            if !st.tie_ready {
                proof { assert(false); }
                return;
            }
            let last = st.items.pop();
            match last {
                Some(n) => {
                    assert(n@ == m0.items.last());
                    let t = tie_onto(n, *tie);
                    st.last_duration = duration_of(&t);
                    match &t {
                        Note::Atom { midi, .. } => { st.last_pitch = Some(*midi); },
                        _ => {},
                    }
                    let ghost tv = t@;
                    st.items.push(t);
                    assert(notes_view(st.items@) =~= m0.items.drop_last().push(tv));
                },
                None => { proof { assert(false); } },
            }
        },
        _ => {
            let res = resolve_item(item, st.last_duration, st.last_pitch);
            let n = apply_parameters(res, &st.attrs);
            par_push_exec(st, n);
        },
    }
}

/// Resolve a parallel block, as `par`, `parmin` and `forkpar` do.
fn resolve_parallel(items: &Vec<Note>) -> (r: Vec<Note>)
    requires
        par_defined(notes_view(items@)),
    ensures
        notes_view(r@) == par_items(notes_view(items@)),
{
    let ghost iv = notes_view(items@);
    let mut st = ParExec { items: Vec::new(), attrs: attrs_new(), last_duration: None, last_pitch: None, tie_ready: false };
    assert(notes_view(st.items@) =~= Seq::<NoteV>::empty());
    assert(iv.take(0) =~= Seq::<NoteV>::empty());
    let n = items.len();
    for i in 0..n
        invariant
            n == items@.len(),
            iv == notes_view(items@),
            par_defined(iv),
            par_fold(iv.take(i as int)) == Some(st.model()),
    {
        proof {
            lemma_par_prefix(iv, i + 1);
            lemma_par_prefix(iv, i as int);
            lemma_par_fold_inv(iv.take(i as int));
            assert(iv.take(i + 1).drop_last() =~= iv.take(i as int));
            assert(iv.take(i + 1).last() == items@[i as int]@);
        }
        par_step_exec(&mut st, &items[i]);
    }
    assert(iv.take(n as int) =~= iv);
    st.items
}

/// Parallel composition (lasting as long as its longest item): implicit
/// durations and previous pitches resolve against the preceding item, a
/// tie lengthens the preceding atom or rest, setters become attributes of
/// the following items without being kept.
pub fn par(items: Vec<Note>) -> (r: Note)
    requires
        par_defined(notes_view(items@)),
    ensures
        r@ == NoteV::Parallel(par_items(notes_view(items@))),
{
    Note::Parallel(resolve_parallel(&items))
}

/// Whether `item` can be resolved after the items so far.
fn par_step_ok(st: &ParExec, item: &Note) -> (r: bool)
    ensures
        r == par_step(st.model(), item@) is Some,
{
    match item {
        Note::DurationTie { .. } => st.tie_ready,
        Note::AtomImplicitDuration { .. } => st.last_duration.is_some(),
        Note::PreviousPitch { optional_duration, .. } => optional_duration.is_some() || st.last_duration.is_some(),
        Note::Envelope(_) => false,
        _ => true,
    }
}

/// Parallel composition where the items may not resolve: `None` exactly
/// when `par` would refuse them.
pub fn try_par(items: Vec<Note>) -> (r: Option<Note>)
    ensures
        match r {
            Some(n) => par_defined(notes_view(items@)) && n@ == NoteV::Parallel(par_items(notes_view(items@))),
            None => !par_defined(notes_view(items@)),
        },
{
    let ghost iv = notes_view(items@);
    let mut st = ParExec { items: Vec::new(), attrs: attrs_new(), last_duration: None, last_pitch: None, tie_ready: false };
    assert(notes_view(st.items@) =~= Seq::<NoteV>::empty());
    assert(iv.take(0) =~= Seq::<NoteV>::empty());
    let n = items.len();
    for i in 0..n
        invariant
            n == items@.len(),
            iv == notes_view(items@),
            par_fold(iv.take(i as int)) == Some(st.model()),
    {
        proof {
            lemma_par_fold_inv(iv.take(i as int));
            assert(iv.take(i + 1).drop_last() =~= iv.take(i as int));
            assert(iv.take(i + 1).last() == items@[i as int]@);
        }
        if !par_step_ok(&st, &items[i]) {
            proof {
                if par_defined(iv) {
                    lemma_par_prefix(iv, i + 1);
                }
            }
            return None;
        }
        par_step_exec(&mut st, &items[i]);
    }
    assert(iv.take(n as int) =~= iv);
    Some(Note::Parallel(st.items))
}

/// Parallel composition lasting as long as its shortest item; resolved as
/// `par`.
pub fn parmin(items: Vec<Note>) -> (r: Note)
    requires
        par_defined(notes_view(items@)),
    ensures
        r@ == NoteV::ParallelMin(par_items(notes_view(items@))),
{
    Note::ParallelMin(resolve_parallel(&items))
}

/// A forked parallel block: resolved as `par`, played without advancing
/// the outer time.
pub fn forkpar(items: Vec<Note>) -> (r: Note)
    requires
        par_defined(notes_view(items@)),
    ensures
        r@ == NoteV::ForkParallel(par_items(notes_view(items@))),
{
    Note::ForkParallel(resolve_parallel(&items))
}

/// A bar of parallel lanes: the same resolution as `par`.
pub fn bar(items: Vec<Note>) -> (r: Note)
    requires
        par_defined(notes_view(items@)),
    ensures
        r@ == NoteV::Parallel(par_items(notes_view(items@))),
{
    par(items)
}

/// A parallel block of serial blocks keeps them as they are.
pub proof fn lemma_par_of_serials(voices: Seq<NoteV>)
    requires
        forall|i: int| 0 <= i < voices.len() ==> voices[i] is Serial,
    ensures
        par_fold(voices) == Some(ParState { items: voices, ..par_init() }),
    decreases voices.len(),
{
    if voices.len() > 0 {
        let prefix = voices.drop_last();
        lemma_par_of_serials(prefix);
        lemma_applied_empty(voices.last());
        assert(prefix.push(voices.last()) =~= voices);
    } else {
        assert(voices =~= Seq::<NoteV>::empty());
    }
}

/// A sequence of a bare rest and a serial block keeps both.
pub proof fn lemma_ser_rest_then_block(d: u64, block: NoteV)
    requires
        block is Serial,
    ensures
        ser_defined(seq![NoteV::Rest { duration: d, parameters: Seq::empty() }, block], false),
        ser_items(seq![NoteV::Rest { duration: d, parameters: Seq::empty() }, block], false)
            == seq![NoteV::Rest { duration: d, parameters: Seq::empty() }, block],
{
    let rest = NoteV::Rest { duration: d, parameters: Seq::empty() };
    let items = seq![rest, block];
    lemma_applied_empty(rest);
    lemma_applied_empty(block);
    assert(items.drop_last() =~= seq![rest]);
    assert(seq![rest].drop_last() =~= Seq::<NoteV>::empty());
    assert(Seq::<NoteV>::empty().push(rest) =~= seq![rest]);
    assert(ser_fold(Seq::<NoteV>::empty(), false) == Some(ser_init()));
    assert(ser_fold(seq![rest], false) == Some(SerState { resolved: seq![rest], last_duration: Some(d), ..ser_init() }));
    assert(seq![rest].push(block) =~= items);
}

} // verus!
