//! The note vocabulary: the names of the predefined notes (`c4q`, `fs_1hd`,
//! `rq`, `pe`, `hd`, `p`, …) and the notes they stand for.
//!
//! A pitched name is a letter `a`–`g`, an accidental (`s`, `f`, `ss`, `ff`,
//! `n`, `nn` or none), an octave (`_1` for -1, else `0`–`9`) and a value; a
//! value is a code (`w h q e i t x o`: whole down to 128th) and up to three
//! dots `d`. `r` + value is a rest, `p` (+ value) repeats the previous pitch,
//! and a bare value is a tie.

use vstd::prelude::*;
use crate::note::{Note, NoteV, no_params, TICKS_PER_WHOLE};
use crate::text::chars_of;

verus! {

/// Ticks of an undotted value code.
pub open spec fn code_ticks(c: char) -> Option<u64> {
    if c == 'w' { Some(TICKS_PER_WHOLE) }
    else if c == 'h' { Some((TICKS_PER_WHOLE / 2) as u64) }
    else if c == 'q' { Some((TICKS_PER_WHOLE / 4) as u64) }
    else if c == 'e' { Some((TICKS_PER_WHOLE / 8) as u64) }
    else if c == 'i' { Some((TICKS_PER_WHOLE / 16) as u64) }
    else if c == 't' { Some((TICKS_PER_WHOLE / 32) as u64) }
    else if c == 'x' { Some((TICKS_PER_WHOLE / 64) as u64) }
    else if c == 'o' { Some((TICKS_PER_WHOLE / 128) as u64) }
    else { None }
}

/// A value `base` with 0 to 3 dots: ×1, ×3/2, ×7/4, ×15/8.
pub open spec fn dotted(base: u64, dots: int) -> u64 {
    if dots == 0 { base }
    else if dots == 1 { (base * 3 / 2) as u64 }
    else if dots == 2 { (base * 7 / 4) as u64 }
    else { (base * 15 / 8) as u64 }
}

/// The ticks a value text (code and dots) stands for.
pub open spec fn value_ticks(v: Seq<char>) -> Option<u64> {
    if 1 <= v.len() <= 4 && code_ticks(v[0]) is Some
        && (forall|i: int| 1 <= i < v.len() ==> v[i] == 'd') {
        Some(dotted(code_ticks(v[0])->Some_0, v.len() - 1))
    } else {
        None
    }
}

/// Pitch class of a note letter.
pub open spec fn letter_class(c: char) -> Option<int> {
    if c == 'c' { Some(0int) }
    else if c == 'd' { Some(2int) }
    else if c == 'e' { Some(4int) }
    else if c == 'f' { Some(5int) }
    else if c == 'g' { Some(7int) }
    else if c == 'a' { Some(9int) }
    else if c == 'b' { Some(11int) }
    else { None }
}

/// Semitones of an accidental suffix.
pub open spec fn accidental_shift(a: Seq<char>) -> Option<int> {
    if a.len() == 0 || a == seq!['n'] || a == seq!['n', 'n'] { Some(0int) }
    else if a == seq!['s'] { Some(1int) }
    else if a == seq!['f'] { Some(-1int) }
    else if a == seq!['s', 's'] { Some(2int) }
    else if a == seq!['f', 'f'] { Some(-2int) }
    else { None }
}

/// A character that may belong to an accidental.
pub open spec fn is_acc_char(c: char) -> bool {
    c == 's' || c == 'f' || c == 'n'
}

/// The length of the run of accidental characters that `s` starts with.
pub open spec fn acc_run(s: Seq<char>) -> nat
    decreases s.len(),
{
    if s.len() > 0 && is_acc_char(s[0]) { 1 + acc_run(s.drop_first()) } else { 0 }
}

/// The octave an octave text starts `s` with, and its length.
pub open spec fn octave_prefix(s: Seq<char>) -> Option<(int, int)> {
    if s.len() >= 2 && s[0] == '_' && s[1] == '1' {
        Some((-1int, 2int))
    } else if s.len() >= 1 && '0' <= s[0] <= '9' {
        Some(((s[0] as int) - 48, 1int))
    } else {
        None
    }
}

/// MIDI pitch and ticks of a pitched name.
pub open spec fn pitched(name: Seq<char>) -> Option<(u8, u64)> {
    if name.len() == 0 || letter_class(name[0]) is None {
        None
    } else {
        let k: int = 1 + acc_run(name.drop_first()) as int;
        let acc = name.subrange(1, k);
        let rest = name.skip(k);
        match (accidental_shift(acc), octave_prefix(rest)) {
            (Some(shift), Some((oct, len))) => {
                let midi = (oct + 1) * 12 + letter_class(name[0])->Some_0 + shift;
                match value_ticks(rest.skip(len)) {
                    Some(t) => if 0 <= midi <= 127 { Some((midi as u8, t)) } else { None },
                    None => None,
                }
            },
            _ => None,
        }
    }
}

/// The predefined note a name stands for.
pub open spec fn named_note(name: Seq<char>) -> Option<NoteV> {
    if name == seq!['p'] {
        Some(NoteV::PreviousPitch { optional_duration: None, parameters: Seq::empty() })
    } else if name.len() > 0 && name[0] == 'p' && value_ticks(name.drop_first()) is Some {
        Some(NoteV::PreviousPitch {
            optional_duration: Some(value_ticks(name.drop_first())->Some_0),
            parameters: Seq::empty(),
        })
    } else if name.len() > 0 && name[0] == 'r' && value_ticks(name.drop_first()) is Some {
        Some(NoteV::Rest { duration: value_ticks(name.drop_first())->Some_0, parameters: Seq::empty() })
    } else if value_ticks(name) is Some {
        Some(NoteV::DurationTie { duration: value_ticks(name)->Some_0 })
    } else if pitched(name) is Some {
        Some(NoteV::Atom {
            midi: pitched(name)->Some_0.0,
            duration: pitched(name)->Some_0.1,
            parameters: Seq::empty(),
        })
    } else {
        None
    }
}

fn code_ticks_of(c: char) -> (r: Option<u64>)
    ensures
        r == code_ticks(c),
{
    if c == 'w' { Some(TICKS_PER_WHOLE) }
    else if c == 'h' { Some(TICKS_PER_WHOLE / 2) }
    else if c == 'q' { Some(TICKS_PER_WHOLE / 4) }
    else if c == 'e' { Some(TICKS_PER_WHOLE / 8) }
    else if c == 'i' { Some(TICKS_PER_WHOLE / 16) }
    else if c == 't' { Some(TICKS_PER_WHOLE / 32) }
    else if c == 'x' { Some(TICKS_PER_WHOLE / 64) }
    else if c == 'o' { Some(TICKS_PER_WHOLE / 128) }
    else { None }
}

/// The ticks of the value text `s[from..]`.
fn value_ticks_at(s: &Vec<char>, from: usize) -> (r: Option<u64>)
    requires
        from <= s@.len(),
    ensures
        r == value_ticks(s@.skip(from as int)),
{
    let ghost v = s@.skip(from as int);
    let n = s.len() - from;
    if n < 1 || n > 4 {
        return None;
    }
    let base = match code_ticks_of(s[from]) {
        Some(b) => b,
        None => return None,
    };
    let mut i: usize = from + 1;
    while i < s.len()
        invariant
            from < i <= s@.len(),
            v == s@.skip(from as int),
            forall|j: int| 1 <= j < i - from ==> v[j] == 'd',
        decreases s@.len() - i,
    {
        if s[i] != 'd' {
            assert(v[i - from] != 'd');
            return None;
        }
        i = i + 1;
    }
    assert(base <= TICKS_PER_WHOLE);
    let t = if n == 1 { base } else if n == 2 { base * 3 / 2 } else if n == 3 { base * 7 / 4 } else { base * 15 / 8 };
    Some(t)
}

/// The predefined note that `name` stands for, if any.
pub fn note_named(name: &str) -> (r: Option<Note>)
    ensures
        match r {
            Some(n) => named_note(name@) == Some(n@),
            None => named_note(name@) is None,
        },
{
    let s = chars_of(name);
    let ghost v = s@;
    assert(v == name@);
    if s.len() == 0 {
        proof {
            assert(value_ticks(v) is None);
        }
        return None;
    }
    if s.len() == 1 && s[0] == 'p' {
        assert(v =~= seq!['p']);
        return Some(Note::PreviousPitch { optional_duration: None, parameters: no_params() });
    }
    assert(v.drop_first() =~= v.skip(1));
    if s[0] == 'p' {
        match value_ticks_at(&s, 1) {
            Some(t) => {
                let r = Note::PreviousPitch { optional_duration: Some(t), parameters: no_params() };
                return Some(r);
            },
            None => {},
        }
    }
    if s[0] == 'r' {
        match value_ticks_at(&s, 1) {
            Some(t) => {
                let r = Note::Rest { duration: t, parameters: no_params() };
                return Some(r);
            },
            None => {},
        }
    }
    assert(v.skip(0) =~= v);
    match value_ticks_at(&s, 0) {
        Some(t) => return Some(Note::DurationTie { duration: t }),
        None => {},
    }
    match pitched_at(&s) {
        Some((midi, t)) => {
            let r = Note::Atom { midi, duration: t, parameters: no_params() };
            Some(r)
        },
        None => None,
    }
}

proof fn lemma_acc_run_prefix(s: Seq<char>, k: int)
    requires
        0 <= k <= s.len(),
        forall|j: int| 0 <= j < k ==> is_acc_char(#[trigger] s[j]),
        k == s.len() || !is_acc_char(s[k]),
    ensures
        acc_run(s) == k,
    decreases k,
{
    if k > 0 {
        assert forall|j: int| 0 <= j < k - 1 implies is_acc_char(#[trigger] s.drop_first()[j]) by {
            assert(s.drop_first()[j] == s[j + 1]);
        }
        lemma_acc_run_prefix(s.drop_first(), k - 1);
    }
}

fn letter_class_of(c: char) -> (r: Option<i32>)
    ensures
        match r {
            Some(x) => letter_class(c) == Some(x as int) && 0 <= x <= 11,
            None => letter_class(c) is None,
        },
{
    if c == 'c' { Some(0) }
    else if c == 'd' { Some(2) }
    else if c == 'e' { Some(4) }
    else if c == 'f' { Some(5) }
    else if c == 'g' { Some(7) }
    else if c == 'a' { Some(9) }
    else if c == 'b' { Some(11) }
    else { None }
}

/// MIDI pitch and ticks of a pitched name, executable.
fn pitched_at(s: &Vec<char>) -> (r: Option<(u8, u64)>)
    ensures
        r == pitched(s@),
{
    let ghost v = s@;
    if s.len() == 0 {
        return None;
    }
    let pc = match letter_class_of(s[0]) {
        Some(p) => p,
        None => return None,
    };
    // The accidental: the run of `s`, `f`, `n` after the letter.
    let mut k: usize = 1;
    while k < s.len() && (s[k] == 's' || s[k] == 'f' || s[k] == 'n')
        invariant
            1 <= k <= s@.len(),
            forall|j: int| 1 <= j < k ==> is_acc_char(#[trigger] v[j]),
            v == s@,
        decreases s@.len() - k,
    {
        k = k + 1;
    }
    proof {
        let t = v.drop_first();
        assert forall|j: int| 0 <= j < k - 1 implies is_acc_char(#[trigger] t[j]) by {
            assert(t[j] == v[j + 1]);
        }
        if k < v.len() {
            assert(t[k - 1] == v[k as int]);
        }
        lemma_acc_run_prefix(t, k - 1);
    }
    let ghost acc = v.subrange(1, k as int);
    let shift: i32 = if k == 1 {
        0
    } else if k == 2 && s[1] == 'n' {
        assert(acc =~= seq!['n']);
        0
    } else if k == 3 && s[1] == 'n' && s[2] == 'n' {
        assert(acc =~= seq!['n', 'n']);
        0
    } else if k == 2 && s[1] == 's' {
        assert(acc =~= seq!['s']);
        1
    } else if k == 2 && s[1] == 'f' {
        assert(acc =~= seq!['f']);
        -1
    } else if k == 3 && s[1] == 's' && s[2] == 's' {
        assert(acc =~= seq!['s', 's']);
        2
    } else if k == 3 && s[1] == 'f' && s[2] == 'f' {
        assert(acc =~= seq!['f', 'f']);
        -2
    } else {
        proof {
            assert(accidental_shift(acc) is None) by {
                if acc.len() == 1 {
                    assert(acc[0] == v[1]);
                } else if acc.len() == 2 {
                    assert(acc[0] == v[1] && acc[1] == v[2]);
                }
            }
        }
        return None;
    };
    assert(accidental_shift(acc) == Some(shift as int));
    let ghost rest = v.skip(k as int);
    // The octave.
    let (oct, len): (i32, usize) = if k + 1 < s.len() && s[k] == '_' && s[k + 1] == '1' {
        (-1, 2)
    } else if k < s.len() && '0' <= s[k] && s[k] <= '9' {
        let d = s[k] as u32 - 48u32;
        (d as i32, 1)
    } else {
        assert(octave_prefix(rest) is None);
        return None;
    };
    assert(octave_prefix(rest) == Some((oct as int, len as int)));
    assert(rest.skip(len as int) =~= v.skip((k + len) as int));
    let t = match value_ticks_at(s, k + len) {
        Some(t) => t,
        None => return None,
    };
    let midi: i32 = (oct + 1) * 12 + pc + shift;
    if 0 <= midi && midi <= 127 {
        Some((midi as u8, t))
    } else {
        None
    }
}

} // verus!
