//! Key signatures: parsing `"Cmaj"`, `"f#min"`, `"Bbmaj"`, … and the
//! accidental a key applies to a natural pitch class.

use vstd::prelude::*;
use crate::text::{chars_of, lowercase, to_lowercase, starts_with, ends_with};

verus! {

/// The natural base pitch and offset of a MIDI pitch: black keys count as
/// the white key below plus one.
pub open spec fn base_and_offset(midi: u8) -> (u8, i8) {
    let base = (midi / 12 * 12) as int;
    let offset = (midi % 12) as int;
    let natural = if offset == 1 || offset == 3 || offset == 6 || offset == 8 || offset == 10 { 1int } else { 0int };
    ((base + natural) as u8, (offset - natural) as i8)
}

/// Key signature helper: `(midi / 12 * 12 + n, midi % 12 - n)` with `n`
/// 1 on a black key and 0 on a white one.
pub fn get_base_midi_and_offset(midi: u8) -> (r: (u8, i8))
    ensures
        r == base_and_offset(midi),
{
    let base = midi / 12 * 12;
    let offset = midi % 12;
    let natural: u8 = if offset == 1 || offset == 3 || offset == 6 || offset == 8 || offset == 10 { 1 } else { 0 };
    (base + natural, offset as i8 - natural as i8)
}

/// Pitch class of a root letter.
pub open spec fn root_class(c: char) -> Option<u8> {
    if c == 'c' { Some(0u8) }
    else if c == 'd' { Some(2u8) }
    else if c == 'e' { Some(4u8) }
    else if c == 'f' { Some(5u8) }
    else if c == 'g' { Some(7u8) }
    else if c == 'a' { Some(9u8) }
    else if c == 'b' { Some(11u8) }
    else { None }
}

/// Root pitch class and mode (0 major, -1 minor) of a lower-cased key:
/// a root letter, an optional accidental (`#`/`s` sharp, `b`/`f` flat),
/// then `maj`, `min`, or a trailing `m` (not `maj`) for minor; major
/// otherwise. `None` when the first character is not a root letter.
pub open spec fn key_of(lower: Seq<char>) -> Option<(u8, i8)> {
    if lower.len() == 0 || root_class(lower[0]) is None {
        None
    } else {
        let root = root_class(lower[0])->Some_0;
        let (root, cursor) = if lower.len() > 1 && (lower[1] == '#' || lower[1] == 's') {
            (((root + 1) % 12) as u8, 2int)
        } else if lower.len() > 1 && (lower[1] == 'b' || lower[1] == 'f') {
            (((root + 11) % 12) as u8, 2int)
        } else {
            (root, 1int)
        };
        let rest = lower.skip(cursor);
        let mode: i8 = if starts_with(rest, seq!['m', 'a', 'j']) {
            0
        } else if starts_with(rest, seq!['m', 'i', 'n']) {
            -1i8
        } else if ends_with(lower, seq!['m']) && !ends_with(lower, seq!['m', 'a', 'j']) {
            -1i8
        } else {
            0
        };
        Some((root, mode))
    }
}

fn seq_starts_with(s: &Vec<char>, from: usize, p: &[char]) -> (r: bool)
    requires
        from <= s@.len(),
    ensures
        r == starts_with(s@.skip(from as int), p@),
{
    if s.len() - from < p.len() {
        return false;
    }
    let mut i: usize = 0;
    while i < p.len()
        invariant
            from + p@.len() <= s@.len(),
            from + p.len() <= s.len(),
            i <= p@.len(),
            forall|k: int| 0 <= k < i ==> s@[from + k] == p@[k],
        decreases p@.len() - i,
    {
        if s[from + i] != p[i] {
            assert(s@.skip(from as int).take(p@.len() as int)[i as int] != p@[i as int]);
            return false;
        }
        i = i + 1;
    }
    assert(s@.skip(from as int).take(p@.len() as int) =~= p@);
    true
}

fn seq_ends_with(s: &Vec<char>, p: &[char]) -> (r: bool)
    ensures
        r == ends_with(s@, p@),
{
    if s.len() < p.len() {
        return false;
    }
    let from = s.len() - p.len();
    let r = seq_starts_with(s, from, p);
    assert(s@.skip(from as int).take(p@.len() as int) =~= s@.skip(from as int));
    r
}

/// Parse a lower-cased key: `None` when it does not start with a root letter.
pub fn key_of_lower(lower: &Vec<char>) -> (r: Option<(u8, i8)>)
    ensures
        r == key_of(lower@),
{
    if lower.len() == 0 {
        return None;
    }
    let c0 = lower[0];
    let mut root: u8 = if c0 == 'c' { 0 } else if c0 == 'd' { 2 } else if c0 == 'e' { 4 } else if c0 == 'f' { 5 }
        else if c0 == 'g' { 7 } else if c0 == 'a' { 9 } else if c0 == 'b' { 11 } else { return None; };
    let mut cursor: usize = 1;
    if lower.len() > 1 {
        let c1 = lower[1];
        if c1 == '#' || c1 == 's' {
            root = (root + 1) % 12;
            cursor = 2;
        } else if c1 == 'b' || c1 == 'f' {
            root = (root + 11) % 12;
            cursor = 2;
        }
    }
    let maj: [char; 3] = ['m', 'a', 'j'];
    let min: [char; 3] = ['m', 'i', 'n'];
    let m: [char; 1] = ['m'];
    proof {
        assert(maj@ =~= seq!['m', 'a', 'j']);
        assert(min@ =~= seq!['m', 'i', 'n']);
        assert(m@ =~= seq!['m']);
    }
    let mode: i8 = if seq_starts_with(lower, cursor, &maj) {
        0
    } else if seq_starts_with(lower, cursor, &min) {
        -1
    } else if seq_ends_with(lower, &m) && !seq_ends_with(lower, &maj) {
        -1
    } else {
        0
    };
    Some((root, mode))
}

/// Parse a key signature such as `"Cmaj"`, `"amin"`, `"Bbmaj"`, `"f#min"`:
/// the lower-cased text's root pitch class and mode (0 major, -1 minor).
pub fn parse_key_signature(key_str: &str) -> (r: (u8, i8))
    requires
        key_of(lowercase(key_str@)) is Some,
    ensures
        Some(r) == key_of(lowercase(key_str@)),
{
    let lower = chars_of(to_lowercase(key_str).as_str());
    match key_of_lower(&lower) {
        Some(k) => k,
        None => { proof { assert(false); } (0, 0) },
    }
}

/// `parse_key_signature` without a precondition: `None` where the first
/// character of the lower-cased key is not a root letter.
pub fn try_parse_key_signature(key_str: &str) -> (r: Option<(u8, i8)>)
    ensures
        r == key_of(lowercase(key_str@)),
{
    let lower = chars_of(to_lowercase(key_str).as_str());
    match key_of_lower(&lower) {
        Some(_) => Some(parse_key_signature(key_str)),
        None => None,
    }
}

/// Pitch classes of the C major scale.
pub open spec fn natural_in_c(pc: u8) -> bool {
    pc == 0 || pc == 2 || pc == 4 || pc == 5 || pc == 7 || pc == 9 || pc == 11
}

/// Pitch classes of the (natural) minor scale on C.
pub open spec fn in_minor(pc: u8) -> bool {
    pc == 0 || pc == 2 || pc == 3 || pc == 5 || pc == 7 || pc == 8 || pc == 10
}

/// The accidental a key's mode applies to a natural pitch class: -1 for a
/// C-major natural outside the mode's scale, +1 for a C-major accidental
/// inside it, 0 otherwise. (The scales are taken on C.)
pub open spec fn adjustment(mode: i8, pc: u8) -> i8 {
    let in_key = if mode == 0 { natural_in_c(pc) } else { in_minor(pc) };
    if natural_in_c(pc) && !in_key { -1i8 } else if !natural_in_c(pc) && in_key { 1 } else { 0 }
}

/// Key signature adjustment for a natural pitch class under `key_str`.
pub fn get_key_signature_adjustment(key_str: &str, natural_pitch_class: u8) -> (r: i8)
    requires
        key_of(lowercase(key_str@)) is Some,
    ensures
        r == adjustment(key_of(lowercase(key_str@))->Some_0.1, natural_pitch_class),
{
    let (_root, mode) = parse_key_signature(key_str);
    let pc = natural_pitch_class;
    let natural = pc == 0 || pc == 2 || pc == 4 || pc == 5 || pc == 7 || pc == 9 || pc == 11;
    let in_key = if mode == 0 { natural } else { pc == 0 || pc == 2 || pc == 3 || pc == 5 || pc == 7 || pc == 8 || pc == 10 };
    if natural && !in_key { -1 } else if !natural && in_key { 1 } else { 0 }
}

/// `get_key_signature_adjustment` without a precondition: `None` where the
/// key does not start with a root letter.
pub fn try_key_signature_adjustment(key_str: &str, natural_pitch_class: u8) -> (r: Option<i8>)
    ensures
        key_of(lowercase(key_str@)) is None ==> r is None,
        key_of(lowercase(key_str@)) is Some ==> r == Some(adjustment(key_of(lowercase(key_str@))->Some_0.1, natural_pitch_class)),
{
    match try_parse_key_signature(key_str) {
        Some(_) => Some(get_key_signature_adjustment(key_str, natural_pitch_class)),
        None => None,
    }
}

} // verus!
