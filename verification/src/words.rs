//! Human-readable descriptions of pitches and note values, as the note
//! vocabulary documents them: "middle C (C4), MIDI 60", "dotted quarter
//! note (3/8)".

use vstd::prelude::*;
use crate::series::{gcd, gcd_spec};
use crate::text::{push_char, push_str, str_eq, to_owned_string};

verus! {

/// The decimal digit `d` (below 10).
pub open spec fn digit_char(d: nat) -> char {
    (48 + d) as char
}

/// The decimal text of a natural number.
pub open spec fn dec_text(n: nat) -> Seq<char>
    decreases n,
{
    if n < 10 {
        seq![digit_char(n)]
    } else {
        dec_text(n / 10).push(digit_char(n % 10))
    }
}

/// The decimal text of an integer, with a leading `-` when negative.
pub open spec fn int_text(i: int) -> Seq<char> {
    if i < 0 {
        seq!['-'] + dec_text((-i) as nat)
    } else {
        dec_text(i as nat)
    }
}

/// What `str::to_uppercase` returns for a string (Unicode upper-casing).
pub uninterp spec fn uppercase(s: Seq<char>) -> Seq<char>;

/// `str::to_uppercase`.
#[verifier::external_body]
fn to_uppercase(s: &str) -> (r: String)
    ensures
        r@ == uppercase(s@),
{
    s.to_uppercase()
}

fn digit(d: u64) -> (c: char)
    requires
        d < 10,
    ensures
        c == digit_char(d as nat),
{
    let b: u8 = 48u8 + d as u8;
    b as char
}

/// Appends the decimal text of `n`.
pub fn push_decimal(s: &mut String, n: u64)
    ensures
        final(s)@ == old(s)@ + dec_text(n as nat),
    decreases n,
{
    if n < 10 {
        push_char(s, digit(n));
    } else {
        push_decimal(s, n / 10);
        push_char(s, digit(n % 10));
    }
}

/// Appends the decimal text of `i`, signed.
pub fn push_int(s: &mut String, i: i64)
    ensures
        final(s)@ == old(s)@ + int_text(i as int),
{
    if i < 0 {
        push_char(s, '-');
        let m: u64 = if i == i64::MIN { 0x8000_0000_0000_0000u64 } else { (-i) as u64 };
        push_decimal(s, m);
        assert(final(s)@ =~= old(s)@ + int_text(i as int));
    } else {
        push_decimal(s, i as u64);
    }
}

/// The words of a pitch: `"middle C (C4), MIDI 60"` for middle C, else
/// `"<LETTER><accidental><octave>, MIDI <midi>"`.
pub open spec fn pitch_text(letter: Seq<char>, acc_sym: Seq<char>, octave: i32, midi: i32) -> Seq<char> {
    let spelled = uppercase(letter) + acc_sym + int_text(octave as int);
    if letter == "c"@ && acc_sym.len() == 0 && octave == 4 {
        "middle C ("@ + spelled + "), MIDI "@ + int_text(midi as int)
    } else {
        spelled + ", MIDI "@ + int_text(midi as int)
    }
}

/// Human-readable pitch: "middle C (C4), MIDI 60".
pub fn pitch_words(letter: &str, acc_sym: &str, octave: i32, midi: i32) -> (r: String)
    ensures
        r@ == pitch_text(letter@, acc_sym@, octave, midi),
{
    let mut spelled = to_uppercase(letter);
    push_str(&mut spelled, acc_sym);
    push_int(&mut spelled, octave as i64);
    if str_eq(letter, "c") && acc_sym.is_empty() && octave == 4 {
        let mut r = to_owned_string("middle C (");
        push_str(&mut r, spelled.as_str());
        push_str(&mut r, "), MIDI ");
        push_int(&mut r, midi as i64);
        r
    } else {
        let mut r = spelled;
        push_str(&mut r, ", MIDI ");
        push_int(&mut r, midi as i64);
        r
    }
}

/// Name and fraction of a whole note of a value code (`"w"` … `"x"`; any
/// other code is the 128th).
pub open spec fn value_name(code: Seq<char>) -> (Seq<char>, u32, u32) {
    if code == "w"@ { ("whole"@, 1, 1) }
    else if code == "h"@ { ("half"@, 1, 2) }
    else if code == "q"@ { ("quarter"@, 1, 4) }
    else if code == "e"@ { ("eighth"@, 1, 8) }
    else if code == "i"@ { ("sixteenth"@, 1, 16) }
    else if code == "t"@ { ("thirty-second"@, 1, 32) }
    else if code == "x"@ { ("sixty-fourth"@, 1, 64) }
    else { ("hundred-twenty-eighth"@, 1, 128) }
}

/// Prefix and length factor of 0 to 3 dots (more count as none).
pub open spec fn dot_factor(dots: u8) -> (Seq<char>, u32, u32) {
    if dots == 1 { ("dotted "@, 3, 2) }
    else if dots == 2 { ("double-dotted "@, 7, 4) }
    else if dots == 3 { ("triple-dotted "@, 15, 8) }
    else { (""@, 1, 1) }
}

/// The words of a note value: `"<dots><name> note (<num>/<den>)"`, the
/// fraction of a whole note in lowest terms.
pub open spec fn value_text(code: Seq<char>, dots: u8) -> Seq<char> {
    let (name, num, den) = value_name(code);
    let (dotted, mn, md) = dot_factor(dots);
    let n = num * mn;
    let d = den * md;
    let g = gcd_spec(n as u32, d as u32);
    dotted + name + " note ("@ + dec_text((n / g as int) as nat) + "/"@ + dec_text((d / g as int) as nat) + ")"@
}

/// Musical value words: "quarter note (1/4)"; 1 to 3 dots add dotting.
pub fn value_words(code: &str, dots: u8) -> (r: String)
    ensures
        r@ == value_text(code@, dots),
{
    let (name, num, den): (&str, u32, u32) = if str_eq(code, "w") { ("whole", 1, 1) }
        else if str_eq(code, "h") { ("half", 1, 2) }
        else if str_eq(code, "q") { ("quarter", 1, 4) }
        else if str_eq(code, "e") { ("eighth", 1, 8) }
        else if str_eq(code, "i") { ("sixteenth", 1, 16) }
        else if str_eq(code, "t") { ("thirty-second", 1, 32) }
        else if str_eq(code, "x") { ("sixty-fourth", 1, 64) }
        else { ("hundred-twenty-eighth", 1, 128) };
    let (dotted, mult_num, mult_den): (&str, u32, u32) = if dots == 1 { ("dotted ", 3, 2) }
        else if dots == 2 { ("double-dotted ", 7, 4) }
        else if dots == 3 { ("triple-dotted ", 15, 8) }
        else { ("", 1, 1) };
    assert(num * mult_num <= 15 && den * mult_den <= 1024) by (nonlinear_arith)
        requires
            num == 1, den <= 128, mult_num <= 15, mult_den <= 8;
    let n: u32 = num * mult_num;
    let d: u32 = den * mult_den;
    let g = gcd(n, d);
    let mut r = to_owned_string(dotted);
    push_str(&mut r, name);
    push_str(&mut r, " note (");
    push_decimal(&mut r, (n / g) as u64);
    push_str(&mut r, "/");
    push_decimal(&mut r, (d / g) as u64);
    push_str(&mut r, ")");
    r
}

/// The note-value code written for a duration of `ticks`, where the
/// duration is a plain or dotted note value from a dotted whole down to a
/// hundred-twenty-eighth.
pub open spec fn duration_code(ticks: u64) -> Option<Seq<char>> {
    if ticks == 1_935_360 { Some("wd"@) }
    else if ticks == 1_290_240 { Some("w"@) }
    else if ticks == 967_680 { Some("hd"@) }
    else if ticks == 645_120 { Some("h"@) }
    else if ticks == 483_840 { Some("qd"@) }
    else if ticks == 322_560 { Some("q"@) }
    else if ticks == 241_920 { Some("ed"@) }
    else if ticks == 161_280 { Some("e"@) }
    else if ticks == 120_960 { Some("id"@) }
    else if ticks == 80_640 { Some("i"@) }
    else if ticks == 60_480 { Some("td"@) }
    else if ticks == 40_320 { Some("t"@) }
    else if ticks == 30_240 { Some("xd"@) }
    else if ticks == 20_160 { Some("x"@) }
    else if ticks == 15_120 { Some("od"@) }
    else if ticks == 10_080 { Some("o"@) }
    else { None }
}

/// The note-value code of a duration in ticks, if it has one.
pub fn duration_code_of(ticks: u64) -> (r: Option<&'static str>)
    ensures
        match r {
            Some(c) => duration_code(ticks) == Some(c@),
            None => duration_code(ticks) is None,
        },
{
    if ticks == 1_935_360 { Some("wd") }
    else if ticks == 1_290_240 { Some("w") }
    else if ticks == 967_680 { Some("hd") }
    else if ticks == 645_120 { Some("h") }
    else if ticks == 483_840 { Some("qd") }
    else if ticks == 322_560 { Some("q") }
    else if ticks == 241_920 { Some("ed") }
    else if ticks == 161_280 { Some("e") }
    else if ticks == 120_960 { Some("id") }
    else if ticks == 80_640 { Some("i") }
    else if ticks == 60_480 { Some("td") }
    else if ticks == 40_320 { Some("t") }
    else if ticks == 30_240 { Some("xd") }
    else if ticks == 20_160 { Some("x") }
    else if ticks == 15_120 { Some("od") }
    else if ticks == 10_080 { Some("o") }
    else { None }
}

/// The lower-case name of a pitch class, sharps spelled `s`.
pub open spec fn class_name(pc: u8) -> Seq<char> {
    if pc == 0 { "c"@ } else if pc == 1 { "cs"@ } else if pc == 2 { "d"@ } else if pc == 3 { "ds"@ }
    else if pc == 4 { "e"@ } else if pc == 5 { "f"@ } else if pc == 6 { "fs"@ } else if pc == 7 { "g"@ }
    else if pc == 8 { "gs"@ } else if pc == 9 { "a"@ } else if pc == 10 { "as"@ } else { "b"@ }
}

/// How a pitch is written in a score: its class name and its octave (MIDI
/// 60 is `c4`; the octave below 0 is written 0).
pub open spec fn pitch_spelling(midi: u8) -> Seq<char> {
    class_name(midi % 12) + dec_text((if midi / 12 >= 1 { midi / 12 - 1 } else { 0 }) as nat)
}

fn class_name_of(pc: u8) -> (r: &'static str)
    ensures
        r@ == class_name(pc),
{
    if pc == 0 { "c" } else if pc == 1 { "cs" } else if pc == 2 { "d" } else if pc == 3 { "ds" }
    else if pc == 4 { "e" } else if pc == 5 { "f" } else if pc == 6 { "fs" } else if pc == 7 { "g" }
    else if pc == 8 { "gs" } else if pc == 9 { "a" } else if pc == 10 { "as" } else { "b" }
}

/// The written name of a pitch, as `pitch_spelling` gives it.
pub fn spell_pitch(midi: u8) -> (r: String)
    ensures
        r@ == pitch_spelling(midi),
{
    let mut s = to_owned_string(class_name_of(midi % 12));
    let octave: u64 = if midi / 12 >= 1 { (midi / 12 - 1) as u64 } else { 0 };
    push_decimal(&mut s, octave);
    s
}

} // verus!
