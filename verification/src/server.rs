//! The playback server's line protocol: what a command line asks for, and
//! which expressions are bare calls of compiled-in songs.

use vstd::prelude::*;
use crate::text::{chars_of, push_char};

verus! {

/// Whether `c` has the Unicode White_Space property: the tab and line
/// controls, the space, next line, no-break space, ogham space mark, the
/// typographic spaces, the line and paragraph separators, the narrow
/// no-break and medium mathematical spaces, and the ideographic space.
pub open spec fn is_space(c: char) -> bool {
    let u = c as u32;
    ||| 0x09 <= u <= 0x0D
    ||| u == 0x20
    ||| u == 0x85
    ||| u == 0xA0
    ||| u == 0x1680
    ||| 0x2000 <= u <= 0x200A
    ||| u == 0x2028
    ||| u == 0x2029
    ||| u == 0x202F
    ||| u == 0x205F
    ||| u == 0x3000
}

/// What `char::is_alphanumeric` says of a character (Unicode Alphabetic or
/// Numeric).
pub uninterp spec fn is_alnum(c: char) -> bool;

/// Whether `c` is whitespace, as `char::is_whitespace` answers.
fn char_is_whitespace(c: char) -> (r: bool)
    ensures
        r == is_space(c),
{
    let u = c as u32;
    (0x09 <= u && u <= 0x0D) || u == 0x20 || u == 0x85 || u == 0xA0 || u == 0x1680
        || (0x2000 <= u && u <= 0x200A) || u == 0x2028 || u == 0x2029 || u == 0x202F
        || u == 0x205F || u == 0x3000
}

/// `char::is_alphanumeric`.
#[verifier::external_body]
fn char_is_alphanumeric(c: char) -> (r: bool)
    ensures
        r == is_alnum(c),
{
    c.is_alphanumeric()
}

/// The number of whitespace characters `s` starts with.
pub open spec fn lead(s: Seq<char>) -> nat
    decreases s.len(),
{
    if s.len() > 0 && is_space(s[0]) { 1 + lead(s.drop_first()) } else { 0 }
}

/// The number of whitespace characters `s` ends with.
pub open spec fn trail(s: Seq<char>) -> nat
    decreases s.len(),
{
    if s.len() > 0 && is_space(s.last()) { 1 + trail(s.drop_last()) } else { 0 }
}

/// `s` without leading and trailing whitespace.
pub open spec fn trimmed(s: Seq<char>) -> Seq<char> {
    if lead(s) == s.len() { Seq::empty() } else { s.subrange(lead(s) as int, s.len() - trail(s)) }
}

proof fn lemma_lead_bound(s: Seq<char>)
    ensures
        lead(s) <= s.len(),
        forall|i: int| 0 <= i < lead(s) ==> is_space(#[trigger] s[i]),
        lead(s) < s.len() ==> !is_space(s[lead(s) as int]),
    decreases s.len(),
{
    if s.len() > 0 && is_space(s[0]) {
        lemma_lead_bound(s.drop_first());
        assert forall|i: int| 0 <= i < lead(s) implies is_space(#[trigger] s[i]) by {
            if i > 0 {
                assert(s[i] == s.drop_first()[i - 1]);
            }
        }
        if lead(s) < s.len() {
            assert(s[lead(s) as int] == s.drop_first()[lead(s) - 1]);
        }
    }
}

proof fn lemma_lead_exact(s: Seq<char>, k: int)
    requires
        0 <= k <= s.len(),
        forall|i: int| 0 <= i < k ==> is_space(#[trigger] s[i]),
        k == s.len() || !is_space(s[k]),
    ensures
        lead(s) == k,
    decreases k,
{
    if k > 0 {
        assert forall|i: int| 0 <= i < k - 1 implies is_space(#[trigger] s.drop_first()[i]) by {
            assert(s.drop_first()[i] == s[i + 1]);
        }
        if k < s.len() {
            assert(s.drop_first()[k - 1] == s[k]);
        }
        lemma_lead_exact(s.drop_first(), k - 1);
    }
}

proof fn lemma_trail_exact(s: Seq<char>, k: int)
    requires
        0 <= k <= s.len(),
        forall|i: int| s.len() - k <= i < s.len() ==> is_space(#[trigger] s[i]),
        k == s.len() || !is_space(s[s.len() - k - 1]),
    ensures
        trail(s) == k,
    decreases k,
{
    if k > 0 {
        let t = s.drop_last();
        assert forall|i: int| t.len() - (k - 1) <= i < t.len() implies is_space(#[trigger] t[i]) by {
            assert(t[i] == s[i]);
        }
        if k < s.len() {
            assert(t[t.len() - (k - 1) - 1] == s[s.len() - k - 1]);
        }
        lemma_trail_exact(t, k - 1);
    }
}

/// The characters of `s[from..to]` trimmed.
fn trim_range(s: &Vec<char>, from: usize) -> (r: Vec<char>)
    requires
        from <= s@.len(),
    ensures
        r@ == trimmed(s@.skip(from as int)),
{
    let ghost t = s@.skip(from as int);
    let mut a: usize = from;
    while a < s.len() && char_is_whitespace(s[a])
        invariant
            from <= a <= s@.len(),
            t == s@.skip(from as int),
            forall|i: int| 0 <= i < a - from ==> is_space(#[trigger] t[i]),
        decreases s@.len() - a,
    {
        a = a + 1;
    }
    proof {
        if a < s@.len() {
            assert(t[a - from] == s@[a as int]);
        }
        lemma_lead_exact(t, a - from);
    }
    let mut out: Vec<char> = Vec::new();
    if a == s.len() {
        return out;
    }
    let mut b: usize = s.len();
    while b > a && char_is_whitespace(s[b - 1])
        invariant
            from <= a < s@.len(),
            a <= b <= s@.len(),
            t == s@.skip(from as int),
            !is_space(s@[a as int]),
            forall|i: int| b - from <= i < t.len() ==> is_space(#[trigger] t[i]),
        decreases b,
    {
        assert(t[b - 1 - from] == s@[b - 1]);
        b = b - 1;
    }
    proof {
        if b > a {
            assert(t[b - from - 1] == s@[b - 1]);
        } else {
            assert(t[a - from] == s@[a as int]);
        }
        lemma_trail_exact(t, t.len() - (b - from));
    }
    let mut i: usize = a;
    while i < b
        invariant
            a <= i <= b <= s@.len(),
            out@ == s@.subrange(a as int, i as int),
        decreases b - i,
    {
        out.push(s[i]);
        assert(out@ =~= s@.subrange(a as int, i + 1));
        i = i + 1;
    }
    assert(out@ =~= trimmed(t));
    out
}

/// A character of a call path: alphanumeric, `_` or `:`.
pub open spec fn path_char(c: char) -> bool {
    is_alnum(c) || c == '_' || c == ':'
}

/// The song a bare `name()` (or `path::name()`) call names, once trimmed;
/// anything with arguments, operators or other text goes to the evaluator.
pub open spec fn bare_call(expr: Seq<char>) -> Option<Seq<char>> {
    let t = trimmed(expr);
    if t.len() >= 2 && t[t.len() - 2] == '(' && t[t.len() - 1] == ')' {
        let call = t.take(t.len() - 2);
        if call.len() > 0 && (forall|i: int| 0 <= i < call.len() ==> path_char(#[trigger] call[i])) {
            Some(call)
        } else {
            None
        }
    } else {
        None
    }
}

/// A string of characters.
pub(crate) fn string_of(cs: &Vec<char>, from: usize, to: usize) -> (r: String)
    requires
        from <= to <= cs@.len(),
    ensures
        r@ == cs@.subrange(from as int, to as int),
{
    let mut s = String::new();
    let mut i: usize = from;
    while i < to
        invariant
            from <= i <= to <= cs@.len(),
            s@ == cs@.subrange(from as int, i as int),
        decreases to - i,
    {
        push_char(&mut s, cs[i]);
        assert(s@ =~= cs@.subrange(from as int, i + 1));
        i = i + 1;
    }
    s
}

/// `name()` with nothing else: a bare song call, by name.
pub fn bare_name(expr: &str) -> (r: Option<String>)
    ensures
        match r {
            Some(name) => bare_call(expr@) == Some(name@),
            None => bare_call(expr@) is None,
        },
{
    let all = chars_of(expr);
    let t = trim_range(&all, 0);
    assert(all@.skip(0) =~= all@);
    let n = t.len();
    assert(t@ == trimmed(expr@));
    if n < 2 || t[n - 2] != '(' || t[n - 1] != ')' {
        return None;
    }
    let m = n - 2;
    if m == 0 {
        assert(t@.take(m as int).len() == 0);
        return None;
    }
    let mut i: usize = 0;
    while i < m
        invariant
            m == t@.len() - 2,
            m > 0,
            t@ == trimmed(expr@),
            t@[t@.len() - 2] == '(' && t@[t@.len() - 1] == ')',
            i <= m,
            forall|k: int| 0 <= k < i ==> path_char(#[trigger] t@[k]),
        decreases m - i,
    {
        let c = t[i];
        if !(char_is_alphanumeric(c) || c == '_' || c == ':') {
            assert(t@.take(m as int)[i as int] == c);
            return None;
        }
        i = i + 1;
    }
    let name = string_of(&t, 0, m);
    assert(t@.subrange(0, m as int) =~= t@.take(m as int));
    Some(name)
}

/// A line of the protocol.
#[derive(Debug, PartialEq)]
pub enum Command {
    Load(String),
    Play(String),
    Audition(Audition),
    Preview(String),
    Reload(String),
    Roll(String),
    Stop,
    Reset,
    Resume,
    /// `loop on|off`: anything but `off` turns looping on.
    Loop(bool),
    Empty,
    Unknown(String),
}

/// The arguments of `audition`: a MIDI pitch and an instrument, or the
/// usage error.
#[derive(Debug, PartialEq)]
pub enum Audition {
    Play { midi: u8, instrument: String },
    Usage,
}

pub ghost enum AuditionV {
    Play { midi: u8, instrument: Seq<char> },
    Usage,
}

pub ghost enum CommandV {
    Load(Seq<char>),
    Play(Seq<char>),
    Audition(AuditionV),
    Preview(Seq<char>),
    Reload(Seq<char>),
    Roll(Seq<char>),
    Stop,
    Reset,
    Resume,
    Loop(bool),
    Empty,
    Unknown(Seq<char>),
}

impl Audition {
    pub open spec fn view(&self) -> AuditionV {
        match self {
            Audition::Play { midi, instrument } => AuditionV::Play { midi: *midi, instrument: instrument@ },
            Audition::Usage => AuditionV::Usage,
        }
    }
}

impl Command {
    pub open spec fn view(&self) -> CommandV {
        match self {
            Command::Load(s) => CommandV::Load(s@),
            Command::Play(s) => CommandV::Play(s@),
            Command::Audition(a) => CommandV::Audition(a.view()),
            Command::Preview(s) => CommandV::Preview(s@),
            Command::Reload(s) => CommandV::Reload(s@),
            Command::Roll(s) => CommandV::Roll(s@),
            Command::Stop => CommandV::Stop,
            Command::Reset => CommandV::Reset,
            Command::Resume => CommandV::Resume,
            Command::Loop(b) => CommandV::Loop(*b),
            Command::Empty => CommandV::Empty,
            Command::Unknown(s) => CommandV::Unknown(s@),
        }
    }
}

/// The index of the first whitespace character of `s` (its length when
/// there is none).
pub open spec fn first_space(s: Seq<char>) -> int
    decreases s.len(),
{
    if s.len() == 0 { 0 } else if is_space(s[0]) { 0 } else { 1 + first_space(s.drop_first()) }
}

/// An ASCII digit's value.
pub open spec fn digit_value(c: char) -> int {
    (c as int) - 48
}

pub open spec fn is_digit(c: char) -> bool {
    '0' <= c <= '9'
}

/// The number the digits of `s` spell.
pub open spec fn digits_value(s: Seq<char>) -> int
    decreases s.len(),
{
    if s.len() == 0 { 0 } else { digits_value(s.drop_last()) * 10 + digit_value(s.last()) }
}

/// Whether `s` starts with a sign.
pub open spec fn signed(s: Seq<char>) -> bool {
    s.len() > 0 && (s[0] == '+' || s[0] == '-')
}

/// `s` without its sign.
pub open spec fn unsigned_part(s: Seq<char>) -> Seq<char> {
    if signed(s) { s.drop_first() } else { s }
}

/// What `str::parse::<i32>` gives: an optional `+` or `-`, then at least
/// one ASCII digit and nothing else, within the range of `i32`.
pub open spec fn parse_i32(s: Seq<char>) -> Option<int> {
    let neg = signed(s) && s[0] == '-';
    let digits = unsigned_part(s);
    if digits.len() > 0 && (forall|i: int| 0 <= i < digits.len() ==> is_digit(#[trigger] digits[i])) {
        let v = if neg { -digits_value(digits) } else { digits_value(digits) };
        if i32::MIN <= v <= i32::MAX { Some(v) } else { None }
    } else {
        None
    }
}

/// The first whitespace-separated word of `s` and what follows it.
pub open spec fn first_word(s: Seq<char>) -> (Seq<char>, Seq<char>) {
    let rest = s.skip(lead(s) as int);
    let k = first_space(rest);
    (rest.take(k), rest.skip(k))
}

/// The audition arguments of `rest`: its first two words, a pitch that
/// parses as a number in 0..128 and `ym` or `psg`.
pub open spec fn audition_args(rest: Seq<char>) -> AuditionV {
    let (w1, r1) = first_word(rest);
    let (w2, _) = first_word(r1);
    if w1.len() > 0 && w2.len() > 0 && (w2 == "ym"@ || w2 == "psg"@) {
        match parse_i32(w1) {
            Some(m) => if 0 <= m < 128 { AuditionV::Play { midi: m as u8, instrument: w2 } } else { AuditionV::Usage },
            None => AuditionV::Usage,
        }
    } else {
        AuditionV::Usage
    }
}

/// What a line asks for: its command word (up to the first whitespace
/// character) and the rest after that character, trimmed.
pub open spec fn command_of(line: Seq<char>) -> CommandV {
    let k = first_space(line);
    let word = line.take(k);
    let rest = if k < line.len() { trimmed(line.skip(k + 1)) } else { Seq::empty() };
    if word == "load"@ { CommandV::Load(rest) }
    else if word == "play"@ { CommandV::Play(rest) }
    else if word == "audition"@ { CommandV::Audition(audition_args(rest)) }
    else if word == "preview"@ { CommandV::Preview(rest) }
    else if word == "reload"@ { CommandV::Reload(rest) }
    else if word == "roll"@ { CommandV::Roll(rest) }
    else if word == "stop"@ { CommandV::Stop }
    else if word == "reset"@ { CommandV::Reset }
    else if word == "resume"@ { CommandV::Resume }
    else if word == "loop"@ { CommandV::Loop(rest != "off"@) }
    else if word.len() == 0 { CommandV::Empty }
    else { CommandV::Unknown(word) }
}

/// The index of the first whitespace character at or after `from`.
fn find_space(s: &Vec<char>, from: usize) -> (k: usize)
    requires
        from <= s@.len(),
    ensures
        from <= k <= s@.len(),
        k - from == first_space(s@.skip(from as int)),
{
    let mut k: usize = from;
    assert(s@.skip(from as int).skip(0) =~= s@.skip(from as int));
    while k < s.len() && !char_is_whitespace(s[k])
        invariant
            from <= k <= s@.len(),
            first_space(s@.skip(from as int)) == (k - from) + first_space(s@.skip(k as int)),
        decreases s@.len() - k,
    {
        assert(s@.skip(k as int).drop_first() =~= s@.skip(k + 1));
        assert(s@.skip(k as int)[0] == s@[k as int]);
        k = k + 1;
    }
    if k < s.len() {
        assert(s@.skip(k as int)[0] == s@[k as int]);
    }
    k
}

/// The first word at or after `from`: its range.
fn word_at(s: &Vec<char>, from: usize) -> (r: (usize, usize))
    requires
        from <= s@.len(),
    ensures
        from <= r.0 <= r.1 <= s@.len(),
        s@.subrange(r.0 as int, r.1 as int) == first_word(s@.skip(from as int)).0,
        s@.skip(r.1 as int) == first_word(s@.skip(from as int)).1,
{
    let ghost t = s@.skip(from as int);
    let mut a: usize = from;
    while a < s.len() && char_is_whitespace(s[a])
        invariant
            from <= a <= s@.len(),
            t == s@.skip(from as int),
            forall|i: int| 0 <= i < a - from ==> is_space(#[trigger] t[i]),
        decreases s@.len() - a,
    {
        a = a + 1;
    }
    proof {
        if a < s@.len() {
            assert(t[a - from] == s@[a as int]);
        }
        lemma_lead_exact(t, a - from);
        assert(t.skip(a - from) =~= s@.skip(a as int));
    }
    let b = find_space(s, a);
    assert(s@.subrange(a as int, b as int) =~= s@.skip(a as int).take(b - a));
    assert(s@.skip(b as int) =~= s@.skip(a as int).skip(b - a));
    (a, b)
}

/// `str::parse::<i32>` of `s[from..to]`.
fn parse_i32_range(s: &Vec<char>, from: usize, to: usize) -> (r: Option<i32>)
    requires
        from <= to <= s@.len(),
    ensures
        match r {
            Some(v) => parse_i32(s@.subrange(from as int, to as int)) == Some(v as int),
            None => parse_i32(s@.subrange(from as int, to as int)) is None,
        },
{
    let ghost w = s@.subrange(from as int, to as int);
    let mut i = from;
    let mut neg = false;
    if i < to && (s[i] == '+' || s[i] == '-') {
        neg = s[i] == '-';
        i = i + 1;
    }
    let ghost digits = s@.subrange(i as int, to as int);
    proof {
        if signed(w) {
            assert(w[0] == s@[from as int]);
            assert(w.drop_first() =~= digits);
        } else {
            assert(w =~= digits);
        }
    }
    assert(unsigned_part(w) == digits);
    assert(neg == (signed(w) && w[0] == '-'));
    if i == to {
        return None;
    }
    let mut v: i64 = 0;
    let mut j = i;
    assert(s@.subrange(i as int, i as int) =~= Seq::<char>::empty());
    while j < to
        invariant
            i <= j <= to <= s@.len(),
            i < to,
            w == s@.subrange(from as int, to as int),
            digits == s@.subrange(i as int, to as int),
            unsigned_part(w) == digits,
            neg == (signed(w) && w[0] == '-'),
            forall|k: int| 0 <= k < j - i ==> is_digit(#[trigger] digits[k]),
            v == digits_value(s@.subrange(i as int, j as int)),
            0 <= v <= 0x8000_0000,
        decreases to - j,
    {
        let c = s[j];
        if !('0' <= c && c <= '9') {
            assert(digits[j - i] == c);
            return None;
        }
        let d = (c as u32 - 48) as i64;
        assert(s@.subrange(i as int, j + 1).drop_last() =~= s@.subrange(i as int, j as int));
        let next = v * 10 + d;
        if next > 0x8000_0000 {
            proof {
                lemma_digits_grow(digits, j + 1 - i);
                assert(digits.take(j + 1 - i) =~= s@.subrange(i as int, j + 1));
            }
            return None;
        }
        v = next;
        j = j + 1;
    }
    let value: i64 = if neg { -v } else { v };
    if value < -0x8000_0000 || value > 0x7fff_ffff {
        return None;
    }
    Some(value as i32)
}

proof fn lemma_digits_grow(s: Seq<char>, k: int)
    requires
        0 <= k <= s.len(),
    ensures
        (forall|i: int| 0 <= i < s.len() ==> is_digit(#[trigger] s[i])) ==> digits_value(s.take(k)) <= digits_value(s),
    decreases s.len() - k,
{
    if k < s.len() {
        lemma_digits_grow(s, k + 1);
        if forall|i: int| 0 <= i < s.len() ==> is_digit(#[trigger] s[i]) {
            assert(s.take(k + 1).drop_last() =~= s.take(k));
            assert(is_digit(s[k]));
            assert(digits_value(s.take(k + 1)) == digits_value(s.take(k)) * 10 + digit_value(s[k]));
            lemma_digits_nonneg(s.take(k));
        }
    } else {
        assert(s.take(k) =~= s);
    }
}

proof fn lemma_digits_nonneg(s: Seq<char>)
    requires
        forall|i: int| 0 <= i < s.len() ==> is_digit(#[trigger] s[i]),
    ensures
        digits_value(s) >= 0,
    decreases s.len(),
{
    if s.len() > 0 {
        assert forall|i: int| 0 <= i < s.drop_last().len() implies is_digit(#[trigger] s.drop_last()[i]) by {
            assert(s.drop_last()[i] == s[i]);
        }
        lemma_digits_nonneg(s.drop_last());
        assert(is_digit(s.last()));
    }
}

/// The audition arguments of the characters `rest`.
fn audition_of(rest: &Vec<char>) -> (r: Audition)
    ensures
        r.view() == audition_args(rest@),
{
    assert(rest@.skip(0) =~= rest@);
    let (a1, b1) = word_at(rest, 0);
    let (a2, b2) = word_at(rest, b1);
    if b1 > a1 && b2 > a2 {
        let w2 = string_of(rest, a2, b2);
        if crate::text::str_eq(w2.as_str(), "ym") || crate::text::str_eq(w2.as_str(), "psg") {
            match parse_i32_range(rest, a1, b1) {
                Some(m) => {
                    if 0 <= m && m < 128 {
                        return Audition::Play { midi: m as u8, instrument: w2 };
                    }
                },
                None => {},
            }
        }
    }
    Audition::Usage
}

/// What a protocol line asks for.
pub fn parse_command(line: &str) -> (r: Command)
    ensures
        r.view() == command_of(line@),
{
    let cs = chars_of(line);
    let k = find_space(&cs, 0);
    assert(cs@.skip(0) =~= cs@);
    let rest_chars: Vec<char> = if k < cs.len() { trim_range(&cs, k + 1) } else { Vec::new() };
    let word = string_of(&cs, 0, k);
    assert(cs@.subrange(0, k as int) =~= cs@.take(k as int));
    let rest = string_of(&rest_chars, 0, rest_chars.len());
    assert(rest_chars@.subrange(0, rest_chars@.len() as int) =~= rest_chars@);
    let w = word.as_str();
    if crate::text::str_eq(w, "load") { Command::Load(rest) }
    else if crate::text::str_eq(w, "play") { Command::Play(rest) }
    else if crate::text::str_eq(w, "audition") { Command::Audition(audition_of(&rest_chars)) }
    else if crate::text::str_eq(w, "preview") { Command::Preview(rest) }
    else if crate::text::str_eq(w, "reload") { Command::Reload(rest) }
    else if crate::text::str_eq(w, "roll") { Command::Roll(rest) }
    else if crate::text::str_eq(w, "stop") { Command::Stop }
    else if crate::text::str_eq(w, "reset") { Command::Reset }
    else if crate::text::str_eq(w, "resume") { Command::Resume }
    else if crate::text::str_eq(w, "loop") { Command::Loop(!crate::text::str_eq(rest.as_str(), "off")) }
    else if k == 0 { Command::Empty }
    else { Command::Unknown(word) }
}

} // verus!
