//! Scores written as text: a lane is a line of space-separated words, each
//! a note name of the vocabulary, a parameter word (`key=value`, several
//! pairs joined by commas), or a reference `@name` to a named block (a
//! voice program or a repeated phrase). Numbers are written as the
//! hexadecimal bit pattern of their single-precision value after `#`; any
//! other value is a string.

use vstd::prelude::*;
use crate::note::{Note, NoteV, ParamValue, ParamValueV, notes_view};
use crate::names::{named_note, note_named};
use crate::params::{setter_spec, try_create_param_setter};
use crate::compose::{try_ser, try_par, ser_defined, ser_items, par_defined, par_items};
use crate::server::string_of;
use crate::text::chars_of;

verus! {

/// Character sequences of a vector of character vectors.
pub open spec fn cvs(v: Seq<Vec<char>>) -> Seq<Seq<char>> {
    v.map_values(|w: Vec<char>| w@)
}

/// The words of `s` so far, and the word being read.
pub open spec fn words_fold(s: Seq<char>) -> (Seq<Seq<char>>, Seq<char>)
    decreases s.len(),
{
    if s.len() == 0 {
        (Seq::empty(), Seq::empty())
    } else {
        let (ws, cur) = words_fold(s.drop_last());
        if s.last() == ' ' {
            if cur.len() > 0 { (ws.push(cur), Seq::empty()) } else { (ws, Seq::empty()) }
        } else {
            (ws, cur.push(s.last()))
        }
    }
}

/// The space-separated words of `s`, in order, none empty.
pub open spec fn words(s: Seq<char>) -> Seq<Seq<char>> {
    let (ws, cur) = words_fold(s);
    if cur.len() > 0 { ws.push(cur) } else { ws }
}

/// The pieces of `s` between separators `sep` so far, and the piece being
/// read.
pub open spec fn pieces_fold(s: Seq<char>, sep: char) -> (Seq<Seq<char>>, Seq<char>)
    decreases s.len(),
{
    if s.len() == 0 {
        (Seq::empty(), Seq::empty())
    } else {
        let (ps, cur) = pieces_fold(s.drop_last(), sep);
        if s.last() == sep { (ps.push(cur), Seq::empty()) } else { (ps, cur.push(s.last())) }
    }
}

/// The pieces of `s` between the separators `sep` (empty pieces kept).
pub open spec fn pieces(s: Seq<char>, sep: char) -> Seq<Seq<char>> {
    let (ps, cur) = pieces_fold(s, sep);
    ps.push(cur)
}

/// The index of the first `c` in `s` (its length when there is none).
pub open spec fn first_index(s: Seq<char>, c: char) -> int
    decreases s.len(),
{
    if s.len() == 0 {
        0
    } else if s[0] == c {
        0
    } else {
        1 + first_index(s.drop_first(), c)
    }
}

/// The value of a hexadecimal digit.
pub open spec fn hex_digit(c: char) -> Option<nat> {
    if '0' <= c <= '9' {
        Some((c as nat - '0' as nat) as nat)
    } else if 'a' <= c <= 'f' {
        Some((c as nat - 'a' as nat + 10) as nat)
    } else if 'A' <= c <= 'F' {
        Some((c as nat - 'A' as nat + 10) as nat)
    } else {
        None
    }
}

/// The value of a string of hexadecimal digits.
pub open spec fn hex_value(s: Seq<char>) -> Option<nat>
    decreases s.len(),
{
    if s.len() == 0 {
        Some(0)
    } else {
        match (hex_value(s.drop_last()), hex_digit(s.last())) {
            (Some(v), Some(d)) => Some(v * 16 + d),
            _ => None,
        }
    }
}

/// The value a parameter word gives: `#` and one to eight hexadecimal
/// digits is a number's bit pattern; anything else is a string.
pub open spec fn value_of(v: Seq<char>) -> ParamValueV {
    if 2 <= v.len() <= 9 && v[0] == '#' && hex_value(v.drop_first()) is Some {
        ParamValueV::Number(hex_value(v.drop_first())->Some_0 as u32)
    } else {
        ParamValueV::String(v)
    }
}

/// The setter of one `key=value` pair.
pub open spec fn pair_note(p: Seq<char>) -> Option<NoteV> {
    let k = first_index(p, '=');
    if k >= p.len() {
        None
    } else {
        match setter_spec(p.take(k), value_of(p.skip(k + 1)), None) {
            Ok(n) => Some(n),
            Err(_) => None,
        }
    }
}

/// The setters of the pairs, in order.
pub open spec fn pair_notes(ps: Seq<Seq<char>>) -> Option<Seq<NoteV>>
    decreases ps.len(),
{
    if ps.len() == 0 {
        Some(Seq::empty())
    } else {
        match (pair_notes(ps.drop_last()), pair_note(ps.last())) {
            (Some(ns), Some(n)) => Some(ns.push(n)),
            _ => None,
        }
    }
}

/// A parameter word: one pair gives its setter, several a serial block
/// of their setters.
pub open spec fn param_note(w: Seq<char>) -> Option<NoteV> {
    match pair_notes(pieces(w, ',')) {
        Some(ns) => if ns.len() == 1 { Some(ns[0]) } else { Some(NoteV::Serial(ns)) },
        None => None,
    }
}

/// A sequence of notes resolved as `ser` resolves it.
pub open spec fn ser_note(items: Seq<NoteV>) -> Option<NoteV> {
    if ser_defined(items, false) { Some(NoteV::Serial(ser_items(items, false))) } else { None }
}

/// The value of a string of decimal digits.
pub open spec fn dec_value(s: Seq<char>) -> Option<nat>
    decreases s.len(),
{
    if s.len() == 0 {
        Some(0)
    } else {
        match dec_value(s.drop_last()) {
            Some(v) => if '0' <= s.last() <= '9' { Some((v * 10 + (s.last() as nat - '0' as nat)) as nat) } else { None },
            None => None,
        }
    }
}

/// A comment's text: `+` stands for a space.
pub open spec fn comment_text(s: Seq<char>) -> Seq<char> {
    s.map_values(|c: char| if c == '+' { ' ' } else { c })
}

/// The note of a word that is not a block reference: a parameter word, a
/// repeat marker `%n` (one to three digits), a comment `~text`, or a note
/// name.
pub open spec fn plain_word_note(w: Seq<char>) -> Option<NoteV> {
    if first_index(w, '=') < w.len() {
        param_note(w)
    } else if w.len() > 0 && w[0] == '%' {
        if 2 <= w.len() <= 4 && dec_value(w.drop_first()) is Some {
            Some(NoteV::RepeatMarker(dec_value(w.drop_first())->Some_0 as usize))
        } else {
            None
        }
    } else if w.len() > 0 && w[0] == '~' {
        Some(NoteV::Comment(comment_text(w.drop_first())))
    } else {
        named_note(w)
    }
}

/// The notes of words without block references.
pub open spec fn plain_notes(ws: Seq<Seq<char>>) -> Option<Seq<NoteV>>
    decreases ws.len(),
{
    if ws.len() == 0 {
        Some(Seq::empty())
    } else {
        match (plain_notes(ws.drop_last()), plain_word_note(ws.last())) {
            (Some(ns), Some(n)) => Some(ns.push(n)),
            _ => None,
        }
    }
}

/// A block: the words of its text resolved as a sequence.
pub open spec fn block_note(text: Seq<char>) -> Option<NoteV> {
    match plain_notes(words(text)) {
        Some(ns) => ser_note(ns),
        None => None,
    }
}

/// The note of a word of a lane whose named blocks are `blocks`.
pub open spec fn lane_word_note(w: Seq<char>, blocks: spec_fn(Seq<char>) -> Option<Seq<char>>) -> Option<NoteV> {
    if w.len() > 0 && w[0] == '@' {
        match blocks(w.drop_first()) {
            Some(t) => block_note(t),
            None => None,
        }
    } else {
        plain_word_note(w)
    }
}

/// The notes of the words of a lane.
pub open spec fn lane_notes(ws: Seq<Seq<char>>, blocks: spec_fn(Seq<char>) -> Option<Seq<char>>) -> Option<Seq<NoteV>>
    decreases ws.len(),
{
    if ws.len() == 0 {
        Some(Seq::empty())
    } else {
        match (lane_notes(ws.drop_last(), blocks), lane_word_note(ws.last(), blocks)) {
            (Some(ns), Some(n)) => Some(ns.push(n)),
            _ => None,
        }
    }
}

/// The words of a text written in several pieces, one after another.
pub open spec fn chunk_words(chunks: Seq<Seq<char>>) -> Seq<Seq<char>>
    decreases chunks.len(),
{
    if chunks.len() == 0 {
        Seq::empty()
    } else {
        chunk_words(chunks.drop_last()) + words(chunks.last())
    }
}

/// A lane, written in pieces: its words resolved as a sequence.
pub open spec fn lane_note(chunks: Seq<Seq<char>>, blocks: spec_fn(Seq<char>) -> Option<Seq<char>>) -> Option<NoteV> {
    match lane_notes(chunk_words(chunks), blocks) {
        Some(ns) => ser_note(ns),
        None => None,
    }
}

/// The notes of the lanes.
pub open spec fn lanes_notes(lanes: Seq<Seq<Seq<char>>>, blocks: spec_fn(Seq<char>) -> Option<Seq<char>>) -> Option<Seq<NoteV>>
    decreases lanes.len(),
{
    if lanes.len() == 0 {
        Some(Seq::empty())
    } else {
        match (lanes_notes(lanes.drop_last(), blocks), lane_note(lanes.last(), blocks)) {
            (Some(ns), Some(n)) => Some(ns.push(n)),
            _ => None,
        }
    }
}

/// A song: the head's parameter word, then the lanes, played in parallel;
/// an empty parallel block where some word or lane does not resolve.
pub open spec fn song_of(head: Seq<char>, lanes: Seq<Seq<Seq<char>>>, blocks: spec_fn(Seq<char>) -> Option<Seq<char>>) -> NoteV {
    match (param_note(head), lanes_notes(lanes, blocks)) {
        (Some(h), Some(ls)) => {
            let items = seq![h] + ls;
            if par_defined(items) { NoteV::Parallel(par_items(items)) } else { NoteV::Parallel(Seq::empty()) }
        },
        _ => NoteV::Parallel(Seq::empty()),
    }
}

// ---------------------------------------------------------------------------
// Reading
// ---------------------------------------------------------------------------

/// The words of `cs`.
pub fn words_of(cs: &Vec<char>) -> (r: Vec<Vec<char>>)
    ensures
        cvs(r@) == words(cs@),
{
    let mut ws: Vec<Vec<char>> = Vec::new();
    let mut cur: Vec<char> = Vec::new();
    let n = cs.len();
    assert(cs@.take(0) =~= Seq::<char>::empty());
    assert(cvs(ws@) =~= Seq::<Seq<char>>::empty());
    for i in 0..n
        invariant
            n == cs@.len(),
            (cvs(ws@), cur@) == words_fold(cs@.take(i as int)),
    {
        let c = cs[i];
        assert(cs@.take(i + 1).drop_last() =~= cs@.take(i as int));
        assert(cs@.take(i + 1).last() == c);
        if c == ' ' {
            if cur.len() > 0 {
                let ghost before = cvs(ws@);
                let w = cur;
                ws.push(w);
                cur = Vec::new();
                assert(cvs(ws@) =~= before.push(w@));
            } else {
                cur = Vec::new();
            }
            assert(cur@ =~= Seq::<char>::empty());
        } else {
            cur.push(c);
        }
    }
    assert(cs@.take(n as int) =~= cs@);
    if cur.len() > 0 {
        let ghost before = cvs(ws@);
        let w = cur;
        ws.push(w);
        assert(cvs(ws@) =~= before.push(w@));
    }
    ws
}

/// The character sequences of string slices.
pub open spec fn strs(v: Seq<&str>) -> Seq<Seq<char>> {
    v.map_values(|s: &str| s@)
}

/// The words of a text written in the pieces `chunks`.
pub fn words_of_chunks(chunks: &Vec<&'static str>) -> (r: Vec<Vec<char>>)
    ensures
        cvs(r@) == chunk_words(strs(chunks@)),
{
    let ghost cv = strs(chunks@);
    let mut ws: Vec<Vec<char>> = Vec::new();
    assert(cv.take(0) =~= Seq::<Seq<char>>::empty());
    assert(cvs(ws@) =~= Seq::<Seq<char>>::empty());
    let n = chunks.len();
    for i in 0..n
        invariant
            n == chunks@.len(),
            cv == strs(chunks@),
            cvs(ws@) == chunk_words(cv.take(i as int)),
    {
        assert(cv.take(i + 1).drop_last() =~= cv.take(i as int));
        assert(cv.take(i + 1).last() == chunks@[i as int]@);
        let cs = chars_of(chunks[i]);
        let mut more = words_of(&cs);
        let ghost before = cvs(ws@);
        let ghost extra = cvs(more@);
        ws.append(&mut more);
        assert(cvs(ws@) =~= before + extra);
    }
    assert(cv.take(n as int) =~= cv);
    ws
}

/// The pieces of `cs` between separators `sep`.
fn pieces_of(cs: &Vec<char>, sep: char) -> (r: Vec<Vec<char>>)
    ensures
        cvs(r@) == pieces(cs@, sep),
{
    let mut ps: Vec<Vec<char>> = Vec::new();
    let mut cur: Vec<char> = Vec::new();
    let n = cs.len();
    assert(cs@.take(0) =~= Seq::<char>::empty());
    assert(cvs(ps@) =~= Seq::<Seq<char>>::empty());
    for i in 0..n
        invariant
            n == cs@.len(),
            (cvs(ps@), cur@) == pieces_fold(cs@.take(i as int), sep),
    {
        let c = cs[i];
        assert(cs@.take(i + 1).drop_last() =~= cs@.take(i as int));
        assert(cs@.take(i + 1).last() == c);
        if c == sep {
            let ghost before = cvs(ps@);
            let w = cur;
            ps.push(w);
            cur = Vec::new();
            assert(cvs(ps@) =~= before.push(w@));
            assert(cur@ =~= Seq::<char>::empty());
        } else {
            cur.push(c);
        }
    }
    assert(cs@.take(n as int) =~= cs@);
    let ghost before = cvs(ps@);
    let w = cur;
    ps.push(w);
    assert(cvs(ps@) =~= before.push(w@));
    ps
}

proof fn lemma_first_index(s: Seq<char>, c: char, k: int)
    requires
        0 <= k <= s.len(),
        forall|j: int| 0 <= j < k ==> s[j] != c,
        k == s.len() || s[k] == c,
    ensures
        first_index(s, c) == k,
    decreases k,
{
    if k > 0 {
        lemma_first_index(s.drop_first(), c, k - 1);
    }
}

/// The index of the first `c` in `cs`.
fn first_index_of(cs: &Vec<char>, c: char) -> (r: usize)
    ensures
        r == first_index(cs@, c),
{
    let mut i: usize = 0;
    while i < cs.len()
        invariant
            i <= cs@.len(),
            forall|j: int| 0 <= j < i ==> cs@[j] != c,
        decreases cs@.len() - i,
    {
        if cs[i] == c {
            proof { lemma_first_index(cs@, c, i as int); }
            return i;
        }
        i = i + 1;
    }
    proof { lemma_first_index(cs@, c, i as int); }
    i
}

fn hex_digit_of(c: char) -> (r: Option<u64>)
    ensures
        match r {
            Some(d) => hex_digit(c) == Some(d as nat) && d < 16,
            None => hex_digit(c) is None,
        },
{
    if '0' <= c && c <= '9' {
        Some((c as u32 - '0' as u32) as u64)
    } else if 'a' <= c && c <= 'f' {
        Some((c as u32 - 'a' as u32 + 10) as u64)
    } else if 'A' <= c && c <= 'F' {
        Some((c as u32 - 'A' as u32 + 10) as u64)
    } else {
        None
    }
}

pub open spec fn pow16(n: nat) -> nat
    decreases n,
{
    if n == 0 { 1 } else { 16 * pow16((n - 1) as nat) }
}

/// The value a parameter word gives.
fn value_from(v: &Vec<char>) -> (r: ParamValue)
    ensures
        r.view() == value_of(v@),
{
    let n = v.len();
    if 2 <= n && n <= 9 && v[0] == '#' {
        let ghost d = v@.drop_first();
        let mut acc: u64 = 0;
        let mut i: usize = 1;
        while i < n
            invariant
                1 <= i <= n <= 9,
                n == v@.len(),
                d == v@.drop_first(),
                hex_value(d.take(i - 1)) == Some(acc as nat),
                acc < pow16((i - 1) as nat),
            decreases n - i,
        {
            assert(d.take(i as int).drop_last() =~= d.take(i - 1));
            assert(d.take(i as int).last() == v@[i as int]);
            match hex_digit_of(v[i]) {
                Some(x) => {
                    assert(pow16((i - 1) as nat) <= 0x1000_0000) by {
                        reveal_with_fuel(pow16, 9);
                    }
                    acc = acc * 16 + x;
                    i = i + 1;
                },
                None => {
                    proof {
                        assert(d[i - 1] == v@[i as int]);
                        lemma_hex_prefix_none(d, i as int);
                        assert(v@.subrange(0, n as int) =~= v@);
                    }
                    return ParamValue::String(string_of(v, 0, n));
                },
            }
        }
        assert(d.take(n - 1) =~= d);
        assert(pow16(8) == 0x1_0000_0000) by {
            reveal_with_fuel(pow16, 9);
        }
        assert(acc < 0x1_0000_0000) by {
            lemma_pow16_mono((n - 1) as nat, 8);
        }
        return ParamValue::Number(acc as u32);
    }
    assert(v@.subrange(0, n as int) =~= v@);
    ParamValue::String(string_of(v, 0, n))
}

proof fn lemma_pow16_mono(a: nat, b: nat)
    requires
        a <= b,
    ensures
        pow16(a) <= pow16(b),
    decreases b,
{
    if a < b {
        lemma_pow16_mono(a, (b - 1) as nat);
    }
}

proof fn lemma_hex_prefix_none(d: Seq<char>, i: int)
    requires
        1 <= i <= d.len(),
        hex_digit(d[i - 1]) is None,
    ensures
        hex_value(d) is None,
    decreases d.len(),
{
    if d.len() > i {
        lemma_hex_prefix_none(d.drop_last(), i);
    } else {
        assert(d.last() == d[i - 1]);
    }
}

/// The setter of one `key=value` pair.
fn pair_note_of(p: &Vec<char>) -> (r: Option<Note>)
    ensures
        match r {
            Some(n) => pair_note(p@) == Some(n@),
            None => pair_note(p@) is None,
        },
{
    let k = first_index_of(p, '=');
    if k >= p.len() {
        return None;
    }
    let key = string_of(p, 0, k);
    assert(p@.subrange(0, k as int) =~= p@.take(k as int));
    let mut rest: Vec<char> = Vec::new();
    let mut j = k + 1;
    while j < p.len()
        invariant
            k < j <= p@.len(),
            rest@ == p@.subrange(k + 1, j as int),
        decreases p@.len() - j,
    {
        rest.push(p[j]);
        assert(rest@ =~= p@.subrange(k + 1, j + 1));
        j = j + 1;
    }
    assert(rest@ =~= p@.skip(k + 1));
    let value = value_from(&rest);
    match try_create_param_setter(key.as_str(), value, None) {
        Ok(n) => Some(n),
        Err(_) => None,
    }
}

/// A parameter word's note.
pub(crate) fn param_note_of(w: &Vec<char>) -> (r: Option<Note>)
    ensures
        match r {
            Some(n) => param_note(w@) == Some(n@),
            None => param_note(w@) is None,
        },
{
    let ps = pieces_of(w, ',');
    let ghost pv = cvs(ps@);
    let mut ns: Vec<Note> = Vec::new();
    let n = ps.len();
    assert(pv.take(0) =~= Seq::<Seq<char>>::empty());
    assert(notes_view(ns@) =~= Seq::<NoteV>::empty());
    for i in 0..n
        invariant
            n == ps@.len(),
            pv == cvs(ps@),
            pv == pieces(w@, ','),
            pair_notes(pv.take(i as int)) == Some(notes_view(ns@)),
    {
        assert(pv.take(i + 1).drop_last() =~= pv.take(i as int));
        assert(pv.take(i + 1).last() == ps@[i as int]@);
        match pair_note_of(&ps[i]) {
            Some(x) => {
                let ghost before = notes_view(ns@);
                ns.push(x);
                assert(notes_view(ns@) =~= before.push(x@));
            },
            None => {
                proof {
                    lemma_pairs_none(pv, i + 1);
                    assert(pair_notes(pv) is None);
                    assert(pv == pieces(w@, ','));
                }
                return None;
            },
        }
    }
    assert(pv.take(n as int) =~= pv);
    if ns.len() == 1 {
        let x = ns.pop().unwrap();
        Some(x)
    } else {
        Some(Note::Serial(ns))
    }
}

proof fn lemma_pairs_none(ps: Seq<Seq<char>>, i: int)
    requires
        0 <= i <= ps.len(),
        pair_notes(ps.take(i)) is None,
    ensures
        pair_notes(ps) is None,
    decreases ps.len() - i,
{
    if i < ps.len() {
        assert(ps.take(i + 1).drop_last() =~= ps.take(i));
        lemma_pairs_none(ps, i + 1);
    } else {
        assert(ps.take(i) =~= ps);
    }
}

proof fn lemma_dec_none_grows(d: Seq<char>, i: int)
    requires
        0 <= i <= d.len(),
        dec_value(d.take(i)) is None,
    ensures
        dec_value(d) is None,
    decreases d.len() - i,
{
    if i < d.len() {
        assert(d.take(i + 1).drop_last() =~= d.take(i));
        lemma_dec_none_grows(d, i + 1);
    } else {
        assert(d.take(i) =~= d);
    }
}

/// A repeat marker word `%n`.
fn repeat_note_of(w: &Vec<char>) -> (r: Option<Note>)
    requires
        w@.len() > 0,
        w@[0] == '%',
    ensures
        match r {
            Some(n) => 2 <= w@.len() <= 4 && dec_value(w@.drop_first()) is Some
                && n@ == NoteV::RepeatMarker(dec_value(w@.drop_first())->Some_0 as usize),
            None => !(2 <= w@.len() <= 4 && dec_value(w@.drop_first()) is Some),
        },
{
    let n = w.len();
    if n < 2 || n > 4 {
        return None;
    }
    let ghost d = w@.drop_first();
    let mut acc: usize = 0;
    let mut i: usize = 1;
    while i < n
        invariant
            1 <= i <= n <= 4,
            n == w@.len(),
            d == w@.drop_first(),
            dec_value(d.take(i - 1)) == Some(acc as nat),
            acc < (if i == 1 { 1usize } else if i == 2 { 10 } else if i == 3 { 100 } else { 1000 }),
        decreases n - i,
    {
        assert(d.take(i as int).drop_last() =~= d.take(i - 1));
        assert(d.take(i as int).last() == w@[i as int]);
        let c = w[i];
        if '0' <= c && c <= '9' {
            acc = acc * 10 + (c as u32 - '0' as u32) as usize;
            i = i + 1;
        } else {
            proof {
                assert(!(dec_value(d.take(i as int)) is Some));
                lemma_dec_none_grows(d, i as int);
            }
            return None;
        }
    }
    assert(d.take(n - 1) =~= d);
    Some(Note::RepeatMarker(acc))
}

/// A comment word `~text`.
fn comment_note_of(w: &Vec<char>) -> (r: Note)
    requires
        w@.len() > 0,
    ensures
        r@ == NoteV::Comment(comment_text(w@.drop_first())),
{
    let mut cs: Vec<char> = Vec::new();
    let mut i: usize = 1;
    while i < w.len()
        invariant
            1 <= i <= w@.len(),
            cs@ == comment_text(w@.drop_first().take(i - 1)),
        decreases w@.len() - i,
    {
        let c = w[i];
        cs.push(if c == '+' { ' ' } else { c });
        assert(cs@ =~= comment_text(w@.drop_first().take(i as int)));
        i = i + 1;
    }
    assert(w@.drop_first().take(i - 1) =~= w@.drop_first());
    let text = string_of(&cs, 0, cs.len());
    assert(cs@.subrange(0, cs@.len() as int) =~= cs@);
    Note::Comment(text)
}

/// The note of a word that is not a block reference.
pub(crate) fn plain_word_note_of(w: &Vec<char>) -> (r: Option<Note>)
    ensures
        match r {
            Some(n) => plain_word_note(w@) == Some(n@),
            None => plain_word_note(w@) is None,
        },
{
    if first_index_of(w, '=') < w.len() {
        param_note_of(w)
    } else if w.len() > 0 && w[0] == '%' {
        repeat_note_of(w)
    } else if w.len() > 0 && w[0] == '~' {
        Some(comment_note_of(w))
    } else {
        let name = string_of(w, 0, w.len());
        assert(w@.subrange(0, w@.len() as int) =~= w@);
        note_named(name.as_str())
    }
}

/// A block's note.
pub fn block_note_of(text: &str) -> (r: Option<Note>)
    ensures
        match r {
            Some(n) => block_note(text@) == Some(n@),
            None => block_note(text@) is None,
        },
{
    let cs = chars_of(text);
    let ws = words_of(&cs);
    let ghost wv = cvs(ws@);
    let mut ns: Vec<Note> = Vec::new();
    let n = ws.len();
    assert(wv.take(0) =~= Seq::<Seq<char>>::empty());
    assert(notes_view(ns@) =~= Seq::<NoteV>::empty());
    for i in 0..n
        invariant
            n == ws@.len(),
            wv == cvs(ws@),
            wv == words(text@),
            plain_notes(wv.take(i as int)) == Some(notes_view(ns@)),
    {
        assert(wv.take(i + 1).drop_last() =~= wv.take(i as int));
        assert(wv.take(i + 1).last() == ws@[i as int]@);
        match plain_word_note_of(&ws[i]) {
            Some(x) => {
                let ghost before = notes_view(ns@);
                ns.push(x);
                assert(notes_view(ns@) =~= before.push(x@));
            },
            None => {
                proof { lemma_plain_none(wv, i + 1); }
                return None;
            },
        }
    }
    assert(wv.take(n as int) =~= wv);
    try_ser(ns)
}

proof fn lemma_plain_none(ws: Seq<Seq<char>>, i: int)
    requires
        0 <= i <= ws.len(),
        plain_notes(ws.take(i)) is None,
    ensures
        plain_notes(ws) is None,
    decreases ws.len() - i,
{
    if i < ws.len() {
        assert(ws.take(i + 1).drop_last() =~= ws.take(i));
        lemma_plain_none(ws, i + 1);
    } else {
        assert(ws.take(i) =~= ws);
    }
}

} // verus!
