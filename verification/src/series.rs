//! Seeded processes and integer series: the deterministic LCG, random
//! walks, Markov chains, twelve-tone row forms, Schillinger interference,
//! Lindenmayer systems and the infinity series.

use vstd::prelude::*;
use std::collections::HashMap;
use crate::text::{chars_of, push_char, push_str, to_owned_string};

verus! {

broadcast use vstd::std_specs::hash::group_hash_axioms;

/// Multiplier of the linear congruential generator.
pub const LCG_MUL: u64 = 6364136223846793005u64;
/// Increment of the linear congruential generator.
pub const LCG_INC: u64 = 1442695040888963407u64;
/// Offset added to every seed before the first step.
pub const SEED_OFFSET: u64 = 0x9E3779B97F4A7C15u64;

/// One step of the generator state.
#[verifier::opaque]
pub open spec fn lcg_advance(s: u64) -> u64 {
    vstd::wrapping::u64_specs::wrapping_add(vstd::wrapping::u64_specs::wrapping_mul(s, LCG_MUL), LCG_INC)
}

/// The value drawn by a step: the high bits of the new state.
pub open spec fn lcg_out(s: u64) -> u64 {
    lcg_advance(s) >> 33u64
}

/// The initial state for a seed.
pub open spec fn seeded(seed: u64) -> u64 {
    vstd::wrapping::u64_specs::wrapping_add(seed, SEED_OFFSET)
}

/// Advance the generator and draw a value below 2^31.
pub fn lcg_next(state: &mut u64) -> (r: u64)
    ensures
        *final(state) == lcg_advance(*old(state)),
        r == lcg_out(*old(state)),
        r < 0x8000_0000,
{
    proof { reveal(lcg_advance); }
    *state = state.wrapping_mul(LCG_MUL).wrapping_add(LCG_INC);
    let r = *state >> 33u64;
    assert(*state >> 33u64 < 0x8000_0000u64) by (bit_vector);
    r
}

/// The initial generator state for `seed`.
pub fn seed_state(seed: u64) -> (r: u64)
    ensures
        r == seeded(seed),
{
    seed.wrapping_add(SEED_OFFSET)
}

// --- random walk ---

/// Remainder truncated toward zero, as Rust's `%` on signed integers.
pub open spec fn trunc_rem(a: int, b: int) -> int {
    if a >= 0 { a % b } else { -((-a) % b) }
}

pub open spec fn clamp_pitch(p: int) -> int {
    if p < 0 { 0 } else if p > 127 { 127 } else { p }
}

/// Width of the step range of a walk.
pub open spec fn walk_span(step_max: i8) -> int {
    let s = 2 * step_max + 1;
    if s < 1 { 1 } else { s }
}

/// One step drawn from the value `out`.
pub open spec fn walk_step(out: u64, step_max: i8) -> int {
    trunc_rem(((out as i16) as int), walk_span(step_max)) - step_max
}

/// `len` pitches of a walk from `pitch` with the generator at `state`.
pub open spec fn walk_seq(pitch: int, state: u64, step_max: i8, len: nat) -> Seq<u8>
    decreases len,
{
    if len == 0 {
        Seq::empty()
    } else {
        let p = clamp_pitch(pitch + walk_step(lcg_out(state), step_max));
        seq![p as u8] + walk_seq(p, lcg_advance(state), step_max, (len - 1) as nat)
    }
}

fn walk_step_exec(drawn: u64, step_max: i8, span: i16) -> (r: i32)
    requires
        span == walk_span(step_max),
    ensures
        r == walk_step(drawn, step_max),
        -400 < r < 400,
{
    let t: i32 = (drawn as i16) as i32;
    let rem: i32 = if t >= 0 { t % (span as i32) } else { -((-t) % (span as i32)) };
    rem - step_max as i32
}

fn clamp_exec(p: i32) -> (r: i16)
    ensures
        r == clamp_pitch(p as int),
{
    if p < 0 { 0 } else if p > 127 { 127 } else { p as i16 }
}

/// Random walk: `len` pitches, each the previous one moved by a seeded
/// step in `-step_max..=step_max` (remainder of the drawn value, read as
/// an `i16`) and clamped to 0..=127.
pub fn walk(start: u8, step_max: i8, len: usize, seed: u64) -> (r: Vec<u8>)
    ensures
        r@ == walk_seq(start as int, seeded(seed), step_max, len as nat),
{
    let mut state = seed_state(seed);
    let mut pitch: i16 = start as i16;
    let span2: i16 = 2 * step_max as i16 + 1;
    let span: i16 = if span2 < 1 { 1 } else { span2 };
    let mut out: Vec<u8> = Vec::new();
    for i in 0..len
        invariant
            span == walk_span(step_max),
            0 <= pitch <= 255,
            out@ + walk_seq(pitch as int, state, step_max, (len - i) as nat) == walk_seq(start as int, seeded(seed), step_max, len as nat),
    {
        let ghost st0 = state;
        let ghost p0 = pitch as int;
        let drawn = lcg_next(&mut state);
        let step = walk_step_exec(drawn, step_max, span);
        pitch = clamp_exec(pitch as i32 + step);
        let ghost rest = walk_seq(pitch as int, state, step_max, (len - i - 1) as nat);
        assert(walk_seq(p0, st0, step_max, (len - i) as nat) == seq![pitch as u8] + rest);
        let ghost before = out@;
        out.push(pitch as u8);
        assert(out@ + rest =~= before + (seq![pitch as u8] + rest));
    }
    assert(out@ + walk_seq(pitch as int, state, step_max, 0) =~= out@);
    out
}

// --- Markov chain ---

/// The pitches that follow `k` in the corpus, in corpus order.
pub open spec fn successors(corpus: Seq<u8>, k: u8) -> Seq<u8>
    decreases corpus.len(),
{
    if corpus.len() < 2 {
        Seq::empty()
    } else {
        let prefix = successors(corpus.drop_last(), k);
        if corpus[corpus.len() - 2] == k { prefix.push(corpus.last()) } else { prefix }
    }
}

/// `len` pitches of the chain from `current` with the generator at `state`:
/// the next pitch is a seeded pick among the successors of the current one,
/// or among the whole corpus when it has none.
pub open spec fn markov_seq(corpus: Seq<u8>, current: u8, state: u64, len: nat) -> Seq<u8>
    decreases len,
{
    if len == 0 {
        Seq::empty()
    } else {
        let succ = successors(corpus, current);
        let drawn = lcg_out(state) as int;
        let next = if succ.len() > 0 { succ[drawn % succ.len() as int] } else { corpus[drawn % corpus.len() as int] };
        seq![current] + markov_seq(corpus, next, lcg_advance(state), (len - 1) as nat)
    }
}

/// The chain generated by `markov`.
pub open spec fn markov_spec(corpus: Seq<u8>, len: nat, seed: u64) -> Seq<u8> {
    if corpus.len() == 0 || len == 0 {
        Seq::empty()
    } else {
        let s0 = seeded(seed);
        let first = corpus[(lcg_out(s0) as int) % corpus.len() as int];
        markov_seq(corpus, first, lcg_advance(s0), len)
    }
}

fn transitions(corpus: &[u8]) -> (m: HashMap<u8, Vec<u8>>)
    ensures
        forall|k: u8| successors(corpus@, k).len() > 0 <==> #[trigger] m@.contains_key(k),
        forall|k: u8| m@.contains_key(k) ==> (#[trigger] m@[k])@ == successors(corpus@, k),
{
    let mut m: HashMap<u8, Vec<u8>> = HashMap::new();
    let n = corpus.len();
    if n < 2 {
        assert forall|k: u8| successors(corpus@, k).len() == 0 by {}
        return m;
    }
    for i in 0..n - 1
        invariant
            n == corpus@.len(),
            n >= 2,
            forall|k: u8| successors(corpus@.take(i + 1), k).len() > 0 <==> #[trigger] m@.contains_key(k),
            forall|k: u8| m@.contains_key(k) ==> (#[trigger] m@[k])@ == successors(corpus@.take(i + 1), k),
    {
        let k = corpus[i];
        let x = corpus[i + 1];
        let mut v = match m.remove(&k) {
            Some(v) => v,
            None => Vec::new(),
        };
        v.push(x);
        m.insert(k, v);
        proof {
            let t = corpus@.take(i + 2);
            assert(t.drop_last() =~= corpus@.take(i + 1));
            assert(t[t.len() - 2] == k && t.last() == x);
            assert forall|j: u8| successors(t, j).len() > 0 <==> #[trigger] m@.contains_key(j) by {
                if j != k {
                    assert(successors(t, j) == successors(corpus@.take(i + 1), j));
                }
            }
            assert forall|j: u8| m@.contains_key(j) implies (#[trigger] m@[j])@ == successors(t, j) by {
                if j != k {
                    assert(successors(t, j) == successors(corpus@.take(i + 1), j));
                }
            }
        }
    }
    assert(corpus@.take(n as int) =~= corpus@);
    m
}

/// First-order Markov chain over a corpus of pitches: a seeded start
/// pitch, then each next pitch drawn among the successors of the current
/// one (or the whole corpus when it has none).
pub fn markov(corpus: &[u8], len: usize, seed: u64) -> (r: Vec<u8>)
    ensures
        r@ == markov_spec(corpus@, len as nat, seed),
{
    if corpus.len() == 0 || len == 0 {
        return Vec::new();
    }
    let trans = transitions(corpus);
    let mut state = seed_state(seed);
    let first = lcg_next(&mut state);
    let mut current = corpus[(first as usize) % corpus.len()];
    let mut out: Vec<u8> = Vec::new();
    for i in 0..len
        invariant
            corpus@.len() > 0,
            forall|k: u8| successors(corpus@, k).len() > 0 <==> #[trigger] trans@.contains_key(k),
            forall|k: u8| trans@.contains_key(k) ==> (#[trigger] trans@[k])@ == successors(corpus@, k),
            out@ + markov_seq(corpus@, current, state, (len - i) as nat) == markov_spec(corpus@, len as nat, seed),
    {
        let ghost st0 = state;
        let ghost c0 = current;
        let ghost rest_len = (len - i - 1) as nat;
        let drawn = lcg_next(&mut state);
        let next = match trans.get(&current) {
            Some(succ) if succ.len() > 0 => succ[(drawn as usize) % succ.len()],
            _ => corpus[(drawn as usize) % corpus.len()],
        };
        proof {
            if trans@.contains_key(c0) {
                assert(trans@[c0]@ == successors(corpus@, c0));
            } else {
                assert(successors(corpus@, c0).len() == 0);
            }
            assert(markov_seq(corpus@, c0, st0, (len - i) as nat) == seq![c0] + markov_seq(corpus@, next, state, rest_len));
        }
        let ghost before = out@;
        out.push(current);
        current = next;
        assert(out@ + markov_seq(corpus@, current, state, rest_len) =~= before + (seq![c0] + markov_seq(corpus@, current, state, rest_len)));
    }
    assert(out@ + markov_seq(corpus@, current, state, 0) =~= out@);
    out
}

// --- twelve-tone rows ---

/// The inversion of a pitch class: `(24 - p) % 12`.
pub open spec fn invert_class(p: u8) -> u8 {
    ((24 - p) % 12) as u8
}

/// Twelve-tone row forms: prime, retrograde, inversion and retrograde
/// inversion of a row of twelve pitch classes.
pub fn twelve_tone(row: &[u8]) -> (r: [Vec<u8>; 4])
    requires
        row@.len() == 12,
        forall|i: int| 0 <= i < 12 ==> row@[i] <= 24,
    ensures
        r@[0]@ == row@,
        r@[1]@ == row@.reverse(),
        r@[2]@ == row@.map_values(|p: u8| invert_class(p)),
        r@[3]@ == row@.map_values(|p: u8| invert_class(p)).reverse(),
        forall|i: int| 0 <= i < 12 ==> (r@[0]@[i] + #[trigger] r@[2]@[i]) % 12 == 0 && r@[2]@[i] < 12,
        forall|i: int| 0 <= i < 12 ==> (r@[1]@[i] + #[trigger] r@[3]@[i]) % 12 == 0 && r@[3]@[i] < 12,
{
    let mut prime: Vec<u8> = Vec::new();
    let mut inversion: Vec<u8> = Vec::new();
    for i in 0..12
        invariant
            row@.len() == 12,
            forall|j: int| 0 <= j < 12 ==> row@[j] <= 24,
            prime@ == row@.take(i as int),
            inversion@ == row@.take(i as int).map_values(|p: u8| invert_class(p)),
    {
        prime.push(row[i]);
        inversion.push((24 - row[i]) % 12);
        assert(prime@ =~= row@.take(i + 1));
        assert(inversion@ =~= row@.take(i + 1).map_values(|p: u8| invert_class(p)));
    }
    assert(row@.take(12) =~= row@);
    let mut retrograde: Vec<u8> = Vec::new();
    let mut retrograde_inversion: Vec<u8> = Vec::new();
    for i in 0..12
        invariant
            prime@ == row@,
            row@.len() == 12,
            inversion@.len() == 12,
            retrograde@ == prime@.reverse().take(i as int),
            retrograde_inversion@ == inversion@.reverse().take(i as int),
    {
        retrograde.push(prime[11 - i]);
        retrograde_inversion.push(inversion[11 - i]);
        assert(retrograde@ =~= prime@.reverse().take(i + 1));
        assert(retrograde_inversion@ =~= inversion@.reverse().take(i + 1));
    }
    assert(prime@.reverse().take(12) =~= prime@.reverse());
    assert(inversion@.reverse().take(12) =~= inversion@.reverse());
    proof {
        crate::laws::law_twelve_tone_inversion_mirrors(row@);
    }
    [prime, retrograde, inversion, retrograde_inversion]
}

// --- Schillinger interference ---

/// Euclid's algorithm.
pub open spec fn gcd_euclid(a: nat, b: nat) -> nat
    decreases b,
{
    if b == 0 { a } else { gcd_euclid(b, a % b) }
}

/// The greatest common divisor, at least 1.
pub open spec fn gcd_spec(a: u32, b: u32) -> u32 {
    let g = gcd_euclid(a as nat, b as nat);
    if g < 1 { 1 } else { g as u32 }
}

pub proof fn lemma_gcd_bound(a: nat, b: nat)
    ensures
        gcd_euclid(a, b) <= if a > b { a } else { b },
        a > 0 || b > 0 ==> gcd_euclid(a, b) > 0,
    decreases b,
{
    if b > 0 {
        lemma_gcd_bound(b, a % b);
    }
}

/// Greatest common divisor by Euclid's algorithm (1 when both are 0).
pub fn gcd(a: u32, b: u32) -> (r: u32)
    ensures
        r == gcd_spec(a, b),
        r >= 1,
{
    proof {
        lemma_gcd_bound(a as nat, b as nat);
    }
    let mut a = a;
    let mut b = b;
    let ghost g = gcd_euclid(a as nat, b as nat);
    while b != 0
        invariant
            gcd_euclid(a as nat, b as nat) == g,
        decreases b,
    {
        let t = b;
        b = a % b;
        a = t;
    }
    if a < 1 { 1 } else { a }
}

/// Attack points below `n` of two periodic pulses.
pub open spec fn attacks_below(a: u32, b: u32, n: nat) -> Seq<u32>
    decreases n,
{
    if n == 0 {
        Seq::empty()
    } else {
        let t = (n - 1) as nat;
        let prefix = attacks_below(a, b, t);
        if t % (a as nat) == 0 || t % (b as nat) == 0 { prefix.push(t as u32) } else { prefix }
    }
}

/// Gaps between consecutive points.
pub open spec fn gaps(s: Seq<u32>) -> Seq<u32> {
    Seq::new((if s.len() > 0 { s.len() - 1 } else { 0 }) as nat, |i: int| (s[i + 1] - s[i]) as u32)
}

/// The rhythmic resultant of periods `a` and `b`.
pub open spec fn schillinger_spec(a: u32, b: u32) -> Seq<u32> {
    let lcm = (a as nat * b as nat) / (gcd_spec(a, b) as nat);
    gaps(attacks_below(a, b, lcm).push(lcm as u32))
}

pub proof fn lemma_attacks_below(a: u32, b: u32, n: nat)
    requires
        n <= 0x1_0000_0000,
    ensures
        forall|i: int| 0 <= i < attacks_below(a, b, n).len() ==> attacks_below(a, b, n)[i] < n,
        forall|i: int, j: int| 0 <= i < j < attacks_below(a, b, n).len() ==> attacks_below(a, b, n)[i] < attacks_below(a, b, n)[j],
    decreases n,
{
    if n > 0 {
        let t = (n - 1) as nat;
        lemma_attacks_below(a, b, t);
        let prefix = attacks_below(a, b, t);
        if t % (a as nat) == 0 || t % (b as nat) == 0 {
            let s = prefix.push(t as u32);
            assert(attacks_below(a, b, n) == s);
            assert forall|i: int| 0 <= i < s.len() implies s[i] < n by {
                if i < prefix.len() { assert(s[i] == prefix[i]); }
            }
            assert(s.last() == t);
            assert forall|i: int, j: int| 0 <= i < j < s.len() implies s[i] < s[j] by {
                if j < prefix.len() { assert(s[i] == prefix[i] && s[j] == prefix[j]); }
                else { assert(s[i] == prefix[i]); assert(prefix[i] < t); }
            }
        }
    }
}

/// Schillinger interference: the gaps between the attack points of two
/// pulses of periods `a` and `b` over one cycle of their least common
/// multiple.
pub fn schillinger(a: u32, b: u32) -> (r: Vec<u32>)
    requires
        a > 0 && b > 0,
        a as int * b as int <= u32::MAX,
    ensures
        r@ == schillinger_spec(a, b),
{
    let g = gcd(a, b);
    proof { lemma_gcd_bound(a as nat, b as nat); }
    let lcm = a * b / g;
    let mut attacks: Vec<u32> = Vec::new();
    for t in 0..lcm
        invariant
            a > 0 && b > 0,
            attacks@ == attacks_below(a, b, t as nat),
    {
        if t % a == 0 || t % b == 0 {
            attacks.push(t);
        }
    }
    attacks.push(lcm);
    let ghost pts = attacks_below(a, b, lcm as nat).push(lcm);
    proof { lemma_attacks_below(a, b, lcm as nat); }
    assert(attacks@ == pts);
    let mut out: Vec<u32> = Vec::new();
    let n = attacks.len();
    for i in 0..n - 1
        invariant
            n == attacks@.len(),
            n >= 1,
            attacks@ == pts,
            forall|x: int, y: int| 0 <= x < y < n ==> attacks@[x] < attacks@[y],
            out@ == gaps(pts).take(i as int),
    {
        out.push(attacks[i + 1] - attacks[i]);
        assert(out@ =~= gaps(pts).take(i + 1));
    }
    assert(gaps(pts).take((n - 1) as int) =~= gaps(pts));
    out
}

// --- Lindenmayer systems ---

/// What one character becomes: the replacement of the first rule for it,
/// or the character itself.
pub open spec fn rewrite_char(c: char, rules: Seq<(char, Seq<char>)>) -> Seq<char>
    decreases rules.len(),
{
    if rules.len() == 0 {
        seq![c]
    } else if rules[0].0 == c {
        rules[0].1
    } else {
        rewrite_char(c, rules.drop_first())
    }
}

/// One rewriting pass over a string.
pub open spec fn rewrite(s: Seq<char>, rules: Seq<(char, Seq<char>)>) -> Seq<char>
    decreases s.len(),
{
    if s.len() == 0 {
        Seq::empty()
    } else {
        rewrite(s.drop_last(), rules) + rewrite_char(s.last(), rules)
    }
}

/// `depth` rewriting passes.
pub open spec fn lsystem(s: Seq<char>, rules: Seq<(char, Seq<char>)>, depth: nat) -> Seq<char>
    decreases depth,
{
    if depth == 0 { s } else { lsystem(rewrite(s, rules), rules, (depth - 1) as nat) }
}

/// The model of the rule list.
pub open spec fn rules_view(rules: Seq<(char, &str)>) -> Seq<(char, Seq<char>)> {
    rules.map_values(|r: (char, &str)| (r.0, r.1@))
}

fn rewrite_once(current: &String, rules: &[(char, &str)]) -> (r: String)
    ensures
        r@ == rewrite(current@, rules_view(rules@)),
{
    let ghost rv = rules_view(rules@);
    let chars = chars_of(current.as_str());
    let mut next = String::new();
    let n = chars.len();
    for i in 0..n
        invariant
            n == chars@.len(),
            chars@ == current@,
            rv == rules_view(rules@),
            next@ == rewrite(current@.take(i as int), rv),
    {
        let ch = chars[i];
        let mut j: usize = 0;
        let mut found = false;
        assert(rv.skip(0) =~= rv);
        while j < rules.len()
            invariant
                j <= rules@.len(),
                rv == rules_view(rules@),
                !found ==> rewrite_char(ch, rv) == rewrite_char(ch, rv.skip(j as int)),
                found ==> next@ == rewrite(current@.take(i as int), rv) + rewrite_char(ch, rv),
                !found ==> next@ == rewrite(current@.take(i as int), rv),
            decreases rules@.len() - j + (if found { 0int } else { 1int }),
        {
            if !found && rules[j].0 == ch {
                assert(rv.skip(j as int)[0] == (rules@[j as int].0, rules@[j as int].1@));
                push_str(&mut next, rules[j].1);
                found = true;
                j = rules.len();
            } else if !found {
                assert(rv.skip(j as int).drop_first() =~= rv.skip(j + 1));
                j = j + 1;
            } else {
                j = rules.len();
            }
        }
        if !found {
            assert(rv.skip(rules@.len() as int).len() == 0);
            push_char(&mut next, ch);
        }
        assert(current@.take(i + 1).drop_last() =~= current@.take(i as int));
    }
    assert(current@.take(n as int) =~= current@);
    next
}

/// Lindenmayer system: rewrite the start string with `rules` for `depth` passes;
/// each character is replaced by its first rule's text, or kept.
pub fn lindenmayer(start: &str, rules: &[(char, &str)], depth: usize) -> (r: String)
    ensures
        r@ == lsystem(start@, rules_view(rules@), depth as nat),
{
    let mut current = to_owned_string(start);
    for k in 0..depth
        invariant
            lsystem(current@, rules_view(rules@), (depth - k) as nat) == lsystem(start@, rules_view(rules@), depth as nat),
    {
        current = rewrite_once(&current, rules);
    }
    current
}

// --- infinity series ---

/// Nørgård's infinity series from a seed pair: the seeds at positions 0
/// and 1, then for `n >= 1` the value at `2n` is `-a(n)` and the value at
/// `2n + 1` is `a(n) + 1`.
pub open spec fn infinity_value(seed0: int, seed1: int, i: nat) -> int
    decreases i,
{
    if i == 0 {
        seed0
    } else if i == 1 {
        seed1
    } else if i % 2 == 0 {
        -infinity_value(seed0, seed1, i / 2)
    } else {
        infinity_value(seed0, seed1, i / 2) + 1
    }
}

/// The first `len` values of the series.
pub open spec fn infinity_prefix(seed0: int, seed1: int, len: nat) -> Seq<int> {
    Seq::new(len, |i: int| infinity_value(seed0, seed1, i as nat))
}

/// Whether the first `len` values of the series fit in `i32`.
pub open spec fn infinity_fits(seed0: int, seed1: int, len: nat) -> bool {
    forall|i: nat| i < len ==> i32::MIN <= #[trigger] infinity_value(seed0, seed1, i) <= i32::MAX
}

/// The first `len` values of Nørgård's infinity series (integer skeleton)
/// from the seed pair.
pub fn infinity_series(seed0: i32, seed1: i32, len: usize) -> (r: Vec<i32>)
    requires
        infinity_fits(seed0 as int, seed1 as int, len as nat),
    ensures
        r@.len() == len,
        forall|i: int| 0 <= i < len ==> #[trigger] r@[i] as int == infinity_value(seed0 as int, seed1 as int, i as nat),
        r@.map_values(|v: i32| v as int) == infinity_prefix(seed0 as int, seed1 as int, len as nat),
{
    let mut series: Vec<i32> = Vec::new();
    let mut i: usize = 0;
    while i < len
        invariant
            i <= len,
            series@.len() == i,
            infinity_fits(seed0 as int, seed1 as int, len as nat),
            forall|j: int| 0 <= j < i ==> #[trigger] series@[j] as int == infinity_value(seed0 as int, seed1 as int, j as nat),
        decreases len - i,
    {
        assert(i32::MIN <= infinity_value(seed0 as int, seed1 as int, i as nat) <= i32::MAX);
        let value: i32 = if i == 0 {
            seed0
        } else if i == 1 {
            seed1
        } else {
            let half = series[i / 2];
            assert(half as int == infinity_value(seed0 as int, seed1 as int, (i / 2) as nat));
            if i % 2 == 0 { -half } else { half + 1 }
        };
        series.push(value);
        i = i + 1;
    }
    assert(series@.map_values(|v: i32| v as int) =~= infinity_prefix(seed0 as int, seed1 as int, len as nat));
    series
}

} // verus!
