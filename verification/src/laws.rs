//! Properties that hold across calls and inputs, stated over the models
//! the functions' contracts use.

use vstd::prelude::*;
use crate::note::NoteV;
use crate::algo::{rotation, shuffle_perm, shuffle_order};
use crate::compose::{ser_fold, ser_items, ser_defined, SerState, ser_step, ser_push, resolve_implicit, extend_tie,
    par_fold, par_items, par_defined, ParState, par_step, par_push};
use crate::edit::{applied, with_param};
use crate::params::{prefix_match, with_prefix, first_lower_match};
use crate::text::{starts_with, lowercase};
use crate::attrs::{distinct_keys, insert_all, lemma_insert_all_distinct, lemma_insert_entry_distinct};
use crate::midi::{Sounded, sounded_le, sounded_slot, sort_sounded, Queued, queued_le, queued_slot, sort_queued, delta_items, TrackItem};
use crate::chip::lfsr_next;
use crate::scope::{scope_after, scope_fold};
use crate::sf2::chunk_spec;
use crate::series::{successors, markov_seq, markov_spec, walk_seq, clamp_pitch, lcg_advance, lcg_out, seeded};
use crate::algo::{ambitus_pitch, AmbitusMode, bars_fold, euclid_pattern};
use crate::repl::{note_wrapper, iter_wrapper};
use crate::transport::{Transport, command_step, poll_step, EffectV, ReplyV};
use crate::server::CommandV;
use crate::synth::{PhaseClock, NotePhase, after_sample};
use crate::series::{lsystem, infinity_prefix, infinity_value, attacks_below, gaps, gcd_spec, gcd_euclid, schillinger_spec, lemma_attacks_below, lemma_gcd_bound};

verus! {

/// Reversing twice gives the list back: `retrograde` is an involution.
pub proof fn law_retrograde_involution(s: Seq<NoteV>)
    ensures
        s.reverse().reverse() == s,
{
    assert(s.reverse().reverse() =~= s);
}

/// Rotating by `n` is rotating by `n` modulo the length (Euclidean, so a
/// negative `n` rotates right): rotations by `n` and `n + len` agree, and
/// rotating by the length (or 0) leaves the list as it is.
pub proof fn law_rotation_is_modulo(n: int, m: int)
    requires
        m > 0,
    ensures
        rotation(n, m) == n % m,
        rotation(n + m, m) == rotation(n, m),
        rotation(m, m) == 0,
        rotation(0, m) == 0,
{
    lemma_rotation_mod(n, m);
    lemma_rotation_mod(n + m, m);
    vstd::arithmetic::div_mod::lemma_mod_add_multiples_vanish(n, m);
    vstd::arithmetic::div_mod::lemma_fundamental_div_mod_converse(m, m, 1, 0);
    vstd::arithmetic::div_mod::lemma_fundamental_div_mod_converse(0, m, 0, 0);
}

proof fn lemma_rotation_mod(n: int, m: int)
    requires
        m > 0,
    ensures
        rotation(n, m) == n % m,
{
    if n < 0 {
        let r = (-n) % m;
        let q = (-n) / m;
        vstd::arithmetic::div_mod::lemma_fundamental_div_mod(-n, m);
        assert(0 <= r < m);
        assert(-n == m * q + r);
        if r == 0 {
            vstd::arithmetic::div_mod::lemma_fundamental_div_mod_converse(m - r, m, 1, 0);
            assert(n == (-q) * m + 0) by (nonlinear_arith)
                requires -n == m * q + r, r == 0;
            vstd::arithmetic::div_mod::lemma_fundamental_div_mod_converse(n, m, -q, 0);
        } else {
            vstd::arithmetic::div_mod::lemma_fundamental_div_mod_converse(m - r, m, 0, m - r);
            assert(n == (-q - 1) * m + (m - r)) by (nonlinear_arith)
                requires -n == m * q + r;
            vstd::arithmetic::div_mod::lemma_fundamental_div_mod_converse(n, m, -q - 1, m - r);
        }
    }
}

/// A list of indices below `len`, each once.
pub open spec fn is_permutation(p: Seq<int>, len: nat) -> bool {
    &&& p.len() == len
    &&& forall|k: int| 0 <= k < len ==> 0 <= #[trigger] p[k] < len
    &&& forall|k: int, l: int| 0 <= k < l < len ==> p[k] != p[l]
}

proof fn lemma_shuffle_perm(perm: Seq<int>, i: int, state: u64, len: nat)
    requires
        is_permutation(perm, len),
        i < len,
    ensures
        is_permutation(shuffle_perm(perm, i, state), len),
    decreases i,
{
    if i >= 1 {
        let j = (crate::series::lcg_out(state) as int) % (i + 1);
        let next = perm.update(i, perm[j]).update(j, perm[i]);
        assert forall|k: int, l: int| 0 <= k < l < len implies next[k] != next[l] by {
            let sk = if k == j { i } else if k == i { j } else { k };
            let sl = if l == j { i } else if l == i { j } else { l };
            assert(next[k] == perm[sk]);
            assert(next[l] == perm[sl]);
        }
        lemma_shuffle_perm(next, i - 1, crate::series::lcg_advance(state), len);
    }
}

/// `shuffle` only reorders: the order it takes the notes in lists every
/// position exactly once.
pub proof fn law_shuffle_is_permutation(len: nat, seed: u64)
    ensures
        is_permutation(shuffle_order(len, seed), len),
{
    let start = Seq::new(len, |i: int| i);
    if len > 0 {
        lemma_shuffle_perm(start, len - 1, crate::series::seeded(seed), len);
    } else {
        assert(shuffle_order(len, seed) == start);
    }
}

/// A note that a sequence resolves away: an implicit-duration atom, a
/// previous-pitch note, a tie or a repeat marker.
pub open spec fn is_marker(n: NoteV) -> bool {
    n is AtomImplicitDuration || n is PreviousPitch || n is DurationTie || n is RepeatMarker
}

proof fn lemma_applied_kind(n: NoteV, attrs: crate::note::ParamsV)
    ensures
        is_marker(applied(n, attrs)) == is_marker(n),
        (applied(n, attrs) is AtomImplicitDuration) == (n is AtomImplicitDuration),
        (applied(n, attrs) is PreviousPitch) == (n is PreviousPitch),
        (applied(n, attrs) is DurationTie) == (n is DurationTie),
{
}

proof fn lemma_ser_fold_clean(items: Seq<NoteV>, fork: bool)
    requires
        ser_fold(items, fork) is Some,
    ensures
        forall|i: int| 0 <= i < ser_fold(items, fork)->Some_0.resolved.len() ==>
            !is_marker(#[trigger] ser_fold(items, fork)->Some_0.resolved[i]),
    decreases items.len(),
{
    if items.len() > 0 {
        let prefix = items.drop_last();
        lemma_ser_fold_clean(prefix, fork);
        let st = ser_fold(prefix, fork)->Some_0;
        let item = items.last();
        let next = ser_fold(items, fork)->Some_0;
        assert(ser_step(st, item, fork) == Some(next));
        match item {
            NoteV::DurationTie { duration: tie } => {
                let n = extend_tie(st.resolved.last(), tie)->Some_0;
                assert(!is_marker(n));
                assert forall|i: int| 0 <= i < next.resolved.len() implies !is_marker(#[trigger] next.resolved[i]) by {
                    if i < next.resolved.len() - 1 {
                        assert(next.resolved[i] == st.resolved[i]);
                    }
                }
            },
            NoteV::RepeatMarker(count) => {
                if count > 0 {
                    let r = applied(st.resolved.last(), st.attrs);
                    lemma_applied_kind(st.resolved.last(), st.attrs);
                    assert(!is_marker(st.resolved[st.resolved.len() - 1]));
                    assert forall|i: int| 0 <= i < next.resolved.len() implies !is_marker(#[trigger] next.resolved[i]) by {
                        if i < st.resolved.len() {
                            assert(next.resolved[i] == st.resolved[i]);
                        } else {
                            assert(next.resolved[i] == r);
                        }
                    }
                }
            },
            _ => {
                let res = resolve_implicit(item, st.last_duration, st.last_pitch)->Some_0;
                assert(!is_marker(res));
                let a = applied(res, st.attrs);
                lemma_applied_kind(res, st.attrs);
                assert(ser_push(st, a) == Some(next));
                assert forall|i: int| 0 <= i < next.resolved.len() implies !is_marker(#[trigger] next.resolved[i]) by {
                    if i < st.resolved.len() {
                        assert(next.resolved[i] == st.resolved[i]);
                    } else {
                        assert(next.resolved[i] == a);
                    }
                }
            },
        }
    }
}

/// A sequence resolves its markers: no item of an accepted `ser` (or
/// `forkseq`, `track`) is an implicit-duration atom, a previous-pitch note,
/// a tie or a repeat marker.
pub proof fn law_ser_resolves_markers(items: Seq<NoteV>, fork: bool)
    requires
        ser_defined(items, fork),
    ensures
        forall|i: int| 0 <= i < ser_items(items, fork).len() ==> !is_marker(#[trigger] ser_items(items, fork)[i]),
{
    lemma_ser_fold_clean(items, fork);
}

proof fn lemma_par_fold_clean(items: Seq<NoteV>)
    requires
        par_fold(items) is Some,
    ensures
        forall|i: int| 0 <= i < par_fold(items)->Some_0.items.len() ==> {
            let n = #[trigger] par_fold(items)->Some_0.items[i];
            !(n is AtomImplicitDuration) && !(n is PreviousPitch) && !(n is DurationTie)
        },
    decreases items.len(),
{
    if items.len() > 0 {
        let prefix = items.drop_last();
        lemma_par_fold_clean(prefix);
        let st = par_fold(prefix)->Some_0;
        let item = items.last();
        let next = par_fold(items)->Some_0;
        assert(par_step(st, item) == Some(next));
        match item {
            NoteV::DurationTie { duration: tie } => {
                if st.items.len() > 0 && extend_tie(st.items.last(), tie) is Some {
                    let n = extend_tie(st.items.last(), tie)->Some_0;
                    assert forall|i: int| 0 <= i < next.items.len() implies {
                        let m = #[trigger] next.items[i];
                        !(m is AtomImplicitDuration) && !(m is PreviousPitch) && !(m is DurationTie)
                    } by {
                        if i < next.items.len() - 1 {
                            assert(next.items[i] == st.items[i]);
                        }
                    }
                }
            },
            _ => {
                let res = resolve_implicit(item, st.last_duration, st.last_pitch)->Some_0;
                let a = applied(res, st.attrs);
                lemma_applied_kind(res, st.attrs);
                assert(par_push(st, a) == Some(next));
                assert forall|i: int| 0 <= i < next.items.len() implies {
                    let m = #[trigger] next.items[i];
                    !(m is AtomImplicitDuration) && !(m is PreviousPitch) && !(m is DurationTie)
                } by {
                    if i < st.items.len() {
                        assert(next.items[i] == st.items[i]);
                    } else {
                        assert(next.items[i] == a);
                    }
                }
            },
        }
    }
}

/// A parallel block resolves implicit durations, previous pitches and
/// ties: no item of an accepted `par` (or `bar`, `parmin`, `forkpar`) is
/// one of them.
pub proof fn law_par_resolves_pitches(items: Seq<NoteV>)
    requires
        par_defined(items),
    ensures
        forall|i: int| 0 <= i < par_items(items).len() ==> {
            let n = #[trigger] par_items(items)[i];
            !(n is AtomImplicitDuration) && !(n is PreviousPitch) && !(n is DurationTie)
        },
{
    lemma_par_fold_clean(items);
}

/// The sum of a list of numbers.
pub open spec fn total(s: Seq<u32>) -> int
    decreases s.len(),
{
    if s.len() == 0 { 0 } else { total(s.drop_last()) + s.last() }
}

proof fn lemma_attacks_start(a: u32, b: u32, n: nat)
    requires
        n >= 1,
        a > 0,
    ensures
        attacks_below(a, b, n).len() >= 1,
        attacks_below(a, b, n)[0] == 0,
    decreases n,
{
    if n > 1 {
        lemma_attacks_start(a, b, (n - 1) as nat);
    } else {
        vstd::arithmetic::div_mod::lemma_small_mod(0, a as nat);
        assert(attacks_below(a, b, 0) =~= Seq::<u32>::empty());
    }
}

proof fn lemma_gaps_telescope(s: Seq<u32>)
    requires
        s.len() >= 1,
        forall|i: int, j: int| 0 <= i < j < s.len() ==> s[i] < s[j],
    ensures
        total(gaps(s)) == s.last() - s[0],
    decreases s.len(),
{
    if s.len() > 1 {
        let p = s.drop_last();
        lemma_gaps_telescope(p);
        assert(gaps(s).drop_last() =~= gaps(p));
        assert(gaps(s).last() == (s[s.len() - 1] - s[s.len() - 2]) as u32);
        assert(s[s.len() - 2] < s[s.len() - 1]);
    } else {
        assert(gaps(s) =~= Seq::<u32>::empty());
    }
}

/// Schillinger interference spans one cycle: the gaps between attack
/// points add up to the least common multiple of the two periods.
pub proof fn law_schillinger_cycle(a: u32, b: u32)
    requires
        a > 0,
        b > 0,
        a * b <= u32::MAX,
    ensures
        total(schillinger_spec(a, b)) == (a as nat * b as nat) / (gcd_spec(a, b) as nat),
{
    lemma_cycle_points(a, b);
    let lcm = (a as nat * b as nat) / (gcd_spec(a, b) as nat);
    lemma_gaps_telescope(attacks_below(a, b, lcm).push(lcm as u32));
}

proof fn lemma_attacks_members(a: u32, b: u32, n: nat, x: int)
    requires
        n <= 0x1_0000_0000,
        a > 0,
        b > 0,
    ensures
        (exists|k: int| 0 <= k < attacks_below(a, b, n).len() && attacks_below(a, b, n)[k] == x)
            <==> (0 <= x < n && (x % (a as int) == 0 || x % (b as int) == 0)),
    decreases n,
{
    if n > 0 {
        let t = (n - 1) as nat;
        lemma_attacks_members(a, b, t, x);
        lemma_attacks_below(a, b, t);
        let p = attacks_below(a, b, t);
        if t % (a as nat) == 0 || t % (b as nat) == 0 {
            let s = p.push(t as u32);
            assert(attacks_below(a, b, n) == s);
            if exists|k: int| 0 <= k < s.len() && s[k] == x {
                let k = choose|k: int| 0 <= k < s.len() && s[k] == x;
                if k < p.len() {
                    assert(p[k] == x);
                } else {
                    assert(x == t);
                }
            }
            if 0 <= x < n && (x % (a as int) == 0 || x % (b as int) == 0) {
                if x == t {
                    assert(s[s.len() - 1] == x);
                } else {
                    let k = choose|k: int| 0 <= k < p.len() && p[k] == x;
                    assert(s[k] == x);
                }
            }
        } else {
            assert(attacks_below(a, b, n) == p);
        }
    } else {
        assert(attacks_below(a, b, 0) =~= Seq::<u32>::empty());
    }
}

/// The points of one cycle: the attack points below the least common
/// multiple, then the multiple itself, in increasing order from zero.
proof fn lemma_cycle_points(a: u32, b: u32)
    requires
        a > 0,
        b > 0,
        a * b <= u32::MAX,
    ensures
        ({
            let lcm = (a as nat * b as nat) / (gcd_spec(a, b) as nat);
            let s = attacks_below(a, b, lcm).push(lcm as u32);
            &&& 1 <= lcm <= u32::MAX
            &&& s[0] == 0
            &&& forall|i: int, j: int| 0 <= i < j < s.len() ==> s[i] < s[j]
        }),
{
    lemma_gcd_bound(a as nat, b as nat);
    let g = gcd_spec(a, b) as nat;
    let lcm = (a as nat * b as nat) / g;
    assert(g >= 1);
    assert(lcm <= a as nat * b as nat) by (nonlinear_arith)
        requires g >= 1, lcm == (a as nat * b as nat) / g;
    assert(lcm >= 1) by {
        assert(g <= if a > b { a as nat } else { b as nat });
        assert(a as nat * b as nat >= g) by (nonlinear_arith)
            requires a >= 1, b >= 1, g <= if a > b { a as nat } else { b as nat };
        assert(lcm >= 1) by (nonlinear_arith)
            requires a as nat * b as nat >= g, g >= 1, lcm == (a as nat * b as nat) / g;
    }
    let att = attacks_below(a, b, lcm);
    lemma_attacks_below(a, b, lcm);
    lemma_attacks_start(a, b, lcm);
    let s = att.push(lcm as u32);
    assert forall|i: int, j: int| 0 <= i < j < s.len() implies s[i] < s[j] by {
        if j < att.len() {
            assert(s[i] == att[i] && s[j] == att[j]);
        } else {
            assert(s[i] == att[i]);
        }
    }
    assert(s[0] == 0);
}

/// Schillinger interference, attack by attack: the running sums of the
/// gaps (before each gap) are exactly the points where either pulse
/// strikes within one cycle, the multiples of `a` or of `b` below their
/// least common multiple.
pub proof fn law_schillinger_attack_points(a: u32, b: u32, t: int)
    requires
        a > 0,
        b > 0,
        a * b <= u32::MAX,
    ensures
        (exists|k: int| 0 <= k < schillinger_spec(a, b).len() && #[trigger] total(schillinger_spec(a, b).take(k)) == t)
            <==> (0 <= t < (a as nat * b as nat) / (gcd_spec(a, b) as nat) && (t % (a as int) == 0 || t % (b as int) == 0)),
{
    lemma_cycle_points(a, b);
    let lcm = (a as nat * b as nat) / (gcd_spec(a, b) as nat);
    let att = attacks_below(a, b, lcm);
    let s = att.push(lcm as u32);
    let r = schillinger_spec(a, b);
    assert(r == gaps(s));
    lemma_attacks_members(a, b, lcm, t);
    assert forall|k: int| 0 <= k < r.len() implies #[trigger] total(r.take(k)) == att[k] by {
        let p = s.take(k + 1);
        assert(r.take(k) =~= gaps(p));
        assert forall|i: int, j: int| 0 <= i < j < p.len() implies p[i] < p[j] by {
            assert(p[i] == s[i] && p[j] == s[j]);
        }
        lemma_gaps_telescope(p);
        assert(p.last() == s[k]);
        assert(p[0] == s[0]);
        assert(s[k] == att[k]);
    }
    if exists|k: int| 0 <= k < r.len() && #[trigger] total(r.take(k)) == t {
        let k = choose|k: int| 0 <= k < r.len() && #[trigger] total(r.take(k)) == t;
        assert(att[k] == t);
    }
    if 0 <= t < lcm && (t % (a as int) == 0 || t % (b as int) == 0) {
        let k = choose|k: int| 0 <= k < att.len() && att[k] == t;
        assert(total(r.take(k)) == t);
    }
}

/// A setter's change persists for every later sibling: playing `xs` then
/// `ys` in one sequence leaves the parameters that playing `ys` leaves
/// when started from what `xs` left.
pub proof fn law_serial_scope_concat(xs: Seq<NoteV>, ys: Seq<NoteV>, a: crate::note::ParamsV)
    ensures
        scope_after(NoteV::Serial(xs + ys), a) == scope_after(NoteV::Serial(ys), scope_after(NoteV::Serial(xs), a)),
    decreases ys.len(),
{
    if ys.len() == 0 {
        assert(xs + ys =~= xs);
    } else {
        law_serial_scope_concat(xs, ys.drop_last(), a);
        assert((xs + ys).drop_last() =~= xs + ys.drop_last());
        assert((xs + ys)[(xs + ys).len() - 1] == ys[ys.len() - 1]);
        assert(scope_fold(xs + ys, a) == scope_after(ys[ys.len() - 1], scope_fold(xs + ys.drop_last(), a)));
    }
}

/// What a branch changes stays in the branch: after a parallel block, a
/// shortest-voice block or a fork, the parameters in force are those
/// before it, whatever setters its items hold.
pub proof fn law_branches_keep_scope(items: Seq<NoteV>, a: crate::note::ParamsV)
    ensures
        scope_after(NoteV::Parallel(items), a) == a,
        scope_after(NoteV::ParallelMin(items), a) == a,
        scope_after(NoteV::ForkSequence(items), a) == a,
        scope_after(NoteV::ForkParallel(items), a) == a,
{
}

/// L-system rewrites compose: rewriting `m` passes and then `n` more is
/// rewriting `m + n` passes, and zero passes give the axiom back.
pub proof fn law_lsystem_compose(s: Seq<char>, rules: Seq<(char, Seq<char>)>, m: nat, n: nat)
    ensures
        lsystem(lsystem(s, rules, m), rules, n) == lsystem(s, rules, m + n),
        lsystem(s, rules, 0) == s,
    decreases m,
{
    if m > 0 {
        law_lsystem_compose(crate::series::rewrite(s, rules), rules, (m - 1) as nat, n);
        assert((m + n - 1) as nat == (m - 1) as nat + n);
    }
}

/// One infinity series per seed pair: the first `m` values are the same
/// whatever length is asked for, and the series starts with the seeds.
pub proof fn law_infinity_series_prefix(seed0: int, seed1: int, m: nat, n: nat)
    requires
        m <= n,
    ensures
        infinity_prefix(seed0, seed1, n).take(m as int) == infinity_prefix(seed0, seed1, m),
        n >= 2 ==> infinity_prefix(seed0, seed1, n).take(2) == seq![seed0, seed1],
{
    assert(infinity_prefix(seed0, seed1, n).take(m as int) =~= infinity_prefix(seed0, seed1, m));
    if n >= 2 {
        assert(infinity_value(seed0, seed1, 0) == seed0);
        assert(infinity_value(seed0, seed1, 1) == seed1);
        assert(infinity_prefix(seed0, seed1, n).take(2) =~= seq![seed0, seed1]);
    }
}

proof fn lemma_with_prefix_members(o: Seq<Seq<char>>, pre: Seq<char>)
    ensures
        forall|i: int| 0 <= i < with_prefix(o, pre).len() ==>
            o.contains(#[trigger] with_prefix(o, pre)[i]) && starts_with(with_prefix(o, pre)[i], pre),
        forall|x: Seq<char>| o.contains(x) && starts_with(x, pre) ==> #[trigger] with_prefix(o, pre).contains(x),
        with_prefix(o, pre).no_duplicates(),
    decreases o.len(),
{
    if o.len() > 0 {
        let p = o.drop_last();
        lemma_with_prefix_members(p, pre);
        let w = with_prefix(o, pre);
        let wp = with_prefix(p, pre);
        assert forall|x: Seq<char>| o.contains(x) && starts_with(x, pre) implies #[trigger] w.contains(x) by {
            let k = choose|k: int| 0 <= k < o.len() && o[k] == x;
            if k < p.len() {
                assert(p[k] == x);
                assert(wp.contains(x));
                let m = choose|m: int| 0 <= m < wp.len() && wp[m] == x;
                assert(w[m] == x);
            } else {
                assert(x == o.last());
                if !wp.contains(x) {
                    assert(w[w.len() - 1] == x);
                }
            }
        }
        assert forall|i: int| 0 <= i < w.len() implies o.contains(#[trigger] w[i]) && starts_with(w[i], pre) by {
            if i < with_prefix(p, pre).len() {
                assert(w[i] == with_prefix(p, pre)[i]);
                let k = choose|k: int| 0 <= k < p.len() && p[k] == w[i];
                assert(o[k] == p[k]);
            } else {
                assert(w[i] == o.last());
                assert(o[o.len() - 1] == o.last());
            }
        }
    }
}

/// The options are a set: writing an option a second time changes no
/// answer of prefix matching (it cannot make a unique match ambiguous).
pub proof fn law_match_prefix_ignores_repeats(input: Seq<char>, o: Seq<Seq<char>>, j: int)
    requires
        0 <= j < o.len(),
    ensures
        prefix_match(input, o.push(o[j])) == prefix_match(input, o),
{
    let x = o[j];
    let o2 = o.push(x);
    let low = crate::text::lowercase(input);
    lemma_with_prefix_members(o, low);
    assert(o2.drop_last() =~= o);
    if starts_with(x, low) {
        assert(o.contains(x));
        assert(with_prefix(o, low).contains(x));
    }
    assert(with_prefix(o2, low) == with_prefix(o, low));
    assert(o2.contains(input) == o.contains(input)) by {
        if o2.contains(input) {
            let k = choose|k: int| 0 <= k < o2.len() && o2[k] == input;
            if k == o.len() { assert(o[j] == input); } else { assert(o[k] == input); }
        }
        if o.contains(input) {
            let k = choose|k: int| 0 <= k < o.len() && o[k] == input;
            assert(o2[k] == input);
        }
    }
    assert forall|k: int| #[trigger] first_lower_match(o2, low, k) == first_lower_match(o, low, k) by {
        if first_lower_match(o2, low, k) && k == o.len() {
            if j < k {
                assert(o2[j] == x);
                assert(lowercase(o2[j]) != low);
            }
        }
        if first_lower_match(o, low, k) {
            assert forall|i: int| 0 <= i < k implies lowercase(#[trigger] o2[i]) != low by {
                assert(o2[i] == o[i]);
            }
        }
        if first_lower_match(o2, low, k) && k < o.len() {
            assert forall|i: int| 0 <= i < k implies lowercase(#[trigger] o[i]) != low by {
                assert(o2[i] == o[i]);
            }
        }
    }
    if exists|k: int| first_lower_match(o, low, k) {
        let k1 = choose|k: int| first_lower_match(o, low, k);
        assert(first_lower_match(o2, low, k1));
        let k2 = choose|k: int| first_lower_match(o2, low, k);
        assert(first_lower_match(o, low, k2));
        if k1 < k2 {
            assert(lowercase(o[k1]) != low);
        } else if k2 < k1 {
            assert(lowercase(o[k2]) != low);
        }
        assert(o2[k2] == o[k1]);
    } else {
        assert forall|k: int| !first_lower_match(o2, low, k) by {
            assert(first_lower_match(o2, low, k) == first_lower_match(o, low, k));
        }
    }
}

/// Prefix matching only ever answers with one of the options.
pub proof fn law_match_prefix_picks_an_option(input: Seq<char>, o: Seq<Seq<char>>)
    ensures
        prefix_match(input, o) is Ok ==> o.contains(prefix_match(input, o)->Ok_0),
{
    lemma_with_prefix_members(o, crate::text::lowercase(input));
    if prefix_match(input, o) is Ok && !o.contains(input) {
        let low = crate::text::lowercase(input);
        if exists|k: int| first_lower_match(o, low, k) {
            let k = choose|k: int| first_lower_match(o, low, k);
            assert(o[k] == prefix_match(input, o)->Ok_0);
        } else {
            assert(with_prefix(o, low)[0] == prefix_match(input, o)->Ok_0);
        }
    }
}

proof fn lemma_divides_combination(g: int, x: int, y: int, k: int)
    requires
        g > 0,
        x % g == 0,
        y % g == 0,
    ensures
        (k * x + y) % g == 0,
{
    vstd::arithmetic::div_mod::lemma_fundamental_div_mod(x, g);
    vstd::arithmetic::div_mod::lemma_fundamental_div_mod(y, g);
    let p = x / g;
    let q = y / g;
    assert(k * x + y == (k * p + q) * g) by (nonlinear_arith)
        requires x == g * p, y == g * q;
    vstd::arithmetic::div_mod::lemma_mod_multiples_basic(k * p + q, g);
}

proof fn lemma_gcd_euclid_divides(a: nat, b: nat)
    requires
        a > 0 || b > 0,
    ensures
        gcd_euclid(a, b) > 0,
        a % gcd_euclid(a, b) == 0,
        b % gcd_euclid(a, b) == 0,
    decreases b,
{
    lemma_gcd_bound(a, b);
    let g = gcd_euclid(a, b);
    if b == 0 {
        vstd::arithmetic::div_mod::lemma_fundamental_div_mod_converse(a as int, a as int, 1, 0);
        vstd::arithmetic::div_mod::lemma_fundamental_div_mod_converse(0, a as int, 0, 0);
    } else {
        lemma_gcd_euclid_divides(b, a % b);
        vstd::arithmetic::div_mod::lemma_fundamental_div_mod(a as int, b as int);
        lemma_divides_combination(g as int, b as int, (a % b) as int, (a / b) as int);
        assert(a as int == (a / b) as int * b as int + (a % b) as int) by (nonlinear_arith)
            requires a as int == b as int * (a as int / b as int) + (a as int % b as int), b > 0;
    }
}

/// The greatest common divisor divides both numbers.
pub proof fn law_gcd_divides(a: u32, b: u32)
    ensures
        gcd_spec(a, b) >= 1,
        a % gcd_spec(a, b) == 0,
        b % gcd_spec(a, b) == 0,
{
    lemma_gcd_bound(a as nat, b as nat);
    if a > 0 || b > 0 {
        lemma_gcd_euclid_divides(a as nat, b as nat);
    } else {
        vstd::arithmetic::div_mod::lemma_small_mod(0, 1);
    }
}

/// Setting a parameter on a note leaves each key once, with the new entry
/// last (an ordered map where a re-inserted key moves to the back).
pub proof fn law_param_sets_key_last(midi: u8, duration: u64, parameters: crate::note::ParamsV, k: Seq<char>, v: crate::note::ParamValueV)
    ensures
        ({
            let p = with_param(NoteV::Atom { midi, duration, parameters }, k, v)->Atom_parameters;
            &&& p.last() == (k, v)
            &&& distinct_keys(p)
        }),
{
    lemma_insert_all_distinct(Seq::empty(), parameters);
    lemma_insert_entry_distinct(insert_all(Seq::empty(), parameters), k, v);
}

/// The noise register never locks up at zero.
pub proof fn law_lfsr_never_zero(lfsr: u16, short: bool)
    ensures
        lfsr_next(lfsr, short) != 0,
{
}

/// A RIFF chunk is 8 header bytes and the body padded to an even length,
/// and its size field counts the padded body.
pub proof fn law_chunk_layout(tag: Seq<u8>, body: Seq<u8>)
    requires
        tag.len() == 4,
        body.len() < u32::MAX,
    ensures
        chunk_spec(tag, body).len() == 8 + body.len() + body.len() % 2,
        (body.len() + body.len() % 2) % 2 == 0,
        chunk_spec(tag, body).subrange(8, chunk_spec(tag, body).len() as int).take(body.len() as int) == body,
{
    let c = chunk_spec(tag, body);
    assert(c.subrange(8, c.len() as int).take(body.len() as int) =~= body);
}

proof fn lemma_slot(s: Seq<Sounded>, x: Sounded)
    ensures
        0 <= sounded_slot(s, x) <= s.len(),
        forall|i: int| 0 <= i < sounded_slot(s, x) ==> sounded_le(#[trigger] s[i], x),
        sounded_slot(s, x) < s.len() ==> !sounded_le(s[sounded_slot(s, x)], x),
    decreases s.len(),
{
    if s.len() > 0 && sounded_le(s[0], x) {
        let t = s.drop_first();
        lemma_slot(t, x);
        assert forall|i: int| 0 <= i < sounded_slot(s, x) implies sounded_le(#[trigger] s[i], x) by {
            if i > 0 {
                assert(s[i] == t[i - 1]);
            }
        }
        if sounded_slot(s, x) < s.len() {
            assert(s[sounded_slot(s, x)] == t[sounded_slot(t, x)]);
        }
    }
}

/// Sorted in lexicographic order.
pub open spec fn sounded_sorted(s: Seq<Sounded>) -> bool {
    forall|i: int, j: int| 0 <= i < j < s.len() ==> sounded_le(s[i], s[j])
}

/// Importing sorts the file's notes: the order is lexicographic (start
/// tick, then length, key and velocity) and no note is lost or added.
pub proof fn law_import_sort_is_sorted(s: Seq<Sounded>)
    ensures
        sounded_sorted(sort_sounded(s)),
        sort_sounded(s).to_multiset() == s.to_multiset(),
    decreases s.len(),
{
    broadcast use vstd::seq_lib::group_to_multiset_ensures;
    if s.len() > 0 {
        let p = s.drop_last();
        law_import_sort_is_sorted(p);
        let sorted = sort_sounded(p);
        let x = s.last();
        lemma_slot(sorted, x);
        let k = sounded_slot(sorted, x);
        let r = sorted.take(k).push(x) + sorted.skip(k);
        assert(r == sort_sounded(s));
        assert(r =~= sorted.insert(k, x));
        assert forall|i: int, j: int| 0 <= i < j < r.len() implies sounded_le(r[i], r[j]) by {
            if j < k {
                assert(r[i] == sorted[i] && r[j] == sorted[j]);
            } else if j == k {
                assert(r[i] == sorted[i] && r[j] == x);
            } else if i < k {
                assert(r[i] == sorted[i] && r[j] == sorted[j - 1]);
            } else if i == k {
                assert(r[i] == x && r[j] == sorted[j - 1]);
                assert(sounded_le(sorted[k], sorted[j - 1]) || j - 1 == k);
            } else {
                assert(r[i] == sorted[i - 1] && r[j] == sorted[j - 1]);
            }
        }
        assert(p.push(x) =~= s);
    } else {
        assert(sort_sounded(s) == s);
    }
}

proof fn lemma_successors_in(corpus: Seq<u8>, k: u8)
    ensures
        forall|i: int| 0 <= i < successors(corpus, k).len() ==> corpus.contains(#[trigger] successors(corpus, k)[i]),
    decreases corpus.len(),
{
    if corpus.len() >= 2 {
        let p = corpus.drop_last();
        lemma_successors_in(p, k);
        let s = successors(corpus, k);
        assert forall|i: int| 0 <= i < s.len() implies corpus.contains(#[trigger] s[i]) by {
            if i < successors(p, k).len() {
                assert(s[i] == successors(p, k)[i]);
                let j = choose|j: int| 0 <= j < p.len() && p[j] == s[i];
                assert(corpus[j] == p[j]);
            } else {
                assert(s[i] == corpus.last());
                assert(corpus[corpus.len() - 1] == corpus.last());
            }
        }
    }
}

proof fn lemma_markov_seq_in(corpus: Seq<u8>, current: u8, state: u64, len: nat)
    requires
        corpus.contains(current),
    ensures
        forall|i: int| 0 <= i < markov_seq(corpus, current, state, len).len() ==>
            corpus.contains(#[trigger] markov_seq(corpus, current, state, len)[i]),
    decreases len,
{
    if len > 0 {
        let succ = successors(corpus, current);
        let drawn = lcg_out(state) as int;
        lemma_successors_in(corpus, current);
        let next = if succ.len() > 0 { succ[drawn % succ.len() as int] } else { corpus[drawn % corpus.len() as int] };
        assert(corpus.contains(next));
        lemma_markov_seq_in(corpus, next, lcg_advance(state), (len - 1) as nat);
        let m = markov_seq(corpus, current, state, len);
        let rest = markov_seq(corpus, next, lcg_advance(state), (len - 1) as nat);
        assert forall|i: int| 0 <= i < m.len() implies corpus.contains(#[trigger] m[i]) by {
            if i > 0 {
                assert(m[i] == rest[i - 1]);
            }
        }
    }
}

/// A Markov chain only plays pitches of its corpus.
pub proof fn law_markov_stays_in_corpus(corpus: Seq<u8>, len: nat, seed: u64)
    ensures
        forall|i: int| 0 <= i < markov_spec(corpus, len, seed).len() ==>
            corpus.contains(#[trigger] markov_spec(corpus, len, seed)[i]),
{
    if corpus.len() > 0 && len > 0 {
        let s0 = seeded(seed);
        let first = corpus[(lcg_out(s0) as int) % corpus.len() as int];
        assert(corpus.contains(first));
        lemma_markov_seq_in(corpus, first, lcg_advance(s0), len);
    }
}

/// A random walk stays within the MIDI range 0–127.
pub proof fn law_walk_in_midi_range(pitch: int, state: u64, step_max: i8, len: nat)
    ensures
        forall|i: int| 0 <= i < walk_seq(pitch, state, step_max, len).len() ==>
            #[trigger] walk_seq(pitch, state, step_max, len)[i] <= 127,
    decreases len,
{
    if len > 0 {
        let p = clamp_pitch(pitch + crate::series::walk_step(lcg_out(state), step_max));
        law_walk_in_midi_range(p, lcg_advance(state), step_max, (len - 1) as nat);
        let w = walk_seq(pitch, state, step_max, len);
        let rest = walk_seq(p, lcg_advance(state), step_max, (len - 1) as nat);
        assert forall|i: int| 0 <= i < w.len() implies #[trigger] w[i] <= 127 by {
            if i > 0 {
                assert(w[i] == rest[i - 1]);
            }
        }
    }
}

/// Clipping to an ambitus keeps a pitch within `lo..=hi`.
pub proof fn law_ambitus_clip_in_range(p: u8, lo: u8, hi: u8)
    requires
        lo <= hi,
    ensures
        lo <= ambitus_pitch(p, lo, hi, AmbitusMode::Clip) <= hi,
{
}

/// The notes of the bars, bar after bar.
pub open spec fn concat_bars(bars: Seq<Seq<NoteV>>) -> Seq<NoteV>
    decreases bars.len(),
{
    if bars.len() == 0 { Seq::empty() } else { concat_bars(bars.drop_last()) + bars.last() }
}

/// Grouping into bars loses nothing and reorders nothing: the bars, read
/// one after another, are the notes.
pub proof fn law_bars_keep_notes(notes: Seq<NoteV>, bar_quarters: u32)
    ensures
        concat_bars(bars_fold(notes, bar_quarters).0) == notes,
        bars_fold(notes, bar_quarters).0.len() >= 1,
    decreases notes.len(),
{
    if notes.len() == 0 {
        let b = bars_fold(notes, bar_quarters).0;
        assert(b =~= seq![Seq::<NoteV>::empty()]);
        assert(b.drop_last() =~= Seq::<Seq<NoteV>>::empty());
        assert(concat_bars(b.drop_last()) == Seq::<NoteV>::empty());
        assert(b.last() == Seq::<NoteV>::empty());
        assert(concat_bars(b) =~= notes);
    } else {
        let p = notes.drop_last();
        law_bars_keep_notes(p, bar_quarters);
        let (bars, used) = bars_fold(p, bar_quarters);
        let n = notes.last();
        let d = match crate::algo::parts(n) { Some(x) => x.1 as int, None => 0 };
        let bars2 = if used + d > crate::algo::bar_ticks(bar_quarters) && bars.last().len() > 0 {
            bars.push(Seq::empty())
        } else {
            bars
        };
        assert(concat_bars(bars2) == concat_bars(bars)) by {
            if bars2.len() > bars.len() {
                assert(bars2.drop_last() =~= bars);
                assert(concat_bars(bars2) =~= concat_bars(bars) + Seq::<NoteV>::empty());
            }
        }
        let out = bars2.update(bars2.len() - 1, bars2.last().push(n));
        assert(out.drop_last() =~= bars2.drop_last());
        assert(concat_bars(bars2) == concat_bars(bars2.drop_last()) + bars2.last());
        assert(concat_bars(out) =~= concat_bars(bars2).push(n));
        assert(p.push(n) =~= notes);
    }
}

proof fn lemma_queued_slot(s: Seq<Queued>, x: Queued)
    ensures
        0 <= queued_slot(s, x) <= s.len(),
        forall|i: int| 0 <= i < queued_slot(s, x) ==> queued_le(#[trigger] s[i], x),
        queued_slot(s, x) < s.len() ==> !queued_le(s[queued_slot(s, x)], x),
    decreases s.len(),
{
    if s.len() > 0 && queued_le(s[0], x) {
        let t = s.drop_first();
        lemma_queued_slot(t, x);
        assert forall|i: int| 0 <= i < queued_slot(s, x) implies queued_le(#[trigger] s[i], x) by {
            if i > 0 {
                assert(s[i] == t[i - 1]);
            }
        }
        if queued_slot(s, x) < s.len() {
            assert(s[queued_slot(s, x)] == t[queued_slot(t, x)]);
        }
    }
}

/// Ordered by tick, then by the order of messages within a tick.
pub open spec fn queued_sorted(s: Seq<Queued>) -> bool {
    forall|i: int, j: int| 0 <= i < j < s.len() ==> queued_le(s[i], s[j])
}

/// Export orders a track's messages by tick (then program change, note
/// offs, note ons) without losing or adding any.
pub proof fn law_export_sort_is_sorted(s: Seq<Queued>)
    ensures
        queued_sorted(sort_queued(s)),
        sort_queued(s).to_multiset() == s.to_multiset(),
    decreases s.len(),
{
    broadcast use vstd::seq_lib::group_to_multiset_ensures;
    if s.len() > 0 {
        let p = s.drop_last();
        law_export_sort_is_sorted(p);
        let sorted = sort_queued(p);
        let x = s.last();
        lemma_queued_slot(sorted, x);
        let k = queued_slot(sorted, x);
        let r = sorted.take(k).push(x) + sorted.skip(k);
        assert(r == sort_queued(s));
        assert(r =~= sorted.insert(k, x));
        assert forall|i: int, j: int| 0 <= i < j < r.len() implies queued_le(r[i], r[j]) by {
            if j < k {
                assert(r[i] == sorted[i] && r[j] == sorted[j]);
            } else if j == k {
                assert(r[i] == sorted[i] && r[j] == x);
            } else if i < k {
                assert(r[i] == sorted[i] && r[j] == sorted[j - 1]);
            } else if i == k {
                assert(r[i] == x && r[j] == sorted[j - 1]);
                assert(queued_le(sorted[k], sorted[j - 1]) || j - 1 == k);
            } else {
                assert(r[i] == sorted[i - 1] && r[j] == sorted[j - 1]);
            }
        }
        assert(p.push(x) =~= s);
    } else {
        assert(sort_queued(s) == s);
    }
}

/// The sum of the deltas of the first `n` items: the tick of item `n - 1`.
pub open spec fn elapsed(items: Seq<TrackItem>, n: int) -> int
    decreases n,
{
    if n <= 0 { 0 } else { elapsed(items, n - 1) + items[n - 1].delta }
}

/// Messages in tick order land exactly at their ticks: the running sum of
/// the deltas up to each item is the tick of its message, and the last
/// tick is kept for the next message.
pub proof fn law_deltas_place_messages(q: Seq<Queued>, channel: u8)
    requires
        forall|i: int, j: int| 0 <= i < j < q.len() ==> q[i].0 <= q[j].0,
    ensures
        delta_items(q, channel).0.len() == q.len(),
        forall|i: int| 0 <= i < q.len() ==> elapsed(delta_items(q, channel).0, i + 1) == #[trigger] q[i].0,
        q.len() > 0 ==> delta_items(q, channel).1 == q.last().0,
        q.len() == 0 ==> delta_items(q, channel).1 == 0,
    decreases q.len(),
{
    if q.len() > 0 {
        let p = q.drop_last();
        law_deltas_place_messages(p, channel);
        let (items, last) = delta_items(p, channel);
        let all = delta_items(q, channel).0;
        assert(all.drop_last() == items);
        assert forall|n: int| 0 <= n <= p.len() implies #[trigger] elapsed(all, n) == elapsed(items, n) by {
            lemma_elapsed_prefix(all, items, n);
        }
        if p.len() > 0 {
            assert(p.last().0 <= q.last().0);
            assert(last == p.last().0);
            assert(elapsed(items, p.len() as int) == p[p.len() - 1].0);
        }
        assert forall|i: int| 0 <= i < q.len() implies elapsed(all, i + 1) == #[trigger] q[i].0 by {
            if i < p.len() {
                assert(q[i] == p[i]);
                assert(elapsed(all, i + 1) == elapsed(items, i + 1));
            } else {
                assert(elapsed(all, i + 1) == elapsed(all, i) + all[i].delta);
            }
        }
    }
}

proof fn lemma_elapsed_prefix(all: Seq<TrackItem>, items: Seq<TrackItem>, n: int)
    requires
        0 <= n <= items.len(),
        items.len() <= all.len(),
        forall|i: int| 0 <= i < items.len() ==> all[i] == items[i],
    ensures
        elapsed(all, n) == elapsed(items, n),
    decreases n,
{
    if n > 0 {
        lemma_elapsed_prefix(all, items, n - 1);
    }
}

/// The number of set slots.
pub open spec fn hits(s: Seq<bool>) -> nat
    decreases s.len(),
{
    if s.len() == 0 { 0 } else { hits(s.drop_last()) + if s.last() { 1nat } else { 0nat } }
}

proof fn lemma_hits_update(s: Seq<bool>, j: int)
    requires
        0 <= j < s.len(),
        !s[j],
    ensures
        hits(s.update(j, true)) == hits(s) + 1,
    decreases s.len(),
{
    let t = s.update(j, true);
    if j == s.len() - 1 {
        assert(t.drop_last() =~= s.drop_last());
    } else {
        assert(t.drop_last() =~= s.drop_last().update(j, true));
        lemma_hits_update(s.drop_last(), j);
    }
}

proof fn lemma_hits_none(n: nat)
    ensures
        hits(Seq::new(n, |t: int| false)) == 0,
    decreases n,
{
    if n > 0 {
        assert(Seq::new(n, |t: int| false).drop_last() =~= Seq::new((n - 1) as nat, |t: int| false));
        lemma_hits_none((n - 1) as nat);
    }
}

proof fn lemma_slot_grows(p: nat, steps: nat, i: nat)
    requires
        0 < p <= steps,
        i + 1 < p + 1,
    ensures
        (i * steps) as int / (p as int) < ((i + 1) * steps) as int / (p as int),
        ((i * steps) as int / (p as int)) < steps,
{
    let a = (i * steps) as int;
    let b = ((i + 1) * steps) as int;
    vstd::arithmetic::div_mod::lemma_fundamental_div_mod(a, p as int);
    vstd::arithmetic::div_mod::lemma_fundamental_div_mod(b, p as int);
    assert(b == a + steps) by (nonlinear_arith)
        requires a == (i * steps) as int, b == ((i + 1) * steps) as int;
    let qa = a / (p as int);
    let qb = b / (p as int);
    assert(qa < qb) by (nonlinear_arith)
        requires a == p * qa + a % (p as int), b == p * qb + b % (p as int), 0 <= a % (p as int) < p,
            0 <= b % (p as int) < p, b == a + steps, steps >= p, p > 0;
    assert(qa < steps) by (nonlinear_arith)
        requires a == p * qa + a % (p as int), 0 <= a % (p as int), a == (i * steps) as int, i < p, p > 0, steps >= p;
}

proof fn lemma_euclid_pattern(p: nat, steps: nat, k: nat)
    requires
        0 < p <= steps,
        k <= p,
    ensures
        euclid_pattern(p, steps, k).len() == steps,
        hits(euclid_pattern(p, steps, k)) == k,
        forall|t: int| k > 0 && ((((k - 1) * steps) as int) / (p as int)) < t < steps ==> !#[trigger] euclid_pattern(p, steps, k)[t],
        k == 0 ==> forall|t: int| 0 <= t < steps ==> !#[trigger] euclid_pattern(p, steps, k)[t],
    decreases k,
{
    if k == 0 {
        lemma_hits_none(steps);
    } else {
        let prev = euclid_pattern(p, steps, (k - 1) as nat);
        lemma_euclid_pattern(p, steps, (k - 1) as nat);
        let j = (((k - 1) * steps) as int) / (p as int);
        lemma_slot_grows(p, steps, (k - 1) as nat);
        if k >= 2 {
            lemma_slot_grows(p, steps, (k - 2) as nat);
            assert(((((k - 2) * steps) as int) / (p as int)) < j);
        }
        assert(0 <= j < steps) by {
            assert(((k - 1) * steps) as int >= 0) by (nonlinear_arith)
                requires k >= 1;
        }
        assert(!prev[j]);
        lemma_hits_update(prev, j);
    }
}

/// A Euclidean rhythm has exactly `min(pulses, steps)` hits.
pub proof fn law_euclidean_hit_count(pulses: nat, steps: nat)
    ensures
        hits(euclid_pattern(if pulses < steps { pulses } else { steps }, steps, if pulses < steps { pulses } else { steps })) ==
            if pulses < steps { pulses } else { steps },
{
    let p = if pulses < steps { pulses } else { steps };
    if p > 0 {
        lemma_euclid_pattern(p, steps, p);
    } else {
        lemma_hits_none(steps);
    }
}

/// The wrapped code holds the expression verbatim, after the binding of
/// `__note_<suffix>` (or, for iterators, of `result`).
pub proof fn law_wrappers_keep_expression(expr: Seq<char>, suffix: Seq<char>)
    ensures
        ({
            let w = note_wrapper(expr, suffix);
            let k = "{\n            let __note_"@.len() + suffix.len() + ": Note = { "@.len();
            w.subrange(k as int, (k + expr.len()) as int) == expr
        }),
        ({
            let w = iter_wrapper(expr, suffix);
            let k = "{\n            let result = { "@.len();
            w.subrange(k as int, (k + expr.len()) as int) == expr
        }),
{
    let k1 = "{\n            let __note_"@.len() + suffix.len() + ": Note = { "@.len();
    assert(note_wrapper(expr, suffix).subrange(k1 as int, (k1 + expr.len()) as int) =~= expr);
    let k2 = "{\n            let result = { "@.len();
    assert(iter_wrapper(expr, suffix).subrange(k2 as int, (k2 + expr.len()) as int) =~= expr);
}

/// `stop` pauses keeping the position, and `resume` continues from it:
/// after a stop, a resume of collected events plays again, re-queueing
/// from the kept offset, with every other part of the state as before.
pub proof fn law_stop_then_resume(t: Transport)
    requires
        t.loaded,
    ensures
        ({
            let (stopped, _) = command_step(t, CommandV::Stop)->Some_0;
            let (resumed, effects) = command_step(stopped, CommandV::Resume)->Some_0;
            &&& !stopped.playing
            &&& resumed == Transport { playing: true, last_ordinal: -1i64, ..t }
            &&& effects == seq![
                EffectV::Silence,
                EffectV::Requeue,
                EffectV::StartClock,
                EffectV::Mute(false),
                EffectV::Say(ReplyV::Resumed),
            ]
        }),
{
}

/// `ended` is sent once: a tick that ends playback stops the clock, and
/// every later tick does nothing until playback starts again.
pub proof fn law_ended_once(t: Transport, at_end: bool, ordinal: i64, later_end: bool, later_ordinal: i64)
    requires
        poll_step(t, at_end, ordinal).1.contains(EffectV::Say(ReplyV::Ended)),
    ensures
        ({
            let next = poll_step(t, at_end, ordinal).0;
            &&& !next.playing
            &&& poll_step(next, later_end, later_ordinal) == (next, Seq::<EffectV>::empty())
        }),
{
    let e = poll_step(t, at_end, ordinal).1;
    if !t.playing {
        assert(e.len() == 0);
    } else if t.loaded && at_end {
        if t.streaming && t.looping {
            assert(e[0] == EffectV::PullBody);
            assert(e.len() == 1);
        } else if !t.streaming && t.looping {
            assert(e[0] == EffectV::WrapClock);
            assert(e.len() == 1);
        }
    } else if ordinal != t.last_ordinal {
        assert(e[0] == EffectV::Highlight(t.tick));
        assert(e.len() == 1);
    } else {
        assert(e.len() == 0);
    }
}

/// The clock after `n` played samples.
pub open spec fn run_samples(c: PhaseClock, n: nat, attack: Option<u64>, sustain: Option<u64>, release: Option<u64>) -> PhaseClock
    decreases n,
{
    if n == 0 {
        c
    } else {
        after_sample(run_samples(c, (n - 1) as nat, attack, sustain, release), attack, sustain, release)
    }
}

proof fn lemma_releasing(c: PhaseClock, k: nat, attack: Option<u64>, sustain: Option<u64>, d: u64)
    requires
        c.phase == NotePhase::Release,
        c.samples == 0,
        k < d,
    ensures
        run_samples(c, k, attack, sustain, Some(d)) == (PhaseClock { samples: k as u64, ..c }),
    decreases k,
{
    if k > 0 {
        lemma_releasing(c, (k - 1) as nat, attack, sustain, d);
    }
}

/// A released voice finishes: from the start of a release of `d > 0`
/// samples, the voice is releasing for the first `d - 1` samples and off
/// after `d`.
pub proof fn law_release_finishes(c: PhaseClock, attack: Option<u64>, sustain: Option<u64>, d: u64, k: nat)
    requires
        c.phase == NotePhase::Release,
        c.samples == 0,
        d > 0,
    ensures
        k < d ==> run_samples(c, k, attack, sustain, Some(d)).phase == NotePhase::Release,
        run_samples(c, d as nat, attack, sustain, Some(d)).phase == NotePhase::Off,
{
    if k < d {
        lemma_releasing(c, k, attack, sustain, d);
    }
    lemma_releasing(c, (d - 1) as nat, attack, sustain, d);
}


// --- bars ---

/// The ticks a note takes in a bar: an atom's or a rest's duration, nothing
/// for anything else.
pub open spec fn note_ticks(n: NoteV) -> int {
    match n {
        NoteV::Atom { duration, .. } => duration as int,
        NoteV::Rest { duration, .. } => duration as int,
        _ => 0,
    }
}

/// The ticks a bar's notes take together.
pub open spec fn bar_fill(b: Seq<NoteV>) -> int
    decreases b.len(),
{
    if b.len() == 0 { 0 } else { bar_fill(b.drop_last()) + note_ticks(b.last()) }
}

proof fn lemma_bar_fill_nonneg(b: Seq<NoteV>)
    ensures
        bar_fill(b) >= 0,
    decreases b.len(),
{
    if b.len() > 0 {
        lemma_bar_fill_nonneg(b.drop_last());
    }
}

/// Grouping into bars is greedy by duration: a bar of more than one note
/// holds at most `bar_quarters` quarter notes, no bar before the last is
/// empty, and a new bar is opened only when the next note would not fit in
/// the one before it.
pub proof fn law_bars_fill_greedily(notes: Seq<NoteV>, bar_quarters: u32)
    ensures
        ({
            let bars = bars_fold(notes, bar_quarters).0;
            &&& bars.len() >= 1
            &&& forall|i: int| 0 <= i < bars.len() ==>
                (#[trigger] bars[i]).len() <= 1 || bar_fill(bars[i]) <= crate::algo::bar_ticks(bar_quarters)
            &&& forall|i: int| 0 <= i < bars.len() - 1 ==>
                (#[trigger] bars[i]).len() > 0 && bars[i + 1].len() > 0
                && bar_fill(bars[i]) + note_ticks(bars[i + 1][0]) > crate::algo::bar_ticks(bar_quarters)
        }),
        bars_fold(notes, bar_quarters).1 == bar_fill(bars_fold(notes, bar_quarters).0.last()),
    decreases notes.len(),
{
    let bt = crate::algo::bar_ticks(bar_quarters);
    if notes.len() == 0 {
        let bars = bars_fold(notes, bar_quarters).0;
        assert(bars =~= seq![Seq::<NoteV>::empty()]);
    } else {
        let p = notes.drop_last();
        law_bars_fill_greedily(p, bar_quarters);
        let (bars, used) = bars_fold(p, bar_quarters);
        let n = notes.last();
        let d = match crate::algo::parts(n) { Some(x) => x.1 as int, None => 0 };
        assert(d == note_ticks(n));
        let reset = used + d > bt && bars.last().len() > 0;
        let bars2 = if reset { bars.push(Seq::empty()) } else { bars };
        let used2 = if reset { 0 } else { used };
        let out = bars2.update(bars2.len() - 1, bars2.last().push(n));
        assert(bars_fold(notes, bar_quarters) == (out, used2 + d));
        let last2 = bars2.last().push(n);
        assert(last2.drop_last() =~= bars2.last());
        if reset {
            assert(bars2.last() =~= Seq::<NoteV>::empty());
            assert(bar_fill(Seq::<NoteV>::empty()) == 0);
            assert(last2.last() == n);
            assert(bar_fill(last2) == d);
        } else {
            assert(last2.last() == n);
            assert(bar_fill(last2) == used + d);
        }
        assert(out.last() == last2);
        lemma_bar_fill_nonneg(bars.last());
        assert forall|i: int| 0 <= i < out.len() implies
            (#[trigger] out[i]).len() <= 1 || bar_fill(out[i]) <= bt by {
            if i < out.len() - 1 {
                assert(out[i] == bars[i]);
            } else if !reset && bars.last().len() > 0 {
                assert(used + d <= bt);
            }
        }
        assert forall|i: int| 0 <= i < out.len() - 1 implies
            (#[trigger] out[i]).len() > 0 && out[i + 1].len() > 0
            && bar_fill(out[i]) + note_ticks(out[i + 1][0]) > bt by {
            if reset {
                assert(out[i] == bars[i]);
                if i == bars.len() - 1 {
                    assert(out[i + 1] == last2);
                    assert(last2[0] == n);
                } else {
                    assert(out[i + 1] == bars[i + 1]);
                }
            } else {
                assert(out[i] == bars[i]);
                if i == bars.len() - 2 {
                    assert(out[i + 1] == last2);
                    assert(bars.last().len() > 0);
                    assert(last2[0] == bars.last()[0]);
                } else {
                    assert(out[i + 1] == bars[i + 1]);
                }
            }
        }
    }
}


// --- transposition ---

/// The pitched atoms of a note, at any depth, in order: pitch and duration.
pub open spec fn atoms_of(n: NoteV) -> Seq<(u8, u64)>
    decreases n,
{
    match n {
        NoteV::Atom { midi, duration, .. } => seq![(midi, duration)],
        NoteV::Serial(s) => atoms_in(s),
        NoteV::Parallel(s) => atoms_in(s),
        NoteV::ParallelMin(s) => atoms_in(s),
        NoteV::ForkSequence(s) => atoms_in(s),
        NoteV::ForkParallel(s) => atoms_in(s),
        _ => Seq::empty(),
    }
}

/// The pitched atoms of a list of notes, in order.
pub open spec fn atoms_in(s: Seq<NoteV>) -> Seq<(u8, u64)>
    decreases s,
{
    if s.len() == 0 {
        Seq::empty()
    } else {
        proof {
            assert(s.drop_last() =~= s.subrange(0, s.len() - 1));
        }
        atoms_in(s.drop_last()) + atoms_of(s[s.len() - 1])
    }
}

/// A pitch moved by `offset` semitones, clamped to the MIDI range.
pub open spec fn moved_pitch(midi: u8, offset: i8) -> int {
    let p = midi as int + offset as int;
    if p < 0 { 0 } else if p > 127 { 127 } else { p }
}

/// `b` is `a` with every pitch moved by `offset` and every duration kept.
pub open spec fn atoms_moved(a: Seq<(u8, u64)>, b: Seq<(u8, u64)>, offset: i8) -> bool {
    &&& a.len() == b.len()
    &&& forall|i: int| 0 <= i < a.len() ==> (#[trigger] b[i]).0 as int == moved_pitch(a[i].0, offset) && b[i].1 == a[i].1
}

proof fn lemma_atoms_moved_concat(a1: Seq<(u8, u64)>, b1: Seq<(u8, u64)>, a2: Seq<(u8, u64)>, b2: Seq<(u8, u64)>, offset: i8)
    requires
        atoms_moved(a1, b1, offset),
        atoms_moved(a2, b2, offset),
    ensures
        atoms_moved(a1 + a2, b1 + b2, offset),
{
    assert forall|i: int| 0 <= i < (a1 + a2).len() implies
        (#[trigger] (b1 + b2)[i]).0 as int == moved_pitch((a1 + a2)[i].0, offset) && (b1 + b2)[i].1 == (a1 + a2)[i].1 by {
        if i < a1.len() {
            assert((b1 + b2)[i] == b1[i] && (a1 + a2)[i] == a1[i]);
        } else {
            assert((b1 + b2)[i] == b2[i - a1.len()] && (a1 + a2)[i] == a2[i - a1.len()]);
        }
    }
}

proof fn lemma_atoms_in_transposed(s: Seq<NoteV>, t: Seq<NoteV>, offset: i8)
    requires
        t.len() == s.len(),
        forall|i: int| 0 <= i < s.len() ==> #[trigger] t[i] == crate::edit::transposed(s[i], offset),
    ensures
        atoms_moved(atoms_in(s), atoms_in(t), offset),
    decreases s,
{
    if s.len() > 0 {
        let p = s.drop_last();
        assert(s.drop_last() =~= s.subrange(0, s.len() - 1));
        assert(decreases_to!(s => s[s.len() - 1]));
        assert(t[t.len() - 1] == crate::edit::transposed(s[s.len() - 1], offset));
        lemma_atoms_in_transposed(p, t.drop_last(), offset);
        lemma_atoms_transposed(s[s.len() - 1], offset);
        lemma_atoms_moved_concat(atoms_in(p), atoms_in(t.drop_last()), atoms_of(s[s.len() - 1]), atoms_of(t[t.len() - 1]), offset);
    } else {
        assert(atoms_in(t) =~= Seq::<(u8, u64)>::empty());
    }
}

proof fn lemma_atoms_transposed(n: NoteV, offset: i8)
    ensures
        atoms_moved(atoms_of(n), atoms_of(crate::edit::transposed(n, offset)), offset),
    decreases n,
{
    match n {
        NoteV::Atom { midi, duration, parameters } => {
            let t = crate::edit::transposed(n, offset);
            assert(t == NoteV::Atom { midi: crate::edit::shifted(midi, offset), duration, parameters });
            assert(atoms_of(t) == seq![(crate::edit::shifted(midi, offset), duration)]);
            assert(atoms_of(n) == seq![(midi, duration)]);
            assert(crate::edit::shifted(midi, offset) as int == moved_pitch(midi, offset));
            assert(atoms_of(t).len() == 1 && atoms_of(n).len() == 1);
            assert(atoms_of(t)[0] == (crate::edit::shifted(midi, offset), duration));
            assert(atoms_of(n)[0] == (midi, duration));
        },
        NoteV::Serial(s) => lemma_atoms_in_transposed(s, crate::edit::transposed(n, offset)->Serial_0, offset),
        NoteV::Parallel(s) => lemma_atoms_in_transposed(s, crate::edit::transposed(n, offset)->Parallel_0, offset),
        NoteV::ParallelMin(s) => lemma_atoms_in_transposed(s, crate::edit::transposed(n, offset)->ParallelMin_0, offset),
        NoteV::ForkSequence(s) => lemma_atoms_in_transposed(s, crate::edit::transposed(n, offset)->ForkSequence_0, offset),
        NoteV::ForkParallel(s) => lemma_atoms_in_transposed(s, crate::edit::transposed(n, offset)->ForkParallel_0, offset),
        _ => {},
    }
}

/// Transposition moves every pitched atom at any depth (in sequences,
/// chords, shortest-voice blocks and forks alike) by the offset, clamped to
/// 0..=127, and keeps the atoms, their order and their durations; a zero
/// offset changes nothing.
pub proof fn law_transpose_moves_every_atom(n: NoteV, offset: i8)
    ensures
        offset != 0 ==> atoms_moved(atoms_of(n), atoms_of(crate::edit::transpose_spec(n, offset)), offset),
        offset == 0 ==> crate::edit::transpose_spec(n, offset) == n,
{
    if offset != 0 {
        lemma_atoms_transposed(n, offset);
    }
}

/// `transpose_all` moves every atom of every note, as `transpose_note` does.
pub proof fn law_transpose_all_moves_every_atom(notes: Seq<NoteV>, offset: i8, i: int)
    requires
        0 <= i < notes.len(),
        offset != 0,
    ensures
        crate::algo::transposed_all(notes, offset).len() == notes.len(),
        atoms_moved(atoms_of(notes[i]), atoms_of(crate::algo::transposed_all(notes, offset)[i]), offset),
{
    law_transpose_moves_every_atom(notes[i], offset);
}


// --- ambitus ---

/// Clipping leaves a pitch already within `lo..=hi` where it is and moves
/// one outside to the nearer end; the note keeps its duration and
/// attributes, and anything but an atom is unchanged.
pub proof fn law_ambitus_clip(n: NoteV, lo: u8, hi: u8)
    requires
        lo <= hi,
    ensures
        match n {
            NoteV::Atom { midi, duration, parameters } => {
                let r = crate::algo::ambitus_spec(n, lo, hi, AmbitusMode::Clip);
                &&& r is Atom
                &&& r->Atom_duration == duration
                &&& r->Atom_parameters == parameters
                &&& lo <= midi <= hi ==> r->Atom_midi == midi
                &&& midi < lo ==> r->Atom_midi == lo
                &&& midi > hi ==> r->Atom_midi == hi
            },
            _ => crate::algo::ambitus_spec(n, lo, hi, AmbitusMode::Clip) == n,
        },
{
}

proof fn lemma_fold_up(p: u8, lo: u8)
    requires
        lo <= 127,
    ensures
        p >= lo ==> crate::algo::fold_up(p, lo) == p,
        p < lo ==> lo <= crate::algo::fold_up(p, lo) < lo + 12,
        crate::algo::fold_up(p, lo) % 12 == p % 12,
    decreases 256 - p,
{
    if p < lo {
        lemma_fold_up((p + 12) as u8, lo);
    }
}

proof fn lemma_fold_down(p: u8, hi: u8)
    requires
        hi >= 11,
    ensures
        p <= hi ==> crate::algo::fold_down(p, hi) == p,
        p > hi ==> hi - 12 < crate::algo::fold_down(p, hi) <= hi,
        crate::algo::fold_down(p, hi) % 12 == p % 12,
    decreases p,
{
    if p > hi {
        lemma_fold_down((p - 12) as u8, hi);
    }
}

/// Folding moves a pitch by whole octaves into `lo..=hi` when the range
/// spans at least an octave: the pitch class is kept, a pitch already in
/// range stays, and the note keeps its duration and attributes.
pub proof fn law_ambitus_fold(n: NoteV, lo: u8, hi: u8)
    requires
        lo <= hi <= 127,
        hi - lo >= 11,
    ensures
        match n {
            NoteV::Atom { midi, duration, parameters } => {
                let r = crate::algo::ambitus_spec(n, lo, hi, AmbitusMode::Fold);
                &&& r is Atom
                &&& r->Atom_duration == duration
                &&& r->Atom_parameters == parameters
                &&& lo <= r->Atom_midi <= hi
                &&& r->Atom_midi % 12 == midi % 12
                &&& lo <= midi <= hi ==> r->Atom_midi == midi
            },
            _ => crate::algo::ambitus_spec(n, lo, hi, AmbitusMode::Fold) == n,
        },
{
    match n {
        NoteV::Atom { midi, duration, parameters } => {
            lemma_fold_up(midi, lo);
            let q = crate::algo::fold_up(midi, lo);
            lemma_fold_down(q, hi);
        },
        _ => {},
    }
}


// --- repeated pitches ---

/// The pitch of an atom; `None` for anything else.
pub open spec fn pitch_of(n: NoteV) -> Option<u8> {
    match n {
        NoteV::Atom { midi, .. } => Some(midi),
        _ => None,
    }
}

/// Notes `i..=j` are atoms of one pitch.
pub open spec fn pitch_run(notes: Seq<NoteV>, i: int, j: int) -> bool {
    &&& 0 <= i <= j < notes.len()
    &&& pitch_of(notes[i]) is Some
    &&& forall|k: int| i <= k <= j ==> pitch_of(#[trigger] notes[k]) == pitch_of(notes[i])
}

/// How many notes of a run of `len` notes of one pitch are kept.
pub open spec fn run_keep(len: int, max_run: usize) -> int {
    if max_run == 0 { 1 } else if len <= max_run { len } else { max_run as int }
}

proof fn lemma_dedup_run(max_run: usize, notes: Seq<NoteV>, p: u8)
    requires
        notes.len() >= 1,
        forall|i: int| 0 <= i < notes.len() ==> pitch_of(#[trigger] notes[i]) == Some(p),
    ensures
        crate::algo::dedup_fold(max_run, notes) == (notes.take(run_keep(notes.len() as int, max_run)), Some(p), notes.len() as int),
    decreases notes.len(),
{
    let k = notes.len() as int;
    let q = notes.drop_last();
    let n = notes.last();
    assert(pitch_of(notes[k - 1]) == Some(p));
    assert(n == notes[k - 1]);
    let d = match n { NoteV::Atom { duration, .. } => duration, _ => 0u64 };
    assert(crate::algo::parts(n) == Some((Some(p), d)));
    if k == 1 {
        assert(q =~= Seq::<NoteV>::empty());
        assert(crate::algo::dedup_fold(max_run, q) == (Seq::<NoteV>::empty(), None::<u8>, 0int));
        assert(notes.take(1) =~= Seq::<NoteV>::empty().push(n));
    } else {
        assert forall|i: int| 0 <= i < q.len() implies pitch_of(#[trigger] q[i]) == Some(p) by {
            assert(q[i] == notes[i]);
        }
        lemma_dedup_run(max_run, q, p);
        let kq = run_keep(k - 1, max_run);
        assert(crate::algo::dedup_fold(max_run, q) == (q.take(kq), Some(p), k - 1));
        if k <= max_run {
            assert(q.take(kq).push(n) =~= notes.take(k));
        } else {
            assert(q.take(kq) =~= notes.take(run_keep(k, max_run)));
        }
    }
}

/// A run of one pitch keeps its first `max_run` notes (at least one): a run
/// no longer than `max_run` is kept whole, a longer one is cut to
/// `max_run` notes.
pub proof fn law_dedup_cuts_runs_to_max(max_run: usize, notes: Seq<NoteV>, p: u8)
    requires
        notes.len() >= 1,
        forall|i: int| 0 <= i < notes.len() ==> pitch_of(#[trigger] notes[i]) == Some(p),
    ensures
        notes.len() <= max_run ==> crate::algo::dedup_fold(max_run, notes).0 == notes,
        notes.len() > max_run >= 1 ==> crate::algo::dedup_fold(max_run, notes).0 == notes.take(max_run as int),
        max_run == 0 ==> crate::algo::dedup_fold(max_run, notes).0 == notes.take(1),
{
    lemma_dedup_run(max_run, notes, p);
    if notes.len() <= max_run {
        assert(notes.take(notes.len() as int) =~= notes);
    }
}

proof fn lemma_dedup_keeps(max_run: usize, notes: Seq<NoteV>, k: int)
    requires
        0 <= k <= notes.len(),
        forall|i: int, j: int| #[trigger] pitch_run(notes, i, j) ==> j - i + 1 <= max_run,
    ensures
        ({
            let (out, rp, rl) = crate::algo::dedup_fold(max_run, notes.take(k));
            &&& out == notes.take(k)
            &&& rp is Some <==> rl >= 1
            &&& 0 <= rl <= k
            &&& rl >= 1 ==> pitch_run(notes, k - rl, k - 1) && rp == pitch_of(notes[k - 1])
            &&& rl == 0 ==> (k == 0 || pitch_of(notes[k - 1]) is None)
        }),
    decreases k,
{
    let t = notes.take(k);
    if k == 0 {
        assert(t =~= Seq::<NoteV>::empty());
    } else {
        lemma_dedup_keeps(max_run, notes, k - 1);
        assert(t.drop_last() =~= notes.take(k - 1));
        let (out, rp, rl) = crate::algo::dedup_fold(max_run, notes.take(k - 1));
        let n = notes[k - 1];
        assert(t.last() == n);
        match n {
            NoteV::Atom { midi, duration, .. } => {
                assert(crate::algo::parts(n) == Some((Some(midi), duration)));
                if Some(midi) == rp {
                    assert(pitch_run(notes, k - 1 - rl, k - 1)) by {
                        assert forall|x: int| k - 1 - rl <= x <= k - 1 implies pitch_of(#[trigger] notes[x]) == pitch_of(notes[k - 1 - rl]) by {
                            if x < k - 1 {
                                assert(pitch_of(notes[x]) == pitch_of(notes[k - 1 - rl]));
                            }
                        }
                    }
                    assert(out.push(n) =~= t);
                } else {
                    assert(pitch_run(notes, k - 1, k - 1));
                    assert(out.push(n) =~= t);
                }
            },
            NoteV::Rest { duration, .. } => {
                assert(crate::algo::parts(n) == Some((None::<u8>, duration)));
                assert(out.push(n) =~= t);
            },
            _ => {
                assert(out.push(n) =~= t);
            },
        }
    }
}

/// A list with no run of one pitch longer than `max_run` comes back
/// whole: only notes beyond `max_run` in a run are ever removed.
pub proof fn law_dedup_keeps_short_runs(max_run: usize, notes: Seq<NoteV>)
    requires
        forall|i: int, j: int| #[trigger] pitch_run(notes, i, j) ==> j - i + 1 <= max_run,
    ensures
        crate::algo::dedup_fold(max_run, notes).0 == notes,
{
    lemma_dedup_keeps(max_run, notes, notes.len() as int);
    assert(notes.take(notes.len() as int) =~= notes);
}


// --- twelve-tone rows ---

/// The inversion mirrors every pitch class of the row (each pitch and its
/// inversion add up to a multiple of an octave, as classes below 12), and
/// the retrograde inversion mirrors the retrograde the same way.
pub proof fn law_twelve_tone_inversion_mirrors(row: Seq<u8>)
    requires
        row.len() == 12,
        forall|i: int| 0 <= i < 12 ==> row[i] <= 24,
    ensures
        ({
            let inv = row.map_values(|p: u8| crate::series::invert_class(p));
            let ri = inv.reverse();
            let rg = row.reverse();
            &&& inv.len() == 12 && ri.len() == 12
            &&& forall|i: int| 0 <= i < 12 ==> (row[i] + #[trigger] inv[i]) % 12 == 0 && inv[i] < 12
            &&& forall|i: int| 0 <= i < 12 ==> (rg[i] + #[trigger] ri[i]) % 12 == 0 && ri[i] < 12
        }),
{
    let inv = row.map_values(|p: u8| crate::series::invert_class(p));
    assert forall|i: int| 0 <= i < 12 implies (row[i] + #[trigger] inv[i]) % 12 == 0 && inv[i] < 12 by {
        let p = row[i];
        assert(inv[i] == crate::series::invert_class(p));
        assert((p + (24 - p) % 12) % 12 == 0) by (nonlinear_arith)
            requires p <= 24;
    }
    let ri = inv.reverse();
    let rg = row.reverse();
    assert forall|i: int| 0 <= i < 12 implies (rg[i] + #[trigger] ri[i]) % 12 == 0 && ri[i] < 12 by {
        assert(ri[i] == inv[11 - i] && rg[i] == row[11 - i]);
    }
}

} // verus!
