//! Unique note identifiers: a counter handed out one value at a time.

use vstd::prelude::*;

verus! {

/// The source of note identifiers; each call of `generate_unique_note_id`
/// takes the next value.
pub struct NoteIds {
    next: u64,
}

impl NoteIds {
    /// The identifier the next call hands out.
    pub closed spec fn view(&self) -> u64 {
        self.next
    }

    /// A counter that starts at 0.
    pub fn new() -> (r: NoteIds)
        ensures
            r@ == 0,
    {
        NoteIds { next: 0 }
    }
}

/// The counter after one identifier was taken (wrapping past `u64::MAX`).
pub open spec fn next_id(n: u64) -> u64 {
    if n == u64::MAX { 0 } else { (n + 1) as u64 }
}

/// Takes the next identifier: the counter's value, which then moves on by
/// one (wrapping).
pub fn generate_unique_note_id(ids: &mut NoteIds) -> (r: u64)
    ensures
        r == old(ids)@,
        final(ids)@ == next_id(old(ids)@),
{
    let r = ids.next;
    ids.next = ids.next.wrapping_add(1);
    r
}

/// The identifiers handed out by `k` calls on a counter at `start`, in
/// order.
pub open spec fn ids_from(start: u64, k: nat) -> Seq<u64>
    decreases k,
{
    if k == 0 {
        Seq::empty()
    } else {
        seq![start] + ids_from(next_id(start), (k - 1) as nat)
    }
}

proof fn lemma_ids_from_values(start: u64, k: nat)
    ensures
        ids_from(start, k).len() == k,
        forall|i: int| 0 <= i < k ==> #[trigger] ids_from(start, k)[i] == (start + i) % 0x1_0000_0000_0000_0000int,
    decreases k,
{
    if k > 0 {
        lemma_ids_from_values(next_id(start), (k - 1) as nat);
        assert forall|i: int| 0 <= i < k implies #[trigger] ids_from(start, k)[i] == (start + i) % 0x1_0000_0000_0000_0000int by {
            if i > 0 {
                assert(ids_from(start, k)[i] == ids_from(next_id(start), (k - 1) as nat)[i - 1]);
                if start == u64::MAX {
                    assert((0 + (i - 1)) % 0x1_0000_0000_0000_0000int == (start + i) % 0x1_0000_0000_0000_0000int) by (nonlinear_arith)
                        requires start == 0xffff_ffff_ffff_ffffu64, 0 < i;
                } else {
                    assert(((start + 1) + (i - 1)) % 0x1_0000_0000_0000_0000int == (start + i) % 0x1_0000_0000_0000_0000int);
                }
            } else {
                assert((start as int) % 0x1_0000_0000_0000_0000int == start as int);
            }
        }
    }
}

/// Identifiers are unique: any `k` successive calls, up to 2^64 of them,
/// hand out pairwise distinct identifiers.
pub proof fn law_ids_distinct(start: u64, k: nat)
    requires
        k <= 0x1_0000_0000_0000_0000int,
    ensures
        forall|i: int, j: int| 0 <= i < j < k ==> ids_from(start, k)[i] != ids_from(start, k)[j],
{
    lemma_ids_from_values(start, k);
    assert forall|i: int, j: int| 0 <= i < j < k implies ids_from(start, k)[i] != ids_from(start, k)[j] by {
        assert(ids_from(start, k)[i] == (start + i) % 0x1_0000_0000_0000_0000int);
        assert(ids_from(start, k)[j] == (start + j) % 0x1_0000_0000_0000_0000int);
        assert((start + i) % 0x1_0000_0000_0000_0000int != (start + j) % 0x1_0000_0000_0000_0000int) by (nonlinear_arith)
            requires 0 <= i < j < 0x1_0000_0000_0000_0000int, 0 <= start < 0x1_0000_0000_0000_0000int;
    }
}

} // verus!
