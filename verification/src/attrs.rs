//! Ordered parameter maps: `linked_hash_map::LinkedHashMap<String, ParamValue>`
//! behind trusted wrappers, with its contents modelled as an ordered list of
//! distinct keys and their values.

use vstd::prelude::*;
use linked_hash_map::LinkedHashMap;
use crate::note::{ParamValue, ParamValueV, ParamsV, params_view};

verus! {

#[verifier::external_type_specification]
#[verifier::external_body]
#[verifier::reject_recursive_types(K)]
#[verifier::reject_recursive_types(V)]
#[verifier::reject_recursive_types(S)]
pub struct ExLinkedHashMap<K, V, S>(LinkedHashMap<K, V, S>);

/// The entries of an ordered parameter map, in iteration order (oldest first).
pub uninterp spec fn attr_entries(m: LinkedHashMap<String, ParamValue>) -> ParamsV;

/// `s` with every entry for key `k` removed, order otherwise kept.
pub open spec fn without_key(s: ParamsV, k: Seq<char>) -> ParamsV
    decreases s.len(),
{
    if s.len() == 0 {
        s
    } else {
        let rest = without_key(s.drop_last(), k);
        if s.last().0 == k {
            rest
        } else {
            rest.push(s.last())
        }
    }
}

/// Inserting into an ordered map: a present key is moved to the back with
/// its new value, a fresh key is appended.
pub open spec fn insert_entry(s: ParamsV, k: Seq<char>, v: ParamValueV) -> ParamsV {
    without_key(s, k).push((k, v))
}

/// Inserting every entry of `items`, in order, into `base`.
pub open spec fn insert_all(base: ParamsV, items: ParamsV) -> ParamsV
    decreases items.len(),
{
    if items.len() == 0 {
        base
    } else {
        let prefix = insert_all(base, items.drop_last());
        insert_entry(prefix, items.last().0, items.last().1)
    }
}

/// No key occurs twice.
pub open spec fn distinct_keys(s: ParamsV) -> bool {
    forall|i: int, j: int| 0 <= i < j < s.len() ==> s[i].0 != s[j].0
}

/// `LinkedHashMap::new`: an empty map.
#[verifier::external_body]
pub(crate) fn attrs_new() -> (m: LinkedHashMap<String, ParamValue>)
    ensures
        attr_entries(m) == Seq::<(Seq<char>, ParamValueV)>::empty(),
{
    LinkedHashMap::new()
}

/// `LinkedHashMap::insert`: a key already present gets the new value and
/// moves to the back of the iteration order; a fresh key is appended.
#[verifier::external_body]
pub(crate) fn attrs_insert(m: &mut LinkedHashMap<String, ParamValue>, k: String, v: ParamValue)
    ensures
        attr_entries(*final(m)) == insert_entry(attr_entries(*old(m)), k@, v.view()),
{
    m.insert(k, v);
}

/// `LinkedHashMap::remove`: the entry for `k`, if any, leaves; the others
/// keep their order.
#[verifier::external_body]
pub(crate) fn attrs_remove(m: &mut LinkedHashMap<String, ParamValue>, k: &str)
    ensures
        attr_entries(*final(m)) == without_key(attr_entries(*old(m)), k@),
{
    m.remove(k);
}

/// `LinkedHashMap::from_iter` (`collect`): inserts the pairs in order.
#[verifier::external_body]
pub(crate) fn attrs_from_vec(items: Vec<(String, ParamValue)>) -> (m: LinkedHashMap<String, ParamValue>)
    ensures
        attr_entries(m) == insert_all(Seq::empty(), params_view(items@)),
{
    items.into_iter().collect()
}

/// `LinkedHashMap::into_iter` collected: the entries in iteration order.
#[verifier::external_body]
pub(crate) fn attrs_into_vec(m: LinkedHashMap<String, ParamValue>) -> (r: Vec<(String, ParamValue)>)
    ensures
        params_view(r@) == attr_entries(m),
{
    m.into_iter().collect()
}

/// `LinkedHashMap::iter` collected: borrowed entries in iteration order.
#[verifier::external_body]
pub(crate) fn attrs_entries(m: &LinkedHashMap<String, ParamValue>) -> (r: Vec<(&String, &ParamValue)>)
    ensures
        r@.len() == attr_entries(*m).len(),
        forall|i: int| 0 <= i < r@.len() ==> (#[trigger] r@[i]).0@ == attr_entries(*m)[i].0
            && r@[i].1.view() == attr_entries(*m)[i].1,
{
    m.iter().collect()
}

pub proof fn lemma_without_key_absent(s: ParamsV, k: Seq<char>)
    ensures
        forall|i: int| 0 <= i < without_key(s, k).len() ==> (#[trigger] without_key(s, k)[i]).0 != k,
        without_key(s, k).len() <= s.len(),
    decreases s.len(),
{
    if s.len() > 0 {
        lemma_without_key_absent(s.drop_last(), k);
    }
}

pub proof fn lemma_without_key_distinct(s: ParamsV, k: Seq<char>)
    requires
        distinct_keys(s),
    ensures
        distinct_keys(without_key(s, k)),
        forall|i: int| 0 <= i < without_key(s, k).len() ==> exists|j: int| 0 <= j < s.len() && s[j] == #[trigger] without_key(s, k)[i],
    decreases s.len(),
{
    if s.len() > 0 {
        let t = s.drop_last();
        assert(distinct_keys(t));
        lemma_without_key_distinct(t, k);
        let r = without_key(t, k);
        if s.last().0 != k {
            assert forall|i: int| 0 <= i < r.len() implies (#[trigger] r[i]).0 != s.last().0 by {
                let j = choose|j: int| 0 <= j < t.len() && t[j] == r[i];
                assert(s[j] == t[j]);
            }
            assert forall|i: int| 0 <= i < without_key(s, k).len() implies exists|j: int| 0 <= j < s.len() && s[j] == #[trigger] without_key(s, k)[i] by {
                if i < r.len() {
                    let j = choose|j: int| 0 <= j < t.len() && t[j] == r[i];
                    assert(s[j] == t[j]);
                } else {
                    assert(s[s.len() - 1] == without_key(s, k)[i]);
                }
            }
        } else {
            assert forall|i: int| 0 <= i < without_key(s, k).len() implies exists|j: int| 0 <= j < s.len() && s[j] == #[trigger] without_key(s, k)[i] by {
                let j = choose|j: int| 0 <= j < t.len() && t[j] == r[i];
                assert(s[j] == t[j]);
            }
        }
    }
}

/// Inserting keeps the keys distinct.
pub proof fn lemma_insert_entry_distinct(s: ParamsV, k: Seq<char>, v: ParamValueV)
    requires
        distinct_keys(s),
    ensures
        distinct_keys(insert_entry(s, k, v)),
{
    lemma_without_key_distinct(s, k);
    lemma_without_key_absent(s, k);
}

/// A map built by insertions has distinct keys.
pub proof fn lemma_insert_all_distinct(base: ParamsV, items: ParamsV)
    requires
        distinct_keys(base),
    ensures
        distinct_keys(insert_all(base, items)),
    decreases items.len(),
{
    if items.len() > 0 {
        lemma_insert_all_distinct(base, items.drop_last());
        lemma_insert_entry_distinct(insert_all(base, items.drop_last()), items.last().0, items.last().1);
    }
}

} // verus!
