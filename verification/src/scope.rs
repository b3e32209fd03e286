//! Parameter scope while a score plays: a setter changes the parameters in
//! force for everything after it in its sequence, while a parallel block,
//! a fork and the notes themselves leave them as they were (their
//! branches and per-note attributes work on copies).

use vstd::prelude::*;
use linked_hash_map::LinkedHashMap;
use crate::note::{Note, NoteV, ParamValue, ParamValueV, ParamsV, copy_string, notes_view};
use crate::attrs::{attr_entries, attrs_insert, attrs_remove, insert_entry, without_key};

verus! {

/// The parameters in force after `n` has played from `active`.
pub open spec fn scope_after(n: NoteV, active: ParamsV) -> ParamsV
    decreases n,
{
    match n {
        NoteV::ParamSetter { key, value } => match value {
            ParamValueV::Unset => without_key(active, key),
            _ => insert_entry(active, key, value),
        },
        NoteV::Serial(items) => scope_fold(items, active),
        _ => active,
    }
}

/// The parameters in force after the items have played in sequence.
pub open spec fn scope_fold(items: Seq<NoteV>, active: ParamsV) -> ParamsV
    decreases items,
{
    if items.len() == 0 {
        active
    } else {
        proof {
            assert(items.drop_last() =~= items.subrange(0, items.len() - 1));
        }
        scope_after(items[items.len() - 1], scope_fold(items.drop_last(), active))
    }
}

/// Applies what playing `note` does to the parameters in force.
pub fn apply_scope(note: &Note, active: &mut LinkedHashMap<String, ParamValue>)
    ensures
        attr_entries(*final(active)) == scope_after(note@, attr_entries(*old(active))),
    decreases note,
{
    match note {
        Note::ParamSetter { key, value } => match value {
            ParamValue::Unset => attrs_remove(active, key.as_str()),
            _ => attrs_insert(active, copy_string(key), value.duplicate()),
        },
        Note::Serial(items) => apply_scope_all(items, active),
        _ => {},
    }
}

/// Applies what playing the items in sequence does to the parameters.
fn apply_scope_all(items: &Vec<Note>, active: &mut LinkedHashMap<String, ParamValue>)
    ensures
        attr_entries(*final(active)) == scope_fold(notes_view(items@), attr_entries(*old(active))),
    decreases items,
{
    let ghost start = attr_entries(*active);
    let ghost iv = notes_view(items@);
    assert(iv.take(0) =~= Seq::<NoteV>::empty());
    let n = items.len();
    for i in 0..n
        invariant
            n == items@.len(),
            iv == notes_view(items@),
            attr_entries(*active) == scope_fold(iv.take(i as int), start),
    {
        proof {
            assert(decreases_to!(items => items@));
            assert(iv.take(i + 1).drop_last() =~= iv.take(i as int));
            assert(iv.take(i + 1)[i as int] == items@[i as int]@);
        }
        apply_scope(&items[i], active);
    }
    assert(iv.take(n as int) =~= iv);
}

} // verus!
