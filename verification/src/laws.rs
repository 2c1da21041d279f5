//! The properties the modal stack is meant to have, stated over its model
//! and proved once and for all.

use vstd::prelude::*;

use crate::data::ModalData;
use crate::model::{
    has_key, ids_consistent, key_index, keys_unique, lemma_key_index_unique, lemma_key_index_valid,
    stack_insert, stack_remove, top_of,
};

verus! {

/// An entry is presented exactly when the stack is non-empty, which is
/// exactly when the backdrop is shown: the visibility of both is a pure
/// function of stack emptiness.
pub proof fn lemma_presented_iff_nonempty(s: Seq<(u128, ModalData)>)
    ensures
        (top_of(s) is Some) == (s.len() != 0),
{
}

/// Registering an entry under an identifier not yet registered makes it the
/// presented one: the most recent insertion wins.
pub proof fn lemma_topmost_after_register(s: Seq<(u128, ModalData)>, data: ModalData)
    requires
        !has_key(s, data.id),
    ensures
        top_of(stack_insert(s, data.id, data)) == Some(data),
{
    let s2 = stack_insert(s, data.id, data);
    assert(s2 == s.push((data.id, data)));
    assert(s2.last() == (data.id, data));
}

/// Registering under an identifier that is already registered overwrites the
/// entry in its place: the presented entry changes only when the overwritten
/// one was itself presented.
pub proof fn lemma_topmost_after_overwrite(s: Seq<(u128, ModalData)>, data: ModalData)
    requires
        keys_unique(s),
        has_key(s, data.id),
    ensures
        top_of(stack_insert(s, data.id, data)) == (if s.last().0 == data.id {
            Some(data)
        } else {
            top_of(s)
        }),
{
    lemma_key_index_valid(s, data.id);
    let idx = key_index(s, data.id);
    let s2 = stack_insert(s, data.id, data);
    let n = s.len() as int;
    if s.last().0 == data.id {
        lemma_key_index_unique(s, data.id, n - 1);
        assert(s2.last() == (data.id, data));
    } else {
        assert(idx != n - 1);
        assert(s2.last() == s.last());
    }
}

/// Unregistering an identifier other than the presented entry's leaves the
/// presented entry unchanged: the most recent surviving insertion still
/// wins.
pub proof fn lemma_topmost_after_unregister_other(s: Seq<(u128, ModalData)>, id: u128)
    requires
        ids_consistent(s),
        s.len() != 0,
        s.last().1.id != id,
    ensures
        top_of(stack_remove(s, id)) == top_of(s),
{
    if has_key(s, id) {
        lemma_key_index_valid(s, id);
        let idx = key_index(s, id);
        let n = s.len() as int;
        assert(s[n - 1].1.id == s[n - 1].0);
        assert(idx < n - 1);
        s.remove_ensures(idx);
        let s2 = s.remove(idx);
        assert(s2[n - 2] == s[n - 1]);
        assert(s2.last() == s.last());
    }
}

/// Unregistering the presented entry's identifier drops exactly the last
/// entry, so the next most recent surviving insertion is presented, if any.
pub proof fn lemma_topmost_after_unregister_top(s: Seq<(u128, ModalData)>, id: u128)
    requires
        keys_unique(s),
        s.len() != 0,
        s.last().0 == id,
    ensures
        stack_remove(s, id) == s.drop_last(),
        top_of(stack_remove(s, id)) == (if s.len() >= 2 {
            Some(s[s.len() - 2].1)
        } else {
            None::<ModalData>
        }),
{
    let n = s.len() as int;
    assert(has_key(s, id)) by {
        assert(s[n - 1].0 == id);
    }
    lemma_key_index_unique(s, id, n - 1);
    s.remove_ensures(n - 1);
    assert(s.remove(n - 1) =~= s.drop_last());
}

} // verus!
