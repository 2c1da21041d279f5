//! The modal stack: an ordered collection of active modal entries, keyed by
//! identifier. Insertion order determines which single entry is presented
//! (the last inserted surviving one wins); removal is by identifier lookup
//! and is a no-op when the identifier is absent.

use vstd::prelude::*;

use crate::data::ModalData;
use crate::index_map::{entries_of, im_contains_key, im_insert, im_last, im_len, im_new, im_shift_remove};
use crate::model::{
    has_key, ids_consistent, key_index, keys_unique, lemma_key_index_valid, stack_insert,
    stack_remove, top_of,
};

verus! {

/// Inserting an entry whose identifier equals its key preserves
/// well-formedness, and registers the key.
proof fn lemma_insert_preserves_wf(s: Seq<(u128, ModalData)>, k: u128, v: ModalData)
    requires
        keys_unique(s),
        ids_consistent(s),
        v.id == k,
    ensures
        keys_unique(stack_insert(s, k, v)),
        ids_consistent(stack_insert(s, k, v)),
        has_key(stack_insert(s, k, v), k),
        has_key(s, k) ==> stack_insert(s, k, v).len() == s.len(),
        !has_key(s, k) ==> stack_insert(s, k, v).len() == s.len() + 1,
{
    let s2 = stack_insert(s, k, v);
    if has_key(s, k) {
        lemma_key_index_valid(s, k);
        let idx = key_index(s, k);
        assert(forall|i: int| 0 <= i < s2.len() ==> (#[trigger] s2[i]).0 == s[i].0);
        assert(s2[idx].0 == k);
    } else {
        assert(forall|i: int| 0 <= i < s.len() ==> (#[trigger] s[i]).0 != k);
        assert(s2[s.len() as int].0 == k);
    }
}

/// Removing by key preserves well-formedness; with unique keys the key is
/// gone afterwards, and exactly one entry left with it.
proof fn lemma_remove_preserves_wf(s: Seq<(u128, ModalData)>, k: u128)
    requires
        keys_unique(s),
        ids_consistent(s),
    ensures
        keys_unique(stack_remove(s, k)),
        ids_consistent(stack_remove(s, k)),
        !has_key(stack_remove(s, k), k),
        has_key(s, k) ==> stack_remove(s, k).len() == s.len() - 1,
        !has_key(s, k) ==> stack_remove(s, k) == s,
{
    let s2 = stack_remove(s, k);
    if has_key(s, k) {
        lemma_key_index_valid(s, k);
        let idx = key_index(s, k);
        s.remove_ensures(idx);
        assert forall|j: int| 0 <= j < s2.len() implies (#[trigger] s2[j]).0 != k by {
            if j < idx {
                assert(s2[j] == s[j]);
            } else {
                assert(s2[j] == s[j + 1]);
            }
        }
        assert forall|i: int, j: int| 0 <= i < j < s2.len() implies (#[trigger] s2[i]).0 != (
        #[trigger] s2[j]).0 by {
            let i0: int = if i < idx { i } else { i + 1 };
            let j0: int = if j < idx { j } else { j + 1 };
            assert(s2[i] == s[i0]);
            assert(s2[j] == s[j0]);
        }
        assert forall|i: int| 0 <= i < s2.len() implies (#[trigger] s2[i]).1.id == s2[i].0 by {
            if i < idx {
                assert(s2[i] == s[i]);
            } else {
                assert(s2[i] == s[i + 1]);
            }
        }
    } else {
    }
}

/// An ordered stack of active modal entries, keyed by identifier.
pub struct ModalStack {
    map: indexmap::IndexMap<u128, ModalData>,
}

impl ModalStack {
    /// The registered entries in insertion order, oldest first.
    pub closed spec fn entries(&self) -> Seq<(u128, ModalData)> {
        entries_of(self.map)
    }

    /// Well-formed: no two entries share an identifier, and each entry
    /// records the identifier it is registered under.
    pub open spec fn wf(&self) -> bool {
        keys_unique(self.entries()) && ids_consistent(self.entries())
    }

    /// An empty stack: nothing registered, nothing presented.
    pub fn new() -> (s: Self)
        ensures
            s.wf(),
            s.entries() == Seq::<(u128, ModalData)>::empty(),
    {
        let s = ModalStack { map: im_new() };
        s
    }

    /// Inserts the entry under its own identifier, overwriting in place when
    /// that identifier is already registered and appending last otherwise.
    pub fn register(&mut self, data: ModalData)
        requires
            old(self).wf(),
        ensures
            final(self).wf(),
            final(self).entries() == stack_insert(old(self).entries(), data.id, data),
            has_key(final(self).entries(), data.id),
            has_key(old(self).entries(), data.id) ==> final(self).entries().len() == old(
                self,
            ).entries().len(),
            !has_key(old(self).entries(), data.id) ==> final(self).entries().len() == old(
                self,
            ).entries().len() + 1,
    {
        let _ = im_insert(&mut self.map, data.id, data);
        proof {
            lemma_insert_preserves_wf(old(self).entries(), data.id, data);
        }
    }

    /// Removes the entry registered under the identifier, preserving the
    /// order of the rest; a no-op when the identifier is absent. A present
    /// identifier is removed exactly once: afterwards it is gone and the
    /// stack is shorter by exactly one entry.
    pub fn unregister(&mut self, id: u128)
        requires
            old(self).wf(),
        ensures
            final(self).wf(),
            final(self).entries() == stack_remove(old(self).entries(), id),
            !has_key(final(self).entries(), id),
            has_key(old(self).entries(), id) ==> final(self).entries().len() == old(
                self,
            ).entries().len() - 1,
            !has_key(old(self).entries(), id) ==> final(self).entries() == old(self).entries(),
    {
        let _ = im_shift_remove(&mut self.map, &id);
        proof {
            lemma_remove_preserves_wf(old(self).entries(), id);
        }
    }

    /// The entry that is presented: the most recently inserted surviving
    /// one, or `None` when nothing is registered.
    pub fn topmost(&self) -> (r: Option<ModalData>)
        ensures
            r == top_of(self.entries()),
    {
        match im_last(&self.map) {
            Some((_, data)) => Some(data),
            None => None,
        }
    }

    /// Whether the backdrop is shown: exactly when the stack is non-empty.
    pub fn backdrop_visible(&self) -> (r: bool)
        ensures
            r == (self.entries().len() != 0),
    {
        im_len(&self.map) != 0
    }

    /// The number of registered entries.
    pub fn len(&self) -> (n: usize)
        ensures
            n == self.entries().len(),
    {
        im_len(&self.map)
    }

    /// Whether an entry is registered under the identifier.
    pub fn is_registered(&self, id: u128) -> (r: bool)
        ensures
            r == has_key(self.entries(), id),
    {
        im_contains_key(&self.map, &id)
    }
}

} // verus!
