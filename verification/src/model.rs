//! The mathematical model of the modal stack: a sequence of key/entry pairs
//! in insertion order, oldest first, together with the order-preserving
//! insert-or-overwrite and removal operations that the stack performs.

use vstd::prelude::*;

use crate::data::ModalData;

verus! {

/// Whether some entry of `s` is registered under key `k`.
pub open spec fn has_key(s: Seq<(u128, ModalData)>, k: u128) -> bool {
    exists|i: int| 0 <= i < s.len() && s[i].0 == k
}

/// An index of `s` holding the entry registered under key `k`.
pub open spec fn key_index(s: Seq<(u128, ModalData)>, k: u128) -> int {
    choose|i: int| 0 <= i < s.len() && s[i].0 == k
}

/// No two entries of `s` share a key.
pub open spec fn keys_unique(s: Seq<(u128, ModalData)>) -> bool {
    forall|i: int, j: int| 0 <= i < j < s.len() ==> s[i].0 != s[j].0
}

/// Every entry of `s` records the key it is registered under as its own
/// identifier.
pub open spec fn ids_consistent(s: Seq<(u128, ModalData)>) -> bool {
    forall|i: int| 0 <= i < s.len() ==> (#[trigger] s[i]).1.id == s[i].0
}

/// Order-preserving insert-or-overwrite: an existing key keeps its place in
/// the order and has its value replaced; a new key is appended last.
pub open spec fn stack_insert(s: Seq<(u128, ModalData)>, k: u128, v: ModalData) -> Seq<
    (u128, ModalData),
> {
    if has_key(s, k) {
        s.update(key_index(s, k), (k, v))
    } else {
        s.push((k, v))
    }
}

/// Order-preserving removal by key: later entries shift down one place; a
/// no-op when the key is absent.
pub open spec fn stack_remove(s: Seq<(u128, ModalData)>, k: u128) -> Seq<(u128, ModalData)> {
    if has_key(s, k) {
        s.remove(key_index(s, k))
    } else {
        s
    }
}

/// The entry that is presented: the most recently inserted surviving one, if
/// any.
pub open spec fn top_of(s: Seq<(u128, ModalData)>) -> Option<ModalData> {
    if s.len() == 0 {
        None
    } else {
        Some(s.last().1)
    }
}

/// When `k` is present, `key_index` names a position that holds it.
pub proof fn lemma_key_index_valid(s: Seq<(u128, ModalData)>, k: u128)
    requires
        has_key(s, k),
    ensures
        0 <= key_index(s, k) < s.len(),
        s[key_index(s, k)].0 == k,
{
}

/// Inserting under key `k` registers exactly the keys that were registered
/// before, plus `k`.
pub proof fn lemma_insert_has_key(s: Seq<(u128, ModalData)>, k: u128, v: ModalData, k2: u128)
    ensures
        has_key(stack_insert(s, k, v), k2) == (has_key(s, k2) || k2 == k),
{
    let s2 = stack_insert(s, k, v);
    if has_key(s, k) {
        lemma_key_index_valid(s, k);
        assert(forall|i: int| 0 <= i < s2.len() ==> (#[trigger] s2[i]).0 == s[i].0);
        if has_key(s2, k2) {
            let i = choose|i: int| 0 <= i < s2.len() && s2[i].0 == k2;
            assert(s[i].0 == k2);
        }
        if has_key(s, k2) {
            let i = choose|i: int| 0 <= i < s.len() && s[i].0 == k2;
            assert(s2[i].0 == k2);
        }
        if k2 == k {
            assert(s2[key_index(s, k)].0 == k2);
        }
    } else {
        assert(forall|i: int| 0 <= i < s.len() ==> (#[trigger] s2[i]).0 == s[i].0);
        assert(s2[s.len() as int].0 == k);
        if has_key(s2, k2) {
            let i = choose|i: int| 0 <= i < s2.len() && s2[i].0 == k2;
            if i < s.len() {
                assert(s[i].0 == k2);
            }
        }
        if has_key(s, k2) {
            let i = choose|i: int| 0 <= i < s.len() && s[i].0 == k2;
            assert(s2[i].0 == k2);
        }
    }
}

/// With unique keys, `key_index` is the only position that holds `k`.
pub proof fn lemma_key_index_unique(s: Seq<(u128, ModalData)>, k: u128, i: int)
    requires
        keys_unique(s),
        has_key(s, k),
        0 <= i < s.len(),
        s[i].0 == k,
    ensures
        i == key_index(s, k),
{
    lemma_key_index_valid(s, k);
}

} // verus!
