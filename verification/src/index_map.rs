//! Trusted boundary around `indexmap::IndexMap`, the order-preserving map
//! that backs the modal stack.
//!
//! The map's contents are named by the uninterpreted function `entries_of`;
//! each wrapper states, over that name, what the corresponding `IndexMap`
//! method does according to its documented behaviour.

use vstd::prelude::*;

use crate::data::ModalData;
use crate::model::{has_key, key_index, stack_insert, stack_remove};

verus! {

#[verifier::external_type_specification]
#[verifier::external_body]
#[verifier::reject_recursive_types(K)]
#[verifier::reject_recursive_types(V)]
#[verifier::reject_recursive_types(S)]
pub struct ExIndexMap<K, V, S>(indexmap::IndexMap<K, V, S>);

/// The entries held by an ordered modal map, oldest insertion first.
pub uninterp spec fn entries_of(m: indexmap::IndexMap<u128, ModalData>) -> Seq<(u128, ModalData)>;

/// Relies on indexmap::IndexMap::new: creates an empty map.
#[verifier::external_body]
pub(crate) fn im_new() -> (m: indexmap::IndexMap<u128, ModalData>)
    ensures
        entries_of(m) == Seq::<(u128, ModalData)>::empty(),
{
    indexmap::IndexMap::new()
}

/// Relies on indexmap::IndexMap::len: the number of entries in the map.
#[verifier::external_body]
pub(crate) fn im_len(m: &indexmap::IndexMap<u128, ModalData>) -> (n: usize)
    ensures
        n == entries_of(*m).len(),
{
    m.len()
}

/// Relies on indexmap::IndexMap::contains_key: whether an entry is registered
/// under the key.
#[verifier::external_body]
pub(crate) fn im_contains_key(m: &indexmap::IndexMap<u128, ModalData>, k: &u128) -> (r: bool)
    ensures
        r == has_key(entries_of(*m), *k),
{
    m.contains_key(k)
}

/// Relies on indexmap::IndexMap::insert: an existing key keeps its place in
/// the order and has its value replaced, and the older value is returned; a
/// new key is appended last and `None` is returned.
#[verifier::external_body]
pub(crate) fn im_insert(
    m: &mut indexmap::IndexMap<u128, ModalData>,
    k: u128,
    v: ModalData,
) -> (r: Option<ModalData>)
    ensures
        entries_of(*final(m)) == stack_insert(entries_of(*old(m)), k, v),
        has_key(entries_of(*old(m)), k) ==> r == Some(
            entries_of(*old(m))[key_index(entries_of(*old(m)), k)].1,
        ),
        !has_key(entries_of(*old(m)), k) ==> r is None,
{
    m.insert(k, v)
}

/// Relies on indexmap::IndexMap::shift_remove: removes the entry registered
/// under the key, shifting all later entries down one place and preserving
/// their order, and returns its value; returns `None` when the key is absent.
#[verifier::external_body]
pub(crate) fn im_shift_remove(
    m: &mut indexmap::IndexMap<u128, ModalData>,
    k: &u128,
) -> (r: Option<ModalData>)
    ensures
        entries_of(*final(m)) == stack_remove(entries_of(*old(m)), *k),
        has_key(entries_of(*old(m)), *k) ==> r == Some(
            entries_of(*old(m))[key_index(entries_of(*old(m)), *k)].1,
        ),
        !has_key(entries_of(*old(m)), *k) ==> r is None,
{
    m.shift_remove(k)
}

/// Relies on indexmap::IndexMap::last: the last key-value pair in order,
/// i.e. the most recently appended surviving entry; the wrapper copies the
/// pair out.
#[verifier::external_body]
pub(crate) fn im_last(m: &indexmap::IndexMap<u128, ModalData>) -> (r: Option<(u128, ModalData)>)
    ensures
        entries_of(*m).len() == 0 ==> r is None,
        entries_of(*m).len() != 0 ==> r == Some(entries_of(*m).last()),
{
    m.last().map(|(k, v)| (*k, *v))
}

} // verus!
