//! The data carried by one modal entry.
//!
//! A modal's content is owned by the host user-interface runtime; this crate
//! only tracks which entry exists and how its content is produced. Content is
//! therefore represented by opaque handles: the caller maps a handle back to
//! the real view or reactive scope it stands for.

use vstd::prelude::*;

verus! {

/// How a modal's content is produced.
#[derive(Clone, Copy, PartialEq, Eq, Structural, Debug)]
pub enum ModalChildren {
    /// A view captured once, at registration time; the handle names it.
    Once(u64),
    /// Content rebuilt on demand inside a nested reactive scope; the handle
    /// names that scope.
    Dynamic(u64),
}

/// One entry of the modal stack: its identifier and its content.
#[derive(Clone, Copy, PartialEq, Eq, Structural, Debug)]
pub struct ModalData {
    /// The identifier under which this entry is registered.
    pub id: u128,
    /// How the entry's content is produced.
    pub children: ModalChildren,
}

} // verus!
