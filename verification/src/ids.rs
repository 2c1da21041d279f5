//! Generation of modal identifiers.

use vstd::prelude::*;

verus! {

/// Relies on uuid::Uuid::new_v4 and uuid::Uuid::as_u128: draws a random
/// version-4 UUID and returns its 128-bit value. The result is random, so
/// nothing is promised of it.
#[verifier::external_body]
pub(crate) fn fresh_modal_id() -> u128 {
    uuid::Uuid::new_v4().as_u128()
}

} // verus!
