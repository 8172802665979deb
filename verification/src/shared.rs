//! Values with more than one owner.

use std::sync::Arc;
use vstd::prelude::*;

verus! {

/// Calls `Arc::clone`, which gives another pointer to the same value.
#[verifier::external_body]
pub(crate) fn share<T>(owner: &Arc<T>) -> (other: Arc<T>)
    ensures
        *other == **owner,
{
    Arc::clone(owner)
}

} // verus!
