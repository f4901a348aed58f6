//! Values that are shared between owners.

use std::sync::Arc;
use vstd::prelude::*;

verus! {

/// `Arc::clone`: another pointer to the same value.
#[verifier::external_body]
pub(crate) fn share<T>(shared: &Arc<T>) -> (pointer: Arc<T>)
    ensures
        pointer == *shared,
{
    Arc::clone(shared)
}

} // verus!
