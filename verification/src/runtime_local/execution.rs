//! The context of one execution.

use vstd::prelude::*;

verus! {

/// What identifies an execution.
pub struct ExecutionContext {
    pub request_id: String,
}

} // verus!
