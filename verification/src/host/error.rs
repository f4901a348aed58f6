//! Errors of the extension host.

use vstd::prelude::*;
use crate::host::lease::LeaseError;

verus! {

/// A failure of the host or a breach of the guest protocol. It is reported
/// to the caller as an internal error and never coerced into a verdict.
#[derive(Clone, Copy, Debug, PartialEq, Eq, Structural)]
pub enum InternalError {
    /// The instance was left poisoned by an earlier call.
    Poisoned,
    /// The guest trapped, or the call did not run to its end.
    Trapped,
    /// A resource handle could not be made or redeemed.
    Lease(LeaseError),
    /// A handle was redeemed for a resource of another kind.
    WrongResourceKind,
    /// The guest returned a per-item decision list whose length is neither
    /// one nor the number of items.
    DecisionCardinality { decisions: usize, items: usize },
    /// The guest returned no verdict at all.
    MissingVerdict,
    /// The request uses a method that the guest interface cannot express.
    UnsupportedMethod,
    /// The guest returned a URL that does not parse.
    InvalidUrl,
}

/// An error that a guest declared for reasons of its own: a message and
/// serialized, machine-readable extension data.
#[derive(Debug)]
pub struct GuestError {
    pub message: String,
    pub extensions: Vec<(String, Vec<u8>)>,
}

/// An error response that a guest declared for a whole request.
#[derive(Debug)]
pub struct GuestErrorResponse {
    pub status_code: u16,
    pub errors: Vec<GuestError>,
}

/// The error of a guest call.
#[derive(Debug)]
pub enum Error {
    /// The host failed or the guest broke the protocol.
    Internal(InternalError),
    /// The guest returned an error.
    Guest(GuestError),
}

/// The error of a guest call that answers a whole request.
#[derive(Debug)]
pub enum ErrorResponse {
    /// The host failed or the guest broke the protocol.
    Internal(InternalError),
    /// The guest returned an error response.
    Guest(GuestErrorResponse),
}

} // verus!
