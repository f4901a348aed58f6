//! One instantiated guest and the bracket around each call into it.
//!
//! A call into a guest may be dropped while it is suspended. The instance is
//! therefore marked poisoned before the call starts and healthy again only
//! once the call has returned and every leased resource is back.

use vstd::prelude::*;
use crate::host::error::{Error, GuestError, InternalError};
use crate::host::lease::{has_free, Lease, ResourceTable};

verus! {

/// What came back from a call into the guest.
#[derive(Debug)]
pub enum GuestCall<R> {
    /// The guest trapped or the runtime failed.
    Trapped,
    /// The guest ran to its end and returned a result or an error of its own.
    Returned(Result<R, GuestError>),
}

/// The caller's identity as the gateway knows it.
#[derive(Debug)]
pub enum Token {
    Anonymous,
    Bytes(Vec<u8>),
}

/// The caller's identity in the shape the guest interface takes.
#[derive(Debug)]
pub enum TokenParam {
    Anonymous,
    Bytes(Vec<u8>),
}

/// The operations that the gateway calls on an extension.
#[derive(Clone, Copy, Debug, PartialEq, Eq, Structural)]
pub enum Operation {
    Authenticate,
    AuthorizeQuery,
    AuthorizeResponse,
    ResolveField,
    ResolveSubscription,
    SubscriptionKey,
    NextSubscriptionItem,
    OnRequest,
    OnResponse,
    OnUpstreamRequest,
}

/// How an operation passes the request's headers to the guest.
#[derive(Clone, Copy, Debug, PartialEq, Eq, Structural)]
pub enum HeaderTransfer {
    /// The operation passes no headers.
    Nothing,
    /// The headers are given to the guest for good.
    Given,
    /// The headers are leased to the guest and taken back after the call.
    Leased,
}

/// How far the failure of an operation reaches.
#[derive(Clone, Copy, Debug, PartialEq, Eq, Structural)]
pub enum FailureScope {
    /// The request fails as a whole, with one error response.
    Request,
    /// Only the item that the call was about fails: the field, the edge or
    /// the one upstream call. The rest of the response stands.
    Item,
}

impl Operation {
    /// How the operation passes the headers to the guest.
    pub open spec fn transfer(self) -> HeaderTransfer {
        match self {
            Operation::Authenticate => HeaderTransfer::Leased,
            Operation::AuthorizeQuery => HeaderTransfer::Leased,
            Operation::SubscriptionKey => HeaderTransfer::Leased,
            Operation::OnRequest => HeaderTransfer::Leased,
            Operation::OnResponse => HeaderTransfer::Leased,
            Operation::OnUpstreamRequest => HeaderTransfer::Leased,
            Operation::ResolveField => HeaderTransfer::Given,
            Operation::ResolveSubscription => HeaderTransfer::Given,
            Operation::AuthorizeResponse => HeaderTransfer::Nothing,
            Operation::NextSubscriptionItem => HeaderTransfer::Nothing,
        }
    }

    /// How far a failure of the operation reaches: authentication and
    /// `on_request` are fatal for the request, everything else for one
    /// item.
    pub open spec fn scope(self) -> FailureScope {
        match self {
            Operation::Authenticate | Operation::OnRequest => FailureScope::Request,
            _ => FailureScope::Item,
        }
    }

    /// How the operation passes the headers to the guest.
    pub fn header_transfer(self) -> (transfer: HeaderTransfer)
        ensures
            transfer == self.transfer(),
    {
        match self {
            Operation::Authenticate
            | Operation::AuthorizeQuery
            | Operation::SubscriptionKey
            | Operation::OnRequest
            | Operation::OnResponse
            | Operation::OnUpstreamRequest => HeaderTransfer::Leased,
            Operation::ResolveField | Operation::ResolveSubscription => HeaderTransfer::Given,
            Operation::AuthorizeResponse | Operation::NextSubscriptionItem => HeaderTransfer::Nothing,
        }
    }

    /// How far a failure of the operation reaches.
    pub fn failure_scope(self) -> (scope: FailureScope)
        ensures
            scope == self.scope(),
    {
        match self {
            Operation::Authenticate | Operation::OnRequest => FailureScope::Request,
            _ => FailureScope::Item,
        }
    }
}

/// An instance that a pool can hold.
pub trait ExtensionInstance: Sized {
    /// Whether the instance must not be used again.
    spec fn poisoned(&self) -> bool;

    /// Checks that the instance may be handed out again. Fails exactly on a
    /// poisoned instance.
    fn recycle(&mut self) -> (checked: Result<(), Error>)
        ensures
            *final(self) == *old(self),
            checked is Err == old(self).poisoned(),
            checked matches Err(e) ==> e == Error::Internal(InternalError::Poisoned),
    ;
}

/// An instance of a guest that implements the interface revision 0.10.
/// `H` is the kind of resource that calls lease to the guest.
pub struct ExtensionInstanceSince0_10_0<H> {
    pub(crate) resources: ResourceTable<H>,
    pub(crate) poisoned: bool,
}

impl<H> ExtensionInstance for ExtensionInstanceSince0_10_0<H> {
    closed spec fn poisoned(&self) -> bool {
        self.poisoned
    }

    fn recycle(&mut self) -> (checked: Result<(), Error>) {
        if self.poisoned {
            return Err(Error::Internal(InternalError::Poisoned));
        }
        Ok(())
    }
}

impl<H> ExtensionInstanceSince0_10_0<H> {
    /// The resources that are out on lease to the guest, by handle.
    pub closed spec fn leased(&self) -> Map<u32, H> {
        self.resources@
    }

    /// The resource table is well formed.
    pub closed spec fn wf(&self) -> bool {
        self.resources.wf()
    }

    /// A fresh, healthy instance with nothing on lease.
    pub fn new() -> (instance: Self)
        ensures
            instance.wf(),
            !instance.poisoned(),
            instance.leased() == Map::<u32, H>::empty(),
    {
        ExtensionInstanceSince0_10_0 { resources: ResourceTable::new(), poisoned: false }
    }

    /// Whether the instance is poisoned.
    pub fn is_poisoned(&self) -> (poisoned: bool)
        ensures
            poisoned == self.poisoned(),
    {
        self.poisoned
    }

    /// Starts a call that passes no resource: the instance is poisoned until
    /// the call completes.
    pub fn begin_call(&mut self)
        ensures
            final(self).poisoned(),
            final(self).wf() == old(self).wf(),
            final(self).leased() == old(self).leased(),
    {
        self.poisoned = true;
    }

    /// Starts a call that gives `resource` to the guest for good. The
    /// instance is poisoned first; the handle for the guest is returned.
    pub fn begin_call_giving(&mut self, resource: H) -> (handle: Result<u32, Error>)
        requires
            old(self).wf(),
        ensures
            final(self).wf(),
            final(self).poisoned(),
            handle is Ok == has_free(old(self).leased().dom(), 1),
            match handle {
                Ok(h) => {
                    &&& !old(self).leased().dom().contains(h)
                    &&& final(self).leased() == old(self).leased().insert(h, resource)
                },
                Err(e) => {
                    &&& e == Error::Internal(InternalError::Lease(crate::host::lease::LeaseError::Full))
                    &&& final(self).leased() == old(self).leased()
                },
            },
    {
        self.poisoned = true;
        match self.resources.push(resource) {
            Ok(h) => Ok(h),
            Err(e) => Err(Error::Internal(InternalError::Lease(e))),
        }
    }

    /// Starts a call that leases `resource` to the guest. The instance is
    /// poisoned first; the handle for the guest is returned.
    pub fn begin_call_leasing(&mut self, resource: Lease<H>) -> (handle: Result<u32, Error>)
        requires
            old(self).wf(),
        ensures
            final(self).wf(),
            final(self).poisoned(),
            handle is Ok == has_free(old(self).leased().dom(), 1),
            match handle {
                Ok(h) => {
                    &&& !old(self).leased().dom().contains(h)
                    &&& final(self).leased() == old(self).leased().insert(h, resource@)
                },
                Err(e) => {
                    &&& e == Error::Internal(InternalError::Lease(crate::host::lease::LeaseError::Full))
                    &&& final(self).leased() == old(self).leased()
                },
            },
    {
        self.begin_call_giving(resource.into_inner())
    }

    /// Completes a call that leased nothing. A trap leaves the instance as
    /// it is, so a poisoned instance stays poisoned; a returned call makes it
    /// healthy, whether the guest returned a value or an error of its own.
    pub fn complete_call<R>(&mut self, outcome: GuestCall<R>) -> (result: Result<R, Error>)
        ensures
            final(self).wf() == old(self).wf(),
            final(self).leased() == old(self).leased(),
            match outcome {
                GuestCall::Trapped => {
                    &&& final(self).poisoned() == old(self).poisoned()
                    &&& result matches Err(e) && e == Error::Internal(InternalError::Trapped)
                },
                GuestCall::Returned(returned) => {
                    &&& !final(self).poisoned()
                    &&& match returned {
                        Ok(value) => result == Ok::<R, Error>(value),
                        Err(error) => result matches Err(e) && e == Error::Guest(error),
                    }
                },
            },
    {
        match outcome {
            GuestCall::Trapped => Err(Error::Internal(InternalError::Trapped)),
            GuestCall::Returned(returned) => {
                self.poisoned = false;
                match returned {
                    Ok(value) => Ok(value),
                    Err(error) => Err(Error::Guest(error)),
                }
            },
        }
    }

    /// Completes a call that leased the resource behind `handle`.
    ///
    /// A trap leaves the instance untouched. Otherwise the resource is taken
    /// back first: if the handle is gone the instance stays poisoned and the
    /// call fails with an internal error. Only with the resource back is the
    /// instance healthy again; an error that the guest declared then ends
    /// the lease and is returned.
    pub fn complete_call_leasing<R>(&mut self, handle: u32, outcome: GuestCall<R>) -> (result: Result<
        (Lease<H>, R),
        Error,
    >)
        requires
            old(self).wf(),
        ensures
            final(self).wf(),
            match outcome {
                GuestCall::Trapped => {
                    &&& *final(self) == *old(self)
                    &&& result matches Err(e) && e == Error::Internal(InternalError::Trapped)
                },
                GuestCall::Returned(returned) => if old(self).leased().dom().contains(handle) {
                    &&& !final(self).poisoned()
                    &&& final(self).leased() == old(self).leased().remove(handle)
                    &&& match returned {
                        Ok(value) => result matches Ok(pair) && pair.0@ == old(self).leased()[handle]
                            && pair.1 == value,
                        Err(error) => result matches Err(e) && e == Error::Guest(error),
                    }
                } else {
                    &&& final(self).poisoned() == old(self).poisoned()
                    &&& final(self).leased() == old(self).leased()
                    &&& result matches Err(e) && e == Error::Internal(
                        InternalError::Lease(crate::host::lease::LeaseError::NotPresent),
                    )
                },
            },
    {
        match outcome {
            GuestCall::Trapped => Err(Error::Internal(InternalError::Trapped)),
            GuestCall::Returned(returned) => {
                let resource = match self.resources.take(handle) {
                    Ok(resource) => resource,
                    Err(e) => {
                        return Err(Error::Internal(InternalError::Lease(e)));
                    },
                };
                self.poisoned = false;
                match returned {
                    Ok(value) => Ok((Lease::new(resource), value)),
                    Err(error) => Err(Error::Guest(error)),
                }
            },
        }
    }
}

/// The token in the shape the guest interface takes.
pub fn token_param(token: &Token) -> (param: TokenParam)
    ensures
        match *token {
            Token::Anonymous => param is Anonymous,
            Token::Bytes(bytes) => param matches TokenParam::Bytes(b) && b@ == bytes@,
        },
{
    match token {
        Token::Anonymous => TokenParam::Anonymous,
        Token::Bytes(bytes) => TokenParam::Bytes(bytes.clone()),
    }
}

/// The token that the guest returned, in the gateway's shape.
pub fn token_from_guest(bytes: Vec<u8>) -> (token: Token)
    ensures
        token == Token::Bytes(bytes),
{
    Token::Bytes(bytes)
}

} // verus!
