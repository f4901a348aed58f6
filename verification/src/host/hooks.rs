//! The request and response hooks of guests that implement the interface
//! revision 0.21.
//!
//! Every hook is a call into the guest with host values behind handles. The
//! half before the call poisons the instance and moves the values into its
//! resource table; the half after it takes the headers back, shapes the
//! result and, for a call that returned, makes the instance healthy again.
//! Headers are recovered before anything else is looked at, so that a bad
//! answer of the guest leaves no header map behind in the table.

use vstd::prelude::*;
use crate::graphql_error::{ErrorCode, ExtensionValue, GraphqlError};
use crate::host::error::{Error, ErrorResponse, GuestError, GuestErrorResponse, InternalError};
use crate::host::instance::ExtensionInstance;
use crate::host::lease::{has_free, lemma_has_free_after_taking, lemma_has_free_fewer, ResourceTable};
use crate::text::{parse_url, same_text, url_serialization};

verus! {

/// The request methods that the guest interface can express.
#[derive(Clone, Copy, Debug, PartialEq, Eq, Structural)]
pub enum HttpMethod {
    Get,
    Post,
    Put,
    Delete,
    Patch,
    Head,
    Options,
    Connect,
    Trace,
}

/// A resource that a hook passes to the guest.
#[derive(Debug)]
pub enum HookResource<H, C> {
    /// A header map.
    Headers(H),
    /// A request, host or operation context, or an event queue.
    Context(C),
}

/// The request as the guest sees it.
#[derive(Debug)]
pub struct HttpRequestPartsParam {
    pub url: String,
    pub method: HttpMethod,
    pub headers: u32,
}

/// The arguments of the guest's `on-request`.
#[derive(Debug)]
pub struct OnRequestCall {
    pub context: u32,
    pub parts: HttpRequestPartsParam,
}

/// What the guest's `on-request` returns.
#[derive(Debug)]
pub struct OnRequestOutput {
    pub headers: u32,
    pub contract_key: Option<String>,
    pub context: Vec<u8>,
}

/// What the hooks of one request share.
#[derive(Debug)]
pub struct ExtensionRequestContext {
    pub hooks_context: Vec<u8>,
}

/// The request after the `on-request` hook: the context for the later
/// hooks, the headers as the guest left them and the contract key that the
/// guest chose, if it chose one.
#[derive(Debug)]
pub struct OnRequest<C, H> {
    pub context: C,
    pub headers: H,
    pub contract_key: Option<String>,
}

/// The arguments of the guest's `on-response`.
#[derive(Debug)]
pub struct OnResponseCall {
    pub host_context: u32,
    pub context: u32,
    pub status: u16,
    pub headers: u32,
    pub queue: u32,
}

/// The arguments of the guest's `on-graphql-subgraph-request`.
#[derive(Debug)]
pub struct SubgraphRequestCall {
    pub host_context: u32,
    pub context: u32,
    pub parts: HttpRequestPartsParam,
}

/// The arguments of the guest's `on-virtual-subgraph-request`.
#[derive(Debug)]
pub struct VirtualSubgraphRequestCall {
    pub host_context: u32,
    pub context: u32,
    pub headers: u32,
}

/// The request to a subgraph as the guest returned it.
#[derive(Debug)]
pub struct HttpRequestParts {
    pub url: String,
    pub method: HttpMethod,
    pub headers: u32,
}

/// The request that goes out to a subgraph. The URL is in the normal form
/// that parsing gives it.
#[derive(Debug)]
pub struct ReqwestParts<H> {
    pub url: String,
    pub method: HttpMethod,
    pub headers: H,
}

/// Whether `name` is the name of a method that the guest interface can
/// express.
pub open spec fn is_method_name(name: Seq<char>) -> bool {
    exists|method: HttpMethod| #[trigger] method.spec_name() == name
}

impl HttpMethod {
    /// The method's name on the wire.
    pub open spec fn spec_name(self) -> Seq<char> {
        match self {
            HttpMethod::Get => "GET"@,
            HttpMethod::Post => "POST"@,
            HttpMethod::Put => "PUT"@,
            HttpMethod::Delete => "DELETE"@,
            HttpMethod::Patch => "PATCH"@,
            HttpMethod::Head => "HEAD"@,
            HttpMethod::Options => "OPTIONS"@,
            HttpMethod::Connect => "CONNECT"@,
            HttpMethod::Trace => "TRACE"@,
        }
    }

    /// The method's name on the wire.
    pub fn name(self) -> (name: &'static str)
        ensures
            name@ == self.spec_name(),
    {
        match self {
            HttpMethod::Get => "GET",
            HttpMethod::Post => "POST",
            HttpMethod::Put => "PUT",
            HttpMethod::Delete => "DELETE",
            HttpMethod::Patch => "PATCH",
            HttpMethod::Head => "HEAD",
            HttpMethod::Options => "OPTIONS",
            HttpMethod::Connect => "CONNECT",
            HttpMethod::Trace => "TRACE",
        }
    }

    /// The method with this name. Names of other methods, extension methods
    /// among them, have none.
    pub fn from_name(name: &str) -> (method: Option<HttpMethod>)
        ensures
            method is Some == is_method_name(name@),
            method matches Some(m) ==> m.spec_name() == name@,
    {
        let method = if same_text(name, "GET") {
            Some(HttpMethod::Get)
        } else if same_text(name, "POST") {
            Some(HttpMethod::Post)
        } else if same_text(name, "PUT") {
            Some(HttpMethod::Put)
        } else if same_text(name, "DELETE") {
            Some(HttpMethod::Delete)
        } else if same_text(name, "PATCH") {
            Some(HttpMethod::Patch)
        } else if same_text(name, "HEAD") {
            Some(HttpMethod::Head)
        } else if same_text(name, "OPTIONS") {
            Some(HttpMethod::Options)
        } else if same_text(name, "CONNECT") {
            Some(HttpMethod::Connect)
        } else if same_text(name, "TRACE") {
            Some(HttpMethod::Trace)
        } else {
            None
        };
        proof {
            match method {
                Some(m) => {
                    assert(m.spec_name() == name@);
                },
                None => {
                    assert forall|m: HttpMethod| #[trigger] m.spec_name() != name@ by {
                        match m {
                            HttpMethod::Get => {},
                            HttpMethod::Post => {},
                            HttpMethod::Put => {},
                            HttpMethod::Delete => {},
                            HttpMethod::Patch => {},
                            HttpMethod::Head => {},
                            HttpMethod::Options => {},
                            HttpMethod::Connect => {},
                            HttpMethod::Trace => {},
                        }
                    }
                },
            }
        }
        method
    }
}

/// Whether `handle` stands for a header map in `table`.
pub open spec fn holds_headers<H, C>(table: Map<u32, HookResource<H, C>>, handle: u32) -> bool {
    table.dom().contains(handle) && table[handle] is Headers
}

/// The error for a handle that does not stand for a header map: the
/// handle stands for nothing, or for a resource of another kind.
pub open spec fn no_headers_error<H, C>(table: Map<u32, HookResource<H, C>>, handle: u32) -> InternalError {
    if table.dom().contains(handle) {
        InternalError::WrongResourceKind
    } else {
        InternalError::Lease(crate::host::lease::LeaseError::NotPresent)
    }
}

/// Takes the header map behind `handle` out of the table. A handle that
/// stands for nothing or for a resource of another kind is an error and
/// leaves the table as it was.
pub fn take_headers<H, C>(table: &mut ResourceTable<HookResource<H, C>>, handle: u32) -> (headers: Result<
    H,
    InternalError,
>)
    requires
        old(table).wf(),
    ensures
        final(table).wf(),
        match headers {
            Ok(h) => {
                &&& holds_headers(old(table)@, handle)
                &&& old(table)@[handle] == HookResource::<H, C>::Headers(h)
                &&& final(table)@ == old(table)@.remove(handle)
            },
            Err(e) => {
                &&& !holds_headers(old(table)@, handle)
                &&& final(table)@ == old(table)@
                &&& e == no_headers_error(old(table)@, handle)
            },
        },
{
    let is_headers = match table.get(handle) {
        Some(HookResource::Headers(_)) => true,
        Some(HookResource::Context(_)) => false,
        None => {
            return Err(InternalError::Lease(crate::host::lease::LeaseError::NotPresent));
        },
    };
    if !is_headers {
        return Err(InternalError::WrongResourceKind);
    }
    match table.take(handle) {
        Ok(HookResource::Headers(h)) => Ok(h),
        Ok(HookResource::Context(_)) => Err(InternalError::WrongResourceKind),
        Err(e) => Err(InternalError::Lease(e)),
    }
}

/// Moves a header map and a context into the table. If the second cannot be
/// stored the first is taken out again, so that a failure leaves the table
/// as it was.
pub fn push_headers_and_context<H, C>(
    table: &mut ResourceTable<HookResource<H, C>>,
    headers: H,
    context: C,
) -> (handles: Result<(u32, u32), InternalError>)
    requires
        old(table).wf(),
    ensures
        final(table).wf(),
        handles is Ok == has_free(old(table)@.dom(), 2),
        match handles {
            Ok((h, c)) => {
                &&& h != c
                &&& !old(table)@.dom().contains(h)
                &&& !old(table)@.dom().contains(c)
                &&& final(table)@ == old(table)@.insert(h, HookResource::Headers(headers)).insert(
                    c,
                    HookResource::Context(context),
                )
            },
            Err(e) => {
                &&& e == InternalError::Lease(crate::host::lease::LeaseError::Full)
                &&& final(table)@ == old(table)@
            },
        },
{
    let h = match table.push(HookResource::Headers(headers)) {
        Ok(h) => h,
        Err(e) => {
            proof {
                if has_free(old(table)@.dom(), 2) {
                    lemma_has_free_fewer(old(table)@.dom(), 1);
                }
            }
            return Err(InternalError::Lease(e));
        },
    };
    proof {
        lemma_has_free_after_taking(old(table)@.dom(), h, 1);
        assert(table@.dom() =~= old(table)@.dom().insert(h));
    }
    match table.push(HookResource::Context(context)) {
        Ok(c) => Ok((h, c)),
        Err(e) => {
            let _ = table.take(h);
            assert(final(table)@ =~= old(table)@);
            Err(InternalError::Lease(e))
        },
    }
}

/// Moves one more context into the table, or on failure takes the
/// resources behind `first` and `second` out again.
fn push_context_or_release<H, C>(
    table: &mut ResourceTable<HookResource<H, C>>,
    context: C,
    first: u32,
    second: u32,
) -> (handle: Result<u32, InternalError>)
    requires
        old(table).wf(),
    ensures
        final(table).wf(),
        handle is Ok == has_free(old(table)@.dom(), 1),
        match handle {
            Ok(c) => {
                &&& !old(table)@.dom().contains(c)
                &&& final(table)@ == old(table)@.insert(c, HookResource::Context(context))
            },
            Err(e) => {
                &&& e == InternalError::Lease(crate::host::lease::LeaseError::Full)
                &&& final(table)@ == old(table)@.remove(first).remove(second)
            },
        },
{
    match table.push(HookResource::Context(context)) {
        Ok(c) => Ok(c),
        Err(e) => {
            let _ = table.take(first);
            let _ = table.take(second);
            Err(InternalError::Lease(e))
        },
    }
}

/// Moves a header map and two contexts into the table, or nothing if the
/// table cannot hold all three.
fn push_three<H, C>(table: &mut ResourceTable<HookResource<H, C>>, headers: H, first: C, second: C) -> (handles:
    Result<(u32, u32, u32), InternalError>)
    requires
        old(table).wf(),
    ensures
        final(table).wf(),
        handles is Ok == has_free(old(table)@.dom(), 3),
        match handles {
            Ok((h, a, b)) => {
                &&& !old(table)@.dom().contains(h)
                &&& final(table)@.dom().contains(h)
                &&& final(table)@[h] == HookResource::<H, C>::Headers(headers)
                &&& final(table)@.dom() == old(table)@.dom().insert(h).insert(a).insert(b)
                &&& forall|other: u32| old(table)@.dom().contains(other) ==> final(table)@[other] == old(table)@[other]
            },
            Err(e) => {
                &&& e == InternalError::Lease(crate::host::lease::LeaseError::Full)
                &&& final(table)@ == old(table)@
            },
        },
{
    let ghost in_use = table@.dom();
    let (h, a) = match push_headers_and_context(table, headers, first) {
        Ok(handles) => handles,
        Err(e) => {
            proof {
                if has_free(in_use, 3) {
                    lemma_has_free_fewer(in_use, 2);
                }
            }
            return Err(e);
        },
    };
    proof {
        assert(table@.dom() =~= in_use.insert(h).insert(a));
        lemma_has_free_after_taking(in_use, h, 2);
        lemma_has_free_after_taking(in_use.insert(h), a, 1);
    }
    match push_context_or_release(table, second, h, a) {
        Ok(b) => {
            assert(final(table)@.dom() =~= old(table)@.dom().insert(h).insert(a).insert(b));
            Ok((h, a, b))
        },
        Err(e) => {
            assert(final(table)@ =~= old(table)@);
            Err(e)
        },
    }
}

/// An instance of a guest that implements the interface revision 0.21.
/// `H` is the kind of its header maps, `C` that of the contexts and event
/// queues that its hooks are handed.
pub struct ExtensionInstanceSince0_21_0<H, C> {
    pub(crate) resources: ResourceTable<HookResource<H, C>>,
    pub(crate) poisoned: bool,
}

/// What came back from a call of a hook.
#[derive(Debug)]
pub enum HookReturn<T> {
    /// The guest trapped or the runtime failed.
    Trapped,
    /// The guest ran to its end and returned this.
    Returned(T),
}

impl<H, C> ExtensionInstance for ExtensionInstanceSince0_21_0<H, C> {
    closed spec fn poisoned(&self) -> bool {
        self.poisoned
    }

    fn recycle(&mut self) -> (checked: Result<(), Error>) {
        if self.poisoned {
            return Err(Error::Internal(InternalError::Poisoned));
        }
        Ok(())
    }
}

impl<H, C> ExtensionInstanceSince0_21_0<H, C> {
    /// The resources that are out with the guest, by handle.
    pub closed spec fn leased(&self) -> Map<u32, HookResource<H, C>> {
        self.resources@
    }

    /// The resource table is well formed.
    pub closed spec fn wf(&self) -> bool {
        self.resources.wf()
    }

    /// A fresh, healthy instance with an empty resource table.
    pub fn new() -> (instance: Self)
        ensures
            instance.wf(),
            !instance.poisoned(),
            instance.leased() == Map::<u32, HookResource<H, C>>::empty(),
    {
        ExtensionInstanceSince0_21_0 { resources: ResourceTable::new(), poisoned: false }
    }

    /// Whether the instance is poisoned.
    pub fn is_poisoned(&self) -> (poisoned: bool)
        ensures
            poisoned == self.poisoned(),
    {
        self.poisoned
    }

    /// The resource table of the instance.
    pub fn resources(&self) -> (table: &ResourceTable<HookResource<H, C>>)
        ensures
            table.wf() == self.wf(),
            table@ == self.leased(),
    {
        &self.resources
    }

    /// The half of `on_request` before the call: the method is read and
    /// the headers and the host context are moved into the table.
    ///
    /// The instance is poisoned first and stays so until the call has
    /// returned. A method that the interface cannot express fails before
    /// anything is moved.
    pub fn on_request_begin(
        &mut self,
        method: &str,
        url: String,
        headers: H,
        host_context: C,
    ) -> (call: Result<OnRequestCall, InternalError>)
        requires
            old(self).wf(),
        ensures
            final(self).wf(),
            final(self).poisoned(),
            call is Ok == (is_method_name(method@) && has_free(old(self).leased().dom(), 2)),
            match call {
                Ok(call) => {
                    &&& call.parts.method.spec_name() == method@
                    &&& call.parts.url == url
                    &&& call.parts.headers != call.context
                    &&& !old(self).leased().dom().contains(call.parts.headers)
                    &&& !old(self).leased().dom().contains(call.context)
                    &&& final(self).leased() == old(self).leased().insert(call.parts.headers, HookResource::Headers(headers)).insert(
                        call.context,
                        HookResource::Context(host_context),
                    )
                },
                Err(e) => {
                    &&& final(self).leased() == old(self).leased()
                    &&& e == if is_method_name(method@) {
                        InternalError::Lease(crate::host::lease::LeaseError::Full)
                    } else {
                        InternalError::UnsupportedMethod
                    }
                },
            },
    {
        self.poisoned = true;
        let method = match HttpMethod::from_name(method) {
            Some(method) => method,
            None => {
                return Err(InternalError::UnsupportedMethod);
            },
        };
        let (headers, context) = match push_headers_and_context(&mut self.resources, headers, host_context) {
            Ok(handles) => handles,
            Err(e) => {
                return Err(e);
            },
        };
        Ok(OnRequestCall { context, parts: HttpRequestPartsParam { url, method, headers } })
    }

    /// The half of `on_request` after the call.
    ///
    /// A trap leaves the instance as it is, poisoned. Of a call that
    /// returned, the headers are taken out of the table; a handle that does
    /// not stand for headers is an internal error and leaves the instance
    /// poisoned. Only with the headers back, or with an error response of the
    /// guest, is the instance healthy again. The guest's error response is
    /// passed on.
    pub fn on_request_complete(
        &mut self,
        outcome: HookReturn<Result<OnRequestOutput, GuestErrorResponse>>,
    ) -> (result: Result<Result<OnRequest<ExtensionRequestContext, H>, ErrorResponse>, InternalError>)
        requires
            old(self).wf(),
        ensures
            final(self).wf(),
            match outcome {
                HookReturn::Trapped => {
                    &&& *final(self) == *old(self)
                    &&& result matches Err(e) && e == InternalError::Trapped
                },
                HookReturn::Returned(Ok(output)) => if holds_headers(old(self).leased(), output.headers) {
                    &&& !final(self).poisoned()
                    &&& final(self).leased() == old(self).leased().remove(output.headers)
                    &&& result matches Ok(Ok(request))
                    &&& old(self).leased()[output.headers] == HookResource::<H, C>::Headers(request.headers)
                    &&& request.contract_key == output.contract_key
                    &&& request.context.hooks_context@.len() == 0
                } else {
                    &&& final(self).poisoned() == old(self).poisoned()
                    &&& final(self).leased() == old(self).leased()
                    &&& result matches Err(e)
                    &&& e == no_headers_error(old(self).leased(), output.headers)
                },
                HookReturn::Returned(Err(response)) => {
                    &&& !final(self).poisoned()
                    &&& final(self).leased() == old(self).leased()
                    &&& result matches Ok(Err(e))
                    &&& e == ErrorResponse::Guest(response)
                },
            },
    {
        let returned = match outcome {
            HookReturn::Trapped => {
                return Err(InternalError::Trapped);
            },
            HookReturn::Returned(returned) => returned,
        };
        match returned {
            Ok(output) => {
                let headers = match take_headers(&mut self.resources, output.headers) {
                    Ok(headers) => headers,
                    Err(e) => {
                        return Err(e);
                    },
                };
                self.poisoned = false;
                Ok(
                    Ok(
                        OnRequest {
                            context: ExtensionRequestContext { hooks_context: Vec::new() },
                            headers,
                            contract_key: output.contract_key,
                        },
                    ),
                )
            },
            Err(response) => {
                self.poisoned = false;
                Ok(Err(ErrorResponse::Guest(response)))
            },
        }
    }

    /// The half of `on_response` before the call: the headers, the event queue
    /// and the two contexts are moved into the table. The instance
    /// is poisoned first; a failure leaves the table as it was.
    pub fn on_response_begin(
        &mut self,
        status: u16,
        headers: H,
        queue: C,
        host_context: C,
        context: C,
    ) -> (call: Result<OnResponseCall, InternalError>)
        requires
            old(self).wf(),
        ensures
            final(self).wf(),
            final(self).poisoned(),
            call is Ok == has_free(old(self).leased().dom(), 4),
            match call {
                Ok(call) => {
                    &&& call.status == status
                    &&& !old(self).leased().dom().contains(call.headers)
                    &&& final(self).leased().dom().contains(call.headers)
                    &&& final(self).leased()[call.headers] == HookResource::<H, C>::Headers(headers)
                    &&& final(self).leased().dom() == old(self).leased().dom().insert(call.headers).insert(call.queue).insert(
                        call.host_context,
                    ).insert(call.context)
                    &&& forall|h: u32| old(self).leased().dom().contains(h) ==> final(self).leased()[h] == old(self).leased()[h]
                },
                Err(e) => {
                    &&& e == InternalError::Lease(crate::host::lease::LeaseError::Full)
                    &&& final(self).leased() == old(self).leased()
                },
            },
    {
        self.poisoned = true;
        let ghost in_use = self.resources@.dom();
        let (h, q) = match push_headers_and_context(&mut self.resources, headers, queue) {
            Ok(handles) => handles,
            Err(e) => {
                proof {
                    if has_free(in_use, 4) {
                        lemma_has_free_fewer(in_use, 3);
                        lemma_has_free_fewer(in_use, 2);
                    }
                }
                return Err(e);
            },
        };
        proof {
            assert(self.resources@.dom() =~= in_use.insert(h).insert(q));
            lemma_has_free_after_taking(in_use, h, 3);
            lemma_has_free_after_taking(in_use.insert(h), q, 2);
        }
        let hc = match push_context_or_release(&mut self.resources, host_context, h, q) {
            Ok(hc) => hc,
            Err(e) => {
                proof {
                    if has_free(in_use.insert(h).insert(q), 2) {
                        lemma_has_free_fewer(in_use.insert(h).insert(q), 1);
                    }
                }
                assert(final(self).leased() =~= old(self).leased());
                return Err(e);
            },
        };
        proof {
            assert(self.resources@.dom() =~= in_use.insert(h).insert(q).insert(hc));
            lemma_has_free_after_taking(in_use.insert(h).insert(q), hc, 1);
        }
        match self.resources.push(HookResource::Context(context)) {
            Ok(c) => {
                assert(final(self).leased().dom() =~= old(self).leased().dom().insert(h).insert(q).insert(hc).insert(c));
                Ok(OnResponseCall { host_context: hc, context: c, status, headers: h, queue: q })
            },
            Err(e) => {
                let _ = self.resources.take(h);
                let _ = self.resources.take(q);
                let _ = self.resources.take(hc);
                assert(final(self).leased() =~= old(self).leased());
                Err(InternalError::Lease(e))
            },
        }
    }

    /// The half of `on_response` after the call.
    ///
    /// A trap leaves the instance as it is, poisoned. Of a call that
    /// returned, the headers are taken out of the table; a handle that does
    /// not stand for headers is an internal error and leaves the instance
    /// poisoned. An error of the guest is passed on as it is, from an
    /// instance that is healthy again.
    pub fn on_response_complete(&mut self, outcome: HookReturn<Result<u32, String>>) -> (result: Result<
        Result<H, String>,
        InternalError,
    >)
        requires
            old(self).wf(),
        ensures
            final(self).wf(),
            match outcome {
                HookReturn::Trapped => {
                    &&& *final(self) == *old(self)
                    &&& result matches Err(e) && e == InternalError::Trapped
                },
                HookReturn::Returned(Ok(handle)) => if holds_headers(old(self).leased(), handle) {
                    &&& !final(self).poisoned()
                    &&& final(self).leased() == old(self).leased().remove(handle)
                    &&& result matches Ok(Ok(headers))
                    &&& old(self).leased()[handle] == HookResource::<H, C>::Headers(headers)
                } else {
                    &&& final(self).poisoned() == old(self).poisoned()
                    &&& final(self).leased() == old(self).leased()
                    &&& result matches Err(e)
                    &&& e == no_headers_error(old(self).leased(), handle)
                },
                HookReturn::Returned(Err(message)) => {
                    &&& !final(self).poisoned()
                    &&& final(self).leased() == old(self).leased()
                    &&& result == Ok::<Result<H, String>, InternalError>(Err(message))
                },
            },
    {
        let returned = match outcome {
            HookReturn::Trapped => {
                return Err(InternalError::Trapped);
            },
            HookReturn::Returned(returned) => returned,
        };
        match returned {
            Ok(handle) => {
                let headers = match take_headers(&mut self.resources, handle) {
                    Ok(headers) => headers,
                    Err(e) => {
                        return Err(e);
                    },
                };
                self.poisoned = false;
                Ok(Ok(headers))
            },
            Err(message) => {
                self.poisoned = false;
                Ok(Err(message))
            },
        }
    }

    /// The half of `on_graphql_subgraph_request` before the call: the method is
    /// read and the headers and the two contexts are moved into the table.
    /// The instance is poisoned first.
    pub fn on_graphql_subgraph_request_begin(
        &mut self,
        method: &str,
        url: String,
        headers: H,
        host_context: C,
        context: C,
    ) -> (call: Result<SubgraphRequestCall, InternalError>)
        requires
            old(self).wf(),
        ensures
            final(self).wf(),
            final(self).poisoned(),
            call is Ok == (is_method_name(method@) && has_free(old(self).leased().dom(), 3)),
            match call {
                Ok(call) => {
                    &&& call.parts.method.spec_name() == method@
                    &&& call.parts.url == url
                    &&& !old(self).leased().dom().contains(call.parts.headers)
                    &&& final(self).leased().dom().contains(call.parts.headers)
                    &&& final(self).leased()[call.parts.headers] == HookResource::<H, C>::Headers(headers)
                    &&& final(self).leased().dom() == old(self).leased().dom().insert(call.parts.headers).insert(
                        call.host_context,
                    ).insert(call.context)
                    &&& forall|h: u32| old(self).leased().dom().contains(h) ==> final(self).leased()[h] == old(self).leased()[h]
                },
                Err(e) => {
                    &&& final(self).leased() == old(self).leased()
                    &&& e == if is_method_name(method@) {
                        InternalError::Lease(crate::host::lease::LeaseError::Full)
                    } else {
                        InternalError::UnsupportedMethod
                    }
                },
            },
    {
        self.poisoned = true;
        let method = match HttpMethod::from_name(method) {
            Some(method) => method,
            None => {
                return Err(InternalError::UnsupportedMethod);
            },
        };
        let handles = push_three(&mut self.resources, headers, host_context, context);
        match handles {
            Ok((h, hc, c)) => Ok(
                SubgraphRequestCall { host_context: hc, context: c, parts: HttpRequestPartsParam { url, method, headers: h } },
            ),
            Err(e) => Err(e),
        }
    }

    /// The half of `on_graphql_subgraph_request` after the call.
    ///
    /// A trap leaves the instance as it is, poisoned. Of a call that
    /// returned, the headers are taken out of the table first; a handle that
    /// does not stand for headers is an internal error and leaves the
    /// instance poisoned. Only then is the URL that the guest returned
    /// parsed: one that does not parse is answered with the internal
    /// extension error, with the table already clean and the instance
    /// healthy. An error of the guest becomes a GraphQL error with the code
    /// `ExtensionError`.
    pub fn on_graphql_subgraph_request_complete(
        &mut self,
        outcome: HookReturn<Result<HttpRequestParts, GuestError>>,
    ) -> (result: Result<Result<ReqwestParts<H>, GraphqlError>, InternalError>)
        requires
            old(self).wf(),
        ensures
            final(self).wf(),
            match outcome {
                HookReturn::Trapped => {
                    &&& *final(self) == *old(self)
                    &&& result matches Err(e) && e == InternalError::Trapped
                },
                HookReturn::Returned(Ok(parts)) => if holds_headers(old(self).leased(), parts.headers) {
                    &&& !final(self).poisoned()
                    &&& final(self).leased() == old(self).leased().remove(parts.headers)
                    &&& match url_serialization(parts.url@) {
                        Some(url) => {
                            &&& result matches Ok(Ok(request))
                            &&& request.url@ == url
                            &&& request.method == parts.method
                            &&& old(self).leased()[parts.headers] == HookResource::<H, C>::Headers(request.headers)
                        },
                        None => {
                            &&& result matches Ok(Err(error))
                            &&& error.code == ErrorCode::ExtensionError
                            &&& error.message@ == crate::graphql_error::internal_extension_error_message()
                            &&& error.extensions@.len() == 0
                        },
                    }
                } else {
                    &&& final(self).poisoned() == old(self).poisoned()
                    &&& final(self).leased() == old(self).leased()
                    &&& result matches Err(e)
                    &&& e == no_headers_error(old(self).leased(), parts.headers)
                },
                HookReturn::Returned(Err(error)) => {
                    &&& !final(self).poisoned()
                    &&& final(self).leased() == old(self).leased()
                    &&& result matches Ok(Err(e))
                    &&& is_graphql_error_of(e, error, ErrorCode::ExtensionError)
                },
            },
    {
        let returned = match outcome {
            HookReturn::Trapped => {
                return Err(InternalError::Trapped);
            },
            HookReturn::Returned(returned) => returned,
        };
        match returned {
            Ok(parts) => {
                let headers = match take_headers(&mut self.resources, parts.headers) {
                    Ok(headers) => headers,
                    Err(e) => {
                        return Err(e);
                    },
                };
                self.poisoned = false;
                let url = match parse_url(parts.url.as_str()) {
                    Some(url) => url,
                    None => {
                        return Ok(Err(GraphqlError::internal_extension_error()));
                    },
                };
                Ok(Ok(ReqwestParts { url, method: parts.method, headers }))
            },
            Err(error) => {
                self.poisoned = false;
                Ok(Err(into_graphql_error(error, ErrorCode::ExtensionError)))
            },
        }
    }

    /// The half of `on_virtual_subgraph_request` before the call: the headers
    /// and the two contexts are moved into the table. The instance is
    /// poisoned first.
    pub fn on_virtual_subgraph_request_begin(
        &mut self,
        headers: H,
        host_context: C,
        context: C,
    ) -> (call: Result<VirtualSubgraphRequestCall, InternalError>)
        requires
            old(self).wf(),
        ensures
            final(self).wf(),
            final(self).poisoned(),
            call is Ok == has_free(old(self).leased().dom(), 3),
            match call {
                Ok(call) => {
                    &&& !old(self).leased().dom().contains(call.headers)
                    &&& final(self).leased().dom().contains(call.headers)
                    &&& final(self).leased()[call.headers] == HookResource::<H, C>::Headers(headers)
                    &&& final(self).leased().dom() == old(self).leased().dom().insert(call.headers).insert(call.host_context).insert(
                        call.context,
                    )
                    &&& forall|h: u32| old(self).leased().dom().contains(h) ==> final(self).leased()[h] == old(self).leased()[h]
                },
                Err(e) => {
                    &&& e == InternalError::Lease(crate::host::lease::LeaseError::Full)
                    &&& final(self).leased() == old(self).leased()
                },
            },
    {
        self.poisoned = true;
        match push_three(&mut self.resources, headers, host_context, context) {
            Ok((h, hc, c)) => Ok(VirtualSubgraphRequestCall { host_context: hc, context: c, headers: h }),
            Err(e) => Err(e),
        }
    }

    /// The half of `on_virtual_subgraph_request` after the call.
    ///
    /// A trap leaves the instance as it is, poisoned. Of a call that
    /// returned, the headers are taken out of the table; a handle that does
    /// not stand for headers is an internal error and leaves the instance
    /// poisoned. An error of the guest becomes a GraphQL error with the code
    /// `ExtensionError`, from an instance that is healthy again.
    pub fn on_virtual_subgraph_request_complete(&mut self, outcome: HookReturn<Result<u32, GuestError>>) -> (result:
        Result<Result<H, GraphqlError>, InternalError>)
        requires
            old(self).wf(),
        ensures
            final(self).wf(),
            match outcome {
                HookReturn::Trapped => {
                    &&& *final(self) == *old(self)
                    &&& result matches Err(e) && e == InternalError::Trapped
                },
                HookReturn::Returned(Ok(handle)) => if holds_headers(old(self).leased(), handle) {
                    &&& !final(self).poisoned()
                    &&& final(self).leased() == old(self).leased().remove(handle)
                    &&& result matches Ok(Ok(headers))
                    &&& old(self).leased()[handle] == HookResource::<H, C>::Headers(headers)
                } else {
                    &&& final(self).poisoned() == old(self).poisoned()
                    &&& final(self).leased() == old(self).leased()
                    &&& result matches Err(e)
                    &&& e == no_headers_error(old(self).leased(), handle)
                },
                HookReturn::Returned(Err(error)) => {
                    &&& !final(self).poisoned()
                    &&& final(self).leased() == old(self).leased()
                    &&& result matches Ok(Err(e))
                    &&& is_graphql_error_of(e, error, ErrorCode::ExtensionError)
                },
            },
    {
        let returned = match outcome {
            HookReturn::Trapped => {
                return Err(InternalError::Trapped);
            },
            HookReturn::Returned(returned) => returned,
        };
        match returned {
            Ok(handle) => {
                let headers = match take_headers(&mut self.resources, handle) {
                    Ok(headers) => headers,
                    Err(e) => {
                        return Err(e);
                    },
                };
                self.poisoned = false;
                Ok(Ok(headers))
            },
            Err(error) => {
                self.poisoned = false;
                Ok(Err(into_graphql_error(error, ErrorCode::ExtensionError)))
            },
        }
    }
}

/// Whether `error` is the GraphQL error for the guest's `source`: the same
/// message, the given code, and the guest's extension data, entry by entry,
/// as values that are still serialized.
pub open spec fn is_graphql_error_of(error: GraphqlError, source: GuestError, code: ErrorCode) -> bool {
    &&& error.message == source.message
    &&& error.code == code
    &&& error.extensions@.len() == source.extensions@.len()
    &&& forall|i: int|
        0 <= i < source.extensions@.len() ==> {
            &&& (#[trigger] error.extensions@[i]).0 == source.extensions@[i].0
            &&& error.extensions@[i].1 == ExtensionValue::Cbor(source.extensions@[i].1)
        }
}

/// The GraphQL error for an error that a guest declared.
pub fn into_graphql_error(source: GuestError, code: ErrorCode) -> (error: GraphqlError)
    ensures
        is_graphql_error_of(error, source, code),
{
    let ghost entries = source.extensions@;
    let mut extensions: Vec<(String, ExtensionValue)> = Vec::new();
    for entry in it: source.extensions
        invariant
            it.seq() == entries,
            extensions@.len() == it.index(),
            forall|i: int|
                0 <= i < extensions@.len() ==> {
                    &&& (#[trigger] extensions@[i]).0 == entries[i].0
                    &&& extensions@[i].1 == ExtensionValue::Cbor(entries[i].1)
                },
    {
        extensions.push((entry.0, ExtensionValue::Cbor(entry.1)));
    }
    GraphqlError { message: source.message, code, extensions }
}

} // verus!
