//! The layer that runs the request hooks, authentication and the response
//! hooks of extensions around the gateway's inner service.
//!
//! A request passes the stages in a fixed order: `on_request`,
//! authentication, the inner service, `on_response`. Each stage is awaited
//! by the caller; the functions of [`ExtensionService`] decide, from what a
//! stage returned, which stage comes next and with what. The type of each
//! decision names the stages that may follow, so no stage can be entered
//! twice or out of order.

use std::sync::Arc;
use vstd::prelude::*;
use crate::graphql_error::{ErrorCode, ErrorResponse, GraphqlError};
use crate::host::hooks::OnRequest;
use crate::shared::share;

verus! {

/// The extensions and the authentication service of a gateway, and the
/// contract key for requests that choose none.
pub struct ExtensionLayerInner<Ext, A> {
    pub extensions: Ext,
    pub auth: A,
    pub default_contract_key: Option<String>,
}

/// The layer. It is shared by every service made from it.
pub struct ExtensionLayer<Ext, A>(pub Arc<ExtensionLayerInner<Ext, A>>);

/// The inner service `next` behind the hooks of a layer.
pub struct ExtensionService<Service, Ext, A> {
    pub next: Service,
    pub layer: Arc<ExtensionLayerInner<Ext, A>>,
}

/// What the inner service finds attached to a request.
#[derive(Debug, Clone)]
pub struct RequestExtensions<C, T> {
    pub context: C,
    pub token: T,
    pub contract_key: Option<String>,
}

/// The record of a request that was answered, for the event queue.
#[derive(Debug)]
pub struct ExecutedHttpRequest {
    pub url: String,
    pub method: String,
    pub response_status: u16,
}

/// What follows the `on_request` hooks.
#[derive(Debug)]
pub enum AfterOnRequest<C, H> {
    /// Authentication, on the headers as the hooks left them.
    Authenticate { context: C, headers: H, contract_key: Option<String> },
    /// The hooks failed: the error is the response, and no later stage runs.
    Respond(crate::host::error::ErrorResponse),
}

/// What follows authentication.
#[derive(Debug)]
pub enum AfterAuthenticate<H, T> {
    /// The inner service, with the headers put back on the request and the
    /// token and contract key attached to it.
    CallNext { headers: H, token: T, contract_key: Option<String> },
    /// Authentication failed: the inner service is not called. The error is
    /// the response that goes through the `on_response` hooks.
    Respond(ErrorResponse),
}

/// The stages of a request, in the order in which they are passed.
#[derive(Clone, Copy, Debug, PartialEq, Eq, Structural)]
pub enum Stage {
    OnRequest,
    Authentication,
    InnerService,
    OnResponse,
    Done,
}

impl Stage {
    /// The position of the stage in the lifecycle of a request.
    pub open spec fn rank(self) -> nat {
        match self {
            Stage::OnRequest => 0,
            Stage::Authentication => 1,
            Stage::InnerService => 2,
            Stage::OnResponse => 3,
            Stage::Done => 4,
        }
    }

    /// The stage that follows `self`, given whether `self` failed.
    ///
    /// A failure of `on_request` ends the request. A failure of
    /// authentication skips the inner service: its error response still
    /// passes the `on_response` hooks. A failure of the inner service is
    /// the service's own error and ends the request.
    pub open spec fn following(self, failed: bool) -> Stage {
        match self {
            Stage::OnRequest => if failed {
                Stage::Done
            } else {
                Stage::Authentication
            },
            Stage::Authentication => if failed {
                Stage::OnResponse
            } else {
                Stage::InnerService
            },
            Stage::InnerService => if failed {
                Stage::Done
            } else {
                Stage::OnResponse
            },
            Stage::OnResponse => Stage::Done,
            Stage::Done => Stage::Done,
        }
    }

    /// The stage that follows `self`, given whether `self` failed.
    pub fn next(self, failed: bool) -> (next: Stage)
        ensures
            next == self.following(failed),
            self != Stage::Done ==> next.rank() > self.rank(),
            failed && (self == Stage::OnRequest || self == Stage::Authentication) ==> next.rank()
                > Stage::InnerService.rank(),
    {
        match self {
            Stage::OnRequest => if failed {
                Stage::Done
            } else {
                Stage::Authentication
            },
            Stage::Authentication => if failed {
                Stage::OnResponse
            } else {
                Stage::InnerService
            },
            Stage::InnerService => if failed {
                Stage::Done
            } else {
                Stage::OnResponse
            },
            Stage::OnResponse => Stage::Done,
            Stage::Done => Stage::Done,
        }
    }
}

/// The stage that a request is in after the outcomes `failures` of the
/// stages it passed, starting from `stage`.
pub open spec fn stage_after(stage: Stage, failures: Seq<bool>) -> Stage
    decreases failures.len(),
{
    if failures.len() == 0 {
        stage
    } else {
        stage_after(stage, failures.drop_last()).following(failures.last())
    }
}

/// The lifecycle is linear: a request never returns to a stage it has
/// passed, and it is done after four stages at the latest.
pub proof fn lemma_stages_never_go_back(failures: Seq<bool>)
    ensures
        stage_after(Stage::OnRequest, failures).rank() >= if failures.len() < 4 {
            failures.len()
        } else {
            4
        },
        failures.len() > 0 ==> stage_after(Stage::OnRequest, failures).rank() >= stage_after(
            Stage::OnRequest,
            failures.drop_last(),
        ).rank(),
    decreases failures.len(),
{
    if failures.len() > 0 {
        lemma_stages_never_go_back(failures.drop_last());
    }
}

/// An error of `on_request` or of authentication is terminal for the
/// upstream: once one of the two has failed, the request is past the stage
/// of the inner service and never enters it.
pub proof fn lemma_no_upstream_after_terminal_error(failures: Seq<bool>)
    requires
        failures.len() >= 1,
        failures[0] || (failures.len() >= 2 && failures[1]),
    ensures
        failures[0] ==> stage_after(Stage::OnRequest, failures) == Stage::Done,
        failures.len() >= 2 ==> stage_after(Stage::OnRequest, failures).rank() > Stage::InnerService.rank(),
    decreases failures.len(),
{
    reveal_with_fuel(stage_after, 3);
    let before = failures.drop_last();
    if failures.len() == 1 {
        assert(before.len() == 0);
    } else if failures.len() == 2 {
        assert(before.drop_last().len() == 0);
        assert(before.last() == failures[0]);
    } else {
        assert(before[0] == failures[0]);
        assert(before[1] == failures[1]);
        lemma_no_upstream_after_terminal_error(before);
        lemma_stages_never_go_back(failures);
    }
}

/// The contract key of a request: the one that the hooks chose, else the
/// layer's default.
pub open spec fn effective_contract_key(chosen: Option<String>, default: Option<String>) -> Option<String> {
    match chosen {
        Some(key) => Some(key),
        None => default,
    }
}

impl<Ext, A> ExtensionLayer<Ext, A> {
    /// What the layer was made of.
    pub open spec fn view(&self) -> ExtensionLayerInner<Ext, A> {
        *self.0
    }

    /// A layer over these extensions and this authentication service.
    pub fn new(extensions: Ext, auth: A, default_contract_key: Option<String>) -> (layer: Self)
        ensures
            layer@.extensions == extensions,
            layer@.auth == auth,
            layer@.default_contract_key == default_contract_key,
    {
        ExtensionLayer(Arc::new(ExtensionLayerInner { extensions, auth, default_contract_key }))
    }

    /// The service that runs `next` behind this layer's hooks.
    pub fn layer<Service>(&self, next: Service) -> (service: ExtensionService<Service, Ext, A>)
        ensures
            service.next == next,
            *service.layer == self@,
    {
        ExtensionService { next, layer: share(&self.0) }
    }
}

impl<Service, Ext, A> ExtensionService<Service, Ext, A> {
    /// Decides what follows the `on_request` hooks. An error is terminal:
    /// it is returned to the client and neither authentication nor the
    /// inner service nor `on_response` runs.
    pub fn after_on_request<C, H>(
        &self,
        outcome: Result<OnRequest<C, H>, crate::host::error::ErrorResponse>,
    ) -> (next: AfterOnRequest<C, H>)
        ensures
            match outcome {
                Ok(request) => next == (AfterOnRequest::Authenticate {
                    context: request.context,
                    headers: request.headers,
                    contract_key: request.contract_key,
                }),
                Err(error) => next == AfterOnRequest::<C, H>::Respond(error),
            },
    {
        match outcome {
            Ok(request) => AfterOnRequest::Authenticate {
                context: request.context,
                headers: request.headers,
                contract_key: request.contract_key,
            },
            Err(error) => AfterOnRequest::Respond(error),
        }
    }

    /// Decides what follows authentication. On success the inner service is
    /// called with the contract key that the hooks chose or, if they chose
    /// none, the layer's default. On failure the inner service is skipped.
    pub fn after_authenticate<H, T>(
        &self,
        contract_key: Option<String>,
        outcome: Result<(H, T), ErrorResponse>,
    ) -> (next: AfterAuthenticate<H, T>)
        ensures
            match outcome {
                Ok((headers, token)) => next == (AfterAuthenticate::CallNext {
                    headers,
                    token,
                    contract_key: effective_contract_key(contract_key, self.layer.default_contract_key),
                }),
                Err(error) => next == AfterAuthenticate::<H, T>::Respond(error),
            },
    {
        match outcome {
            Ok((headers, token)) => {
                let contract_key = match contract_key {
                    Some(key) => Some(key),
                    None => match &self.layer.default_contract_key {
                        Some(key) => Some(key.clone()),
                        None => None,
                    },
                };
                AfterAuthenticate::CallNext { headers, token, contract_key }
            },
            Err(error) => AfterAuthenticate::Respond(error),
        }
    }

    /// The record of the answered request that is queued before the
    /// `on_response` hooks run.
    pub fn executed_request(&self, url: String, method: String, response_status: u16) -> (record:
        ExecutedHttpRequest)
        ensures
            record.url == url,
            record.method == method,
            record.response_status == response_status,
    {
        ExecutedHttpRequest { url, method, response_status }
    }

    /// Decides what is sent after the `on_response` hooks: the response
    /// parts as the hooks left them, or, if the hooks failed with a message,
    /// an internal server error that carries the message with the code
    /// `ExtensionError`.
    pub fn after_on_response<P>(&self, outcome: Result<P, String>) -> (response: Result<P, ErrorResponse>)
        ensures
            match outcome {
                Ok(parts) => response == Ok::<P, ErrorResponse>(parts),
                Err(message) => {
                    &&& response matches Err(error)
                    &&& error.status == 500
                    &&& error.errors@.len() == 1
                    &&& error.errors@[0].message == message
                    &&& error.errors@[0].code == ErrorCode::ExtensionError
                    &&& error.errors@[0].extensions@.len() == 0
                },
            },
    {
        match outcome {
            Ok(parts) => Ok(parts),
            Err(message) => Err(
                ErrorResponse::new(500).with_error(GraphqlError::new(message, ErrorCode::ExtensionError)),
            ),
        }
    }
}

} // verus!
