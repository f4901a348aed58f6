//! Gateway and authorization hooks that run in pooled guest instances.

use vstd::prelude::*;
use crate::graphql_error::{
    extension_value_from_text, extension_value_of, is_internal_server_error, ErrorCode, ExtensionValue, GraphqlError,
};
use crate::host::instance::ExtensionInstance;
use crate::host::pool::InstancePool;

verus! {

/// The error that a hook declared: a message and extension data, each value
/// as text.
#[derive(Debug)]
pub struct UserErrorResponse {
    pub message: String,
    pub extensions: Vec<(String, String)>,
}

/// The error of a hook call.
#[derive(Debug)]
pub enum HookError {
    /// The host or the guest failed. The message is for the log.
    Internal(String),
    /// The hook returned an error.
    User(UserErrorResponse),
}

/// The pools of hook instances.
pub struct HooksWasiInner<I> {
    pub gateway_hooks: InstancePool<I>,
    pub authorization_hooks: InstancePool<I>,
}

/// The hooks of a gateway, if a guest provides any.
pub struct HooksWasi<I>(pub Option<HooksWasiInner<I>>);

/// What is done with a gateway request before any guest is asked.
#[derive(Debug)]
pub enum GatewayRequestPlan<H> {
    /// No guest provides hooks: the request goes on with this context and
    /// its headers.
    Pass(Vec<(String, String)>, H),
    /// The gateway hook is called with this context and these headers.
    Call(Vec<(String, String)>, H),
}

/// What is done with the authorization of an edge before any guest is
/// asked.
#[derive(Debug)]
pub enum EdgeAuthorizationPlan {
    /// The edge is denied with this error and no guest is asked.
    Refuse(GraphqlError),
    /// The authorization hook is called with these items, each the
    /// serialized arguments of one edge.
    Call(Vec<String>),
}

/// Whether `error` is the denial for an `@authorized` directive without
/// hooks.
pub open spec fn is_denied_without_hooks(error: GraphqlError) -> bool {
    &&& error.message@ == authorized_without_hooks_message()
    &&& error.code == ErrorCode::Unauthorized
    &&& error.extensions@.len() == 0
}

/// The message of the denial for an `@authorized` directive without hooks.
pub open spec fn authorized_without_hooks_message() -> Seq<char> {
    "@authorized directive cannot be used, so access was denied"@
}

/// Whether `error` is the GraphQL error for the hook's `source`: the same
/// message, the code `HookError`, and each extension value the JSON value
/// that its text spells, or the text itself where it spells none.
pub open spec fn is_user_error_of(error: GraphqlError, source: UserErrorResponse) -> bool {
    &&& error.message == source.message
    &&& error.code == ErrorCode::HookError
    &&& error.extensions@.len() == source.extensions@.len()
    &&& forall|i: int|
        0 <= i < source.extensions@.len() ==> {
            &&& (#[trigger] error.extensions@[i]).0 == source.extensions@[i].0
            &&& error.extensions@[i].1 == extension_value_of(source.extensions@[i].1)
        }
}

/// Whether `error` is what the client is shown for the hook error `source`:
/// an internal failure is hidden behind the internal server error.
pub open spec fn is_client_error_of(error: GraphqlError, source: HookError) -> bool {
    match source {
        HookError::Internal(_) => is_internal_server_error(error),
        HookError::User(response) => is_user_error_of(error, response),
    }
}

impl<I: ExtensionInstance> HooksWasi<I> {
    /// The hooks of a gateway: none without a loader, else two empty pools,
    /// one for the gateway hooks and one for the authorization hooks.
    pub fn new<L>(loader: Option<L>) -> (hooks: Self)
        ensures
            hooks.0 is Some == loader is Some,
            hooks.0 matches Some(inner) ==> {
                &&& inner.gateway_hooks.wf()
                &&& inner.authorization_hooks.wf()
                &&& inner.gateway_hooks@.len() == 0
                &&& inner.authorization_hooks@.len() == 0
            },
    {
        match loader {
            Some(_) => HooksWasi(
                Some(HooksWasiInner { gateway_hooks: InstancePool::new(), authorization_hooks: InstancePool::new() }),
            ),
            None => HooksWasi(None),
        }
    }

    /// Whether a guest provides hooks.
    pub fn is_enabled(&self) -> (enabled: bool)
        ensures
            enabled == self.0 is Some,
    {
        self.0.is_some()
    }

    /// What to do with a gateway request. Without hooks the request passes
    /// with an empty context and its headers untouched; with hooks the
    /// gateway hook is to be called with an empty context and the headers.
    pub fn plan_gateway_request<H>(&self, headers: H) -> (plan: GatewayRequestPlan<H>)
        ensures
            match plan {
                GatewayRequestPlan::Pass(context, passed) => {
                    &&& self.0 is None
                    &&& context@.len() == 0
                    &&& passed == headers
                },
                GatewayRequestPlan::Call(context, handed) => {
                    &&& self.0 is Some
                    &&& context@.len() == 0
                    &&& handed == headers
                },
            },
    {
        if self.0.is_none() {
            GatewayRequestPlan::Pass(Vec::new(), headers)
        } else {
            GatewayRequestPlan::Call(Vec::new(), headers)
        }
    }

    /// The result of the gateway request hook: what the hook returned, with
    /// an error turned into what the client is shown.
    pub fn on_gateway_request<C, H>(&self, outcome: Result<(C, H), HookError>) -> (result: Result<
        (C, H),
        GraphqlError,
    >)
        ensures
            match outcome {
                Ok(returned) => result == Ok::<(C, H), GraphqlError>(returned),
                Err(source) => result matches Err(error) && is_client_error_of(error, source),
            },
    {
        match outcome {
            Ok(returned) => Ok(returned),
            Err(source) => Err(client_error(source)),
        }
    }

    /// What to do with the authorization of an edge, given its arguments as
    /// JSON text, or nothing where they could not be serialized.
    ///
    /// Without hooks the `@authorized` directive cannot be honoured and the
    /// edge is denied. Arguments that could not be serialized are an
    /// internal server error. Else the hook is asked about exactly one
    /// item, the arguments.
    pub fn plan_edge_authorization(&self, arguments: Option<String>) -> (plan: EdgeAuthorizationPlan)
        ensures
            match plan {
                EdgeAuthorizationPlan::Refuse(error) => if self.0 is None {
                    is_denied_without_hooks(error)
                } else {
                    arguments is None && is_internal_server_error(error)
                },
                EdgeAuthorizationPlan::Call(items) => {
                    &&& self.0 is Some
                    &&& arguments matches Some(text)
                    &&& items@ == seq![text]
                },
            },
    {
        if self.0.is_none() {
            return EdgeAuthorizationPlan::Refuse(
                GraphqlError::new(
                    "@authorized directive cannot be used, so access was denied".to_owned(),
                    ErrorCode::Unauthorized,
                ),
            );
        }
        match arguments {
            None => EdgeAuthorizationPlan::Refuse(GraphqlError::internal_server_error()),
            Some(text) => {
                let mut items: Vec<String> = Vec::new();
                items.push(text);
                EdgeAuthorizationPlan::Call(items)
            },
        }
    }

    /// The verdict for an edge before execution, from what the hook
    /// returned when it was asked about that one edge.
    ///
    /// Without hooks the `@authorized` directive cannot be honoured and
    /// access is denied. With hooks the one verdict that the hook returned
    /// decides. Any other number of verdicts breaks the hook's contract: it
    /// is an internal server error, as is a hook that failed. A longer list
    /// is never cut down to its first verdict.
    pub fn authorize_edge_pre_execution(&self, outcome: Result<Vec<Option<UserErrorResponse>>, HookError>) -> (verdict:
        Result<(), GraphqlError>)
        ensures
            match self.0 {
                None => verdict matches Err(error) && is_denied_without_hooks(error),
                Some(_) => match outcome {
                    Ok(results) => if results@.len() == 1 {
                        match results@[0] {
                            None => verdict is Ok,
                            Some(denial) => verdict matches Err(error) && is_user_error_of(error, denial),
                        }
                    } else {
                        verdict matches Err(error) && is_internal_server_error(error)
                    },
                    Err(source) => verdict matches Err(error) && is_client_error_of(error, source),
                },
            },
    {
        if self.0.is_none() {
            return Err(
                GraphqlError::new(
                    "@authorized directive cannot be used, so access was denied".to_owned(),
                    ErrorCode::Unauthorized,
                ),
            );
        }
        let results = match outcome {
            Ok(results) => results,
            Err(source) => {
                return Err(client_error(source));
            },
        };
        let mut results = results;
        if results.len() != 1 {
            return Err(GraphqlError::internal_server_error());
        }
        let first = results.swap_remove(0);
        match first {
            None => Ok(()),
            Some(denial) => Err(error_response_to_user_error(denial)),
        }
    }
}

/// What the client is shown for a hook error.
pub fn client_error(source: HookError) -> (error: GraphqlError)
    ensures
        is_client_error_of(error, source),
{
    match source {
        HookError::Internal(_) => GraphqlError::internal_server_error(),
        HookError::User(response) => error_response_to_user_error(response),
    }
}

/// The GraphQL error for an error that a hook declared. Each extension
/// value is read as JSON; a value that is no JSON document is kept as the
/// text it is.
pub fn error_response_to_user_error(source: UserErrorResponse) -> (error: GraphqlError)
    ensures
        is_user_error_of(error, source),
{
    let ghost entries = source.extensions@;
    let mut extensions: Vec<(String, ExtensionValue)> = Vec::new();
    for entry in it: source.extensions
        invariant
            it.seq() == entries,
            extensions@.len() == it.index(),
            forall|i: int|
                0 <= i < extensions@.len() ==> {
                    &&& (#[trigger] extensions@[i]).0 == entries[i].0
                    &&& extensions@[i].1 == extension_value_of(entries[i].1)
                },
    {
        let value = extension_value_from_text(entry.1);
        extensions.push((entry.0, value));
    }
    GraphqlError { message: source.message, code: ErrorCode::HookError, extensions }
}

} // verus!
