//! Hooks whose implementation is chosen when the gateway is built, with
//! defaults for every hook.
//!
//! The defaults pass requests through unchanged and deny every
//! authorization, so that a hook that a test forgot to provide cannot
//! grant access by accident.

use vstd::prelude::*;
use vstd::string::*;
use crate::graphql_error::{ErrorCode, ErrorResponse, GraphqlError};

verus! {

/// The verdict of an authorization hook about one item.
pub type AuthorizationVerdict = Result<(), GraphqlError>;

/// The verdicts of an authorization hook about a list of items.
pub type AuthorizationVerdicts = Result<Vec<Result<(), GraphqlError>>, GraphqlError>;

/// The field that an authorization hook is asked about.
pub struct EdgeDefinition {
    pub parent: String,
    pub field_name: String,
}

/// The type that an authorization hook is asked about.
pub struct NodeDefinition {
    pub name: String,
}

/// The context of a request: values that the hooks of the request leave
/// for each other, by name.
#[derive(Debug)]
pub struct DynHookContext {
    by_name: Vec<(String, serde_json::Value)>,
}

/// The message of the error of a hook that is not implemented.
pub open spec fn not_implemented_message(hook: Seq<char>) -> Seq<char> {
    hook + " is not implemented"@
}

/// The denial of a hook that is not implemented.
pub fn not_implemented(hook: &str) -> (error: GraphqlError)
    ensures
        error.message@ == not_implemented_message(hook@),
        error.code == ErrorCode::Unauthorized,
        error.extensions@.len() == 0,
{
    let mut message = String::from_str(hook);
    message.append(" is not implemented");
    GraphqlError::new(message, ErrorCode::Unauthorized)
}

/// The position of the last value under `name` in `entries`, if there is
/// one.
pub open spec fn last_position(entries: Seq<(String, serde_json::Value)>, name: Seq<char>) -> Option<int>
    decreases entries.len(),
{
    if entries.len() == 0 {
        None
    } else if entries.last().0@ == name {
        Some(entries.len() - 1)
    } else {
        last_position(entries.drop_last(), name)
    }
}

impl DynHookContext {
    /// The values in the order in which they were inserted. The last value
    /// under a name is the one that counts.
    pub closed spec fn view(&self) -> Seq<(String, serde_json::Value)> {
        self.by_name@
    }

    /// A context without values.
    pub fn new() -> (context: Self)
        ensures
            context@.len() == 0,
    {
        DynHookContext { by_name: Vec::new() }
    }

    /// The value under `name`, if there is one.
    pub fn get(&self, name: &str) -> (value: Option<serde_json::Value>)
        ensures
            match last_position(self@, name@) {
                Some(position) => value == Some(self@[position].1),
                None => value is None,
            },
    {
        let mut remaining = self.by_name.len();
        assert(self@.take(remaining as int) =~= self@);
        while remaining > 0
            invariant
                remaining <= self@.len(),
                last_position(self@, name@) == last_position(self@.take(remaining as int), name@),
            decreases remaining,
        {
            assert(self@.take(remaining as int).drop_last() =~= self@.take(remaining as int - 1));
            assert(self@.take(remaining as int).last() == self@[remaining as int - 1]);
            if crate::text::same_text(self.by_name[remaining - 1].0.as_str(), name) {
                return Some(json_clone(&self.by_name[remaining - 1].1));
            }
            remaining -= 1;
        }
        None
    }

    /// Puts `value` under `name`, in place of any value that stands there.
    pub fn insert(&mut self, name: String, value: serde_json::Value)
        ensures
            final(self)@ == old(self)@.push((name, value)),
            last_position(final(self)@, name@) == Some(old(self)@.len() as int),
    {
        self.by_name.push((name, value));
        assert(self@.last().0@ == name@);
    }
}

/// Whether `error` is the denial of the hook `hook` that is not
/// implemented.
pub open spec fn is_not_implemented(error: GraphqlError, hook: Seq<char>) -> bool {
    &&& error.message@ == not_implemented_message(hook)
    &&& error.code == ErrorCode::Unauthorized
    &&& error.extensions@.len() == 0
}

/// The hooks, each with a default. A default passes a request or a response
/// through unchanged and denies every authorization.
pub trait DynHooks {
    fn on_gateway_request(&self, context: &mut DynHookContext, url: &str, headers: Vec<(String, Vec<u8>)>) -> (returned:
        Result<Vec<(String, Vec<u8>)>, ErrorResponse>)
        default_ensures
            returned == Ok::<Vec<(String, Vec<u8>)>, ErrorResponse>(headers),
            *final(context) == *old(context),
    {
        Ok(headers)
    }

    fn authorize_edge_pre_execution(
        &self,
        context: &DynHookContext,
        definition: EdgeDefinition,
        arguments: serde_json::Value,
        metadata: Option<serde_json::Value>,
    ) -> (verdict: Result<(), GraphqlError>)
        default_ensures
            verdict matches Err(error) && is_not_implemented(error, "authorize_edge_pre_execution"@),
    {
        Err(not_implemented("authorize_edge_pre_execution"))
    }

    fn authorize_node_pre_execution(
        &self,
        context: &DynHookContext,
        definition: NodeDefinition,
        metadata: Option<serde_json::Value>,
    ) -> (verdict: Result<(), GraphqlError>)
        default_ensures
            verdict matches Err(error) && is_not_implemented(error, "authorize_node_pre_execution"@),
    {
        Err(not_implemented("authorize_node_pre_execution"))
    }

    fn authorize_node_post_execution(
        &self,
        context: &DynHookContext,
        definition: NodeDefinition,
        nodes: Vec<serde_json::Value>,
        metadata: Option<serde_json::Value>,
    ) -> (verdicts: Result<Vec<Result<(), GraphqlError>>, GraphqlError>)
        default_ensures
            verdicts matches Err(error) && is_not_implemented(error, "authorize_node_post_execution"@),
    {
        Err(not_implemented("authorize_node_post_execution"))
    }

    fn authorize_parent_edge_post_execution(
        &self,
        context: &DynHookContext,
        definition: EdgeDefinition,
        parents: Vec<serde_json::Value>,
        metadata: Option<serde_json::Value>,
    ) -> (verdicts: Result<Vec<Result<(), GraphqlError>>, GraphqlError>)
        default_ensures
            verdicts matches Err(error) && is_not_implemented(error, "authorize_parent_edge_post_execution"@),
    {
        Err(not_implemented("authorize_parent_edge_post_execution"))
    }

    fn authorize_edge_node_post_execution(
        &self,
        context: &DynHookContext,
        definition: EdgeDefinition,
        nodes: Vec<serde_json::Value>,
        metadata: Option<serde_json::Value>,
    ) -> (verdicts: Result<Vec<Result<(), GraphqlError>>, GraphqlError>)
        default_ensures
            verdicts matches Err(error) && is_not_implemented(error, "authorize_edge_node_post_execution"@),
    {
        Err(not_implemented("authorize_edge_node_post_execution"))
    }

    fn authorize_edge_post_execution(
        &self,
        context: &DynHookContext,
        definition: EdgeDefinition,
        edges: Vec<(serde_json::Value, Vec<serde_json::Value>)>,
        metadata: Option<serde_json::Value>,
    ) -> (verdicts: Result<Vec<Result<(), GraphqlError>>, GraphqlError>)
        default_ensures
            verdicts matches Err(error) && is_not_implemented(error, "authorize_edge_post_execution"@),
    {
        Err(not_implemented("authorize_edge_post_execution"))
    }

    fn on_subgraph_response(&self, context: &DynHookContext, subgraph_name: &str) -> (output: Result<
        Vec<u8>,
        GraphqlError,
    >)
        default_ensures
            output matches Ok(bytes) && bytes@.len() == 0,
    {
        Ok(Vec::new())
    }

    fn on_gateway_response(&self, context: &DynHookContext, outputs: Vec<Vec<u8>>) -> (output: Result<
        Vec<u8>,
        GraphqlError,
    >)
        default_ensures
            output matches Ok(bytes) && bytes@.len() == 0,
    {
        Ok(Vec::new())
    }

    fn on_http_response(&self, context: &DynHookContext, outputs: Vec<Vec<u8>>) -> (done: Result<(), GraphqlError>)
        default_ensures
            done is Ok,
    {
        Ok(())
    }
}

/// Hooks that are all defaults.
pub struct DefaultHooks;

impl DynHooks for DefaultHooks {
}

/// The hooks of a gateway.
pub struct DynamicHooks<H>(pub H);

/// What the gateway request hook returned, given what the gateway's hooks
/// made of it.
pub open spec fn hook_returned(
    result: Result<(DynHookContext, Vec<(String, Vec<u8>)>), (DynHookContext, ErrorResponse)>,
) -> Result<Vec<(String, Vec<u8>)>, ErrorResponse> {
    match result {
        Ok((_, headers)) => Ok(headers),
        Err((_, error)) => Err(error),
    }
}

/// The context that the gateway's hooks return with the result of the
/// gateway request hook.
pub open spec fn context_returned(
    result: Result<(DynHookContext, Vec<(String, Vec<u8>)>), (DynHookContext, ErrorResponse)>,
) -> DynHookContext {
    match result {
        Ok((context, _)) => context,
        Err((context, _)) => context,
    }
}

impl<H: DynHooks> DynamicHooks<H> {
    /// The gateway's hooks for these hooks.
    pub fn new(hooks: H) -> (wrapped: Self)
        ensures
            wrapped.0 == hooks,
    {
        DynamicHooks(hooks)
    }

    /// A fresh context.
    pub fn new_context(&self) -> (context: DynHookContext)
        ensures
            context@.len() == 0,
    {
        DynHookContext::new()
    }

    /// Runs the gateway request hook on a fresh context. The context comes
    /// back as the hook left it, with the headers that the hook returned or
    /// with its error.
    pub fn on_gateway_request(&self, url: &str, headers: Vec<(String, Vec<u8>)>) -> (result: Result<
        (DynHookContext, Vec<(String, Vec<u8>)>),
        (DynHookContext, ErrorResponse),
    >)
        ensures
            exists|context: &mut DynHookContext|
                {
                    &&& (*context)@.len() == 0
                    &&& *final(context) == context_returned(result)
                    &&& #[trigger] call_ensures(
                        H::on_gateway_request,
                        (&self.0, context, url, headers),
                        hook_returned(result),
                    )
                },
    {
        let mut context = DynHookContext::new();
        match self.0.on_gateway_request(&mut context, url, headers) {
            Ok(headers) => Ok((context, headers)),
            Err(error) => Err((context, error)),
        }
    }

    /// The verdict of the hooks about an edge before execution.
    pub fn authorize_edge_pre_execution(
        &self,
        context: &DynHookContext,
        definition: EdgeDefinition,
        arguments: serde_json::Value,
        metadata: Option<serde_json::Value>,
    ) -> (verdict: Result<(), GraphqlError>)
        ensures
            call_ensures(H::authorize_edge_pre_execution, (&self.0, context, definition, arguments, metadata), verdict),
    {
        self.0.authorize_edge_pre_execution(context, definition, arguments, metadata)
    }

    /// The verdict of the hooks about a node before execution.
    pub fn authorize_node_pre_execution(
        &self,
        context: &DynHookContext,
        definition: NodeDefinition,
        metadata: Option<serde_json::Value>,
    ) -> (verdict: Result<(), GraphqlError>)
        ensures
            call_ensures(H::authorize_node_pre_execution, (&self.0, context, definition, metadata), verdict),
    {
        self.0.authorize_node_pre_execution(context, definition, metadata)
    }

    /// The verdicts of the hooks about nodes after execution.
    pub fn authorize_node_post_execution(
        &self,
        context: &DynHookContext,
        definition: NodeDefinition,
        nodes: Vec<serde_json::Value>,
        metadata: Option<serde_json::Value>,
    ) -> (verdicts: Result<Vec<Result<(), GraphqlError>>, GraphqlError>)
        ensures
            call_ensures(H::authorize_node_post_execution, (&self.0, context, definition, nodes, metadata), verdicts),
    {
        self.0.authorize_node_post_execution(context, definition, nodes, metadata)
    }

    /// The verdicts of the hooks about an edge by its parents, after
    /// execution.
    pub fn authorize_parent_edge_post_execution(
        &self,
        context: &DynHookContext,
        definition: EdgeDefinition,
        parents: Vec<serde_json::Value>,
        metadata: Option<serde_json::Value>,
    ) -> (verdicts: Result<Vec<Result<(), GraphqlError>>, GraphqlError>)
        ensures
            call_ensures(
                H::authorize_parent_edge_post_execution,
                (&self.0, context, definition, parents, metadata),
                verdicts,
            ),
    {
        self.0.authorize_parent_edge_post_execution(context, definition, parents, metadata)
    }

    /// The verdicts of the hooks about an edge by its nodes, after
    /// execution.
    pub fn authorize_edge_node_post_execution(
        &self,
        context: &DynHookContext,
        definition: EdgeDefinition,
        nodes: Vec<serde_json::Value>,
        metadata: Option<serde_json::Value>,
    ) -> (verdicts: Result<Vec<Result<(), GraphqlError>>, GraphqlError>)
        ensures
            call_ensures(
                H::authorize_edge_node_post_execution,
                (&self.0, context, definition, nodes, metadata),
                verdicts,
            ),
    {
        self.0.authorize_edge_node_post_execution(context, definition, nodes, metadata)
    }

    /// The verdicts of the hooks about an edge by its parents and their
    /// nodes, after execution.
    pub fn authorize_edge_post_execution(
        &self,
        context: &DynHookContext,
        definition: EdgeDefinition,
        edges: Vec<(serde_json::Value, Vec<serde_json::Value>)>,
        metadata: Option<serde_json::Value>,
    ) -> (verdicts: Result<Vec<Result<(), GraphqlError>>, GraphqlError>)
        ensures
            call_ensures(H::authorize_edge_post_execution, (&self.0, context, definition, edges, metadata), verdicts),
    {
        self.0.authorize_edge_post_execution(context, definition, edges, metadata)
    }
}

/// `Value::clone`: a value equal to the one cloned.
#[verifier::external_body]
fn json_clone(value: &serde_json::Value) -> (cloned: serde_json::Value)
    ensures
        cloned == *value,
{
    value.clone()
}

} // verus!
