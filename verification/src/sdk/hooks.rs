//! The hooks of a guest: the points of the request lifecycle at which the
//! gateway calls it.

use vstd::prelude::*;
use crate::host::error::{GuestError, GuestErrorResponse};
use crate::sdk::headers::HttpHeaders;

verus! {

/// The context of a request: a store of text by key that the hooks of the
/// request share. The gateway request hook may write it.
pub struct Context {
    pub entries: Vec<(String, String)>,
}

/// The context of a request as the later hooks see it: they read it.
pub struct SharedContext {
    pub entries: Vec<(String, String)>,
}

/// The field that an authorization hook is asked about.
pub struct EdgeDefinition {
    pub parent: String,
    pub field_name: String,
}

/// The type that an authorization hook is asked about.
pub struct NodeDefinition {
    pub name: String,
}

/// A request to a subgraph before it is sent.
pub struct SubgraphRequest {
    pub method: String,
    pub url: String,
    pub headers: HttpHeaders,
}

/// A request to a subgraph after it was answered.
pub struct ExecutedSubgraphRequest {
    pub subgraph_name: String,
    pub method: String,
    pub url: String,
    pub total_duration_ms: u64,
    pub has_errors: bool,
}

/// An operation after it was executed.
pub struct ExecutedOperation {
    pub name: Option<String>,
    pub document: String,
    pub duration_ms: u64,
    pub on_subgraph_response_outputs: Vec<Vec<u8>>,
}

/// A request to the gateway after it was answered.
pub struct ExecutedHttpRequest {
    pub method: String,
    pub url: String,
    pub status_code: u16,
    pub on_operation_response_outputs: Vec<Vec<u8>>,
}

/// The arguments of the authorization of an edge before execution.
pub struct EdgePreExecutionArguments {
    pub definition: EdgeDefinition,
    pub arguments: String,
    pub metadata: String,
}

/// The arguments of the authorization of a node before execution.
pub struct NodePreExecutionArguments {
    pub definition: NodeDefinition,
    pub metadata: String,
}

/// The arguments of the authorization of an edge by its parents, after
/// execution.
pub struct ParentEdgePostExecutionArguments {
    pub definition: EdgeDefinition,
    pub parents: Vec<String>,
    pub metadata: String,
}

/// The arguments of the authorization of an edge by its nodes, after
/// execution.
pub struct EdgeNodePostExecutionArguments {
    pub definition: EdgeDefinition,
    pub nodes: Vec<String>,
    pub metadata: String,
}

/// The arguments of the authorization of an edge by its parents together
/// with their nodes, after execution.
pub struct EdgePostExecutionArguments {
    pub definition: EdgeDefinition,
    pub edges: Vec<(String, Vec<String>)>,
    pub metadata: String,
}

impl EdgePreExecutionArguments {
    pub fn new(definition: EdgeDefinition, arguments: String, metadata: String) -> (made: Self)
        ensures
            made.definition == definition,
            made.arguments == arguments,
            made.metadata == metadata,
    {
        EdgePreExecutionArguments { definition, arguments, metadata }
    }
}

impl NodePreExecutionArguments {
    pub fn new(definition: NodeDefinition, metadata: String) -> (made: Self)
        ensures
            made.definition == definition,
            made.metadata == metadata,
    {
        NodePreExecutionArguments { definition, metadata }
    }
}

impl ParentEdgePostExecutionArguments {
    pub fn new(definition: EdgeDefinition, parents: Vec<String>, metadata: String) -> (made: Self)
        ensures
            made.definition == definition,
            made.parents == parents,
            made.metadata == metadata,
    {
        ParentEdgePostExecutionArguments { definition, parents, metadata }
    }
}

impl EdgeNodePostExecutionArguments {
    pub fn new(definition: EdgeDefinition, nodes: Vec<String>, metadata: String) -> (made: Self)
        ensures
            made.definition == definition,
            made.nodes == nodes,
            made.metadata == metadata,
    {
        EdgeNodePostExecutionArguments { definition, nodes, metadata }
    }
}

impl EdgePostExecutionArguments {
    pub fn new(definition: EdgeDefinition, edges: Vec<(String, Vec<String>)>, metadata: String) -> (made: Self)
        ensures
            made.definition == definition,
            made.edges == edges,
            made.metadata == metadata,
    {
        EdgePostExecutionArguments { definition, edges, metadata }
    }
}

/// Which hooks a guest implements, as a set of bits.
pub trait HookImpls {
    fn hook_implementations(&self) -> u32;
}

/// Marks the hooks that a guest exports.
pub trait HookExports {
}

/// The hooks. A hook that answers with a list answers with one verdict for
/// all items or with one verdict for each item; the gateway refuses any
/// other list.
pub trait Hooks: HookImpls + HookExports {
    /// Makes the hooks, once for each instance.
    fn new() -> Self where Self: Sized;

    /// Called before authentication. It may read and change the headers
    /// and write the context. An error ends the request.
    fn on_gateway_request(&mut self, context: Context, url: String, headers: HttpHeaders) -> Result<
        (),
        GuestErrorResponse,
    >;

    /// Called before each request to a subgraph. An error prevents the
    /// request.
    fn on_subgraph_request(&mut self, context: SharedContext, subgraph_name: String, request: SubgraphRequest) -> Result<
        (),
        GuestError,
    >;

    /// Decides about an edge from its arguments, before any data is
    /// fetched.
    fn authorize_edge_pre_execution(&mut self, context: SharedContext, arguments: EdgePreExecutionArguments) -> Result<
        (),
        GuestError,
    >;

    /// Decides about a node, before any data is fetched.
    fn authorize_node_pre_execution(&mut self, context: SharedContext, arguments: NodePreExecutionArguments) -> Result<
        (),
        GuestError,
    >;

    /// Decides about an edge from the fields of its parents.
    fn authorize_parent_edge_post_execution(
        &mut self,
        context: SharedContext,
        arguments: ParentEdgePostExecutionArguments,
    ) -> Vec<Result<(), GuestError>>;

    /// Decides about an edge from the fields of its nodes.
    fn authorize_edge_node_post_execution(
        &mut self,
        context: SharedContext,
        arguments: EdgeNodePostExecutionArguments,
    ) -> Vec<Result<(), GuestError>>;

    /// Decides about an edge from the fields of its parents and their
    /// nodes.
    fn authorize_edge_post_execution(&mut self, context: SharedContext, arguments: EdgePostExecutionArguments) -> Vec<
        Result<(), GuestError>,
    >;

    /// Called after a subgraph answered. The bytes it returns reach
    /// `on_operation_response`.
    fn on_subgraph_response(&mut self, context: SharedContext, request: ExecutedSubgraphRequest) -> Vec<u8>;

    /// Called after an operation was executed. The bytes it returns reach
    /// `on_http_response`.
    fn on_operation_response(&mut self, context: SharedContext, operation: ExecutedOperation) -> Vec<u8>;

    /// Called before the response goes out.
    fn on_http_response(&mut self, context: SharedContext, response: ExecutedHttpRequest);
}

/// The guest's side of the hooks: it holds the hooks that the guest made
/// and hands each call of the gateway to them.
pub struct HookComponent<H> {
    pub hooks: H,
}

impl<H: Hooks> HookComponent<H> {
    /// The component for freshly made hooks: the hooks are what `H::new`
    /// makes.
    pub fn new() -> (component: Self)
        ensures
            call_ensures(H::new, (), component.hooks),
    {
        HookComponent { hooks: H::new() }
    }

    /// The hooks.
    pub fn hooks(&mut self) -> (hooks: &mut H)
        ensures
            *hooks == old(self).hooks,
            final(self).hooks == *final(hooks),
    {
        &mut self.hooks
    }

    /// Hands the request to the gateway request hook: the result is the
    /// hook's, and the hooks are as the hook left them.
    pub fn on_gateway_request(&mut self, context: Context, url: String, headers: HttpHeaders) -> (result: Result<
        (),
        GuestErrorResponse,
    >)
        ensures
            exists|hooks: &mut H|
                {
                    &&& *hooks == old(self).hooks
                    &&& *final(hooks) == final(self).hooks
                    &&& #[trigger] call_ensures(H::on_gateway_request, (hooks, context, url, headers), result)
                },
    {
        self.hooks.on_gateway_request(context, url, headers)
    }

    /// Hands the request to a subgraph to its hook: the result is the
    /// hook's, and the hooks are as the hook left them.
    pub fn on_subgraph_request(&mut self, context: SharedContext, subgraph_name: String, request: SubgraphRequest) -> (result:
        Result<(), GuestError>)
        ensures
            exists|hooks: &mut H|
                {
                    &&& *hooks == old(self).hooks
                    &&& *final(hooks) == final(self).hooks
                    &&& #[trigger] call_ensures(H::on_subgraph_request, (hooks, context, subgraph_name, request), result)
                },
    {
        self.hooks.on_subgraph_request(context, subgraph_name, request)
    }

    /// Asks the hook about an edge before execution, with the definition,
    /// the arguments and the metadata as its arguments. The verdict is the
    /// hook's.
    pub fn authorize_edge_pre_execution(
        &mut self,
        context: SharedContext,
        definition: EdgeDefinition,
        arguments: String,
        metadata: String,
    ) -> (verdict: Result<(), GuestError>)
        ensures
            exists|hooks: &mut H|
                {
                    &&& *hooks == old(self).hooks
                    &&& *final(hooks) == final(self).hooks
                    &&& #[trigger] call_ensures(
                        H::authorize_edge_pre_execution,
                        (hooks, context, (EdgePreExecutionArguments { definition, arguments, metadata })),
                        verdict,
                    )
                },
    {
        let asked = EdgePreExecutionArguments::new(definition, arguments, metadata);
        assert(asked == (EdgePreExecutionArguments { definition, arguments, metadata }));
        self.hooks.authorize_edge_pre_execution(context, asked)
    }

    /// Asks the hook about a node before execution, with the definition
    /// and the metadata as its arguments. The verdict is the hook's.
    pub fn authorize_node_pre_execution(&mut self, context: SharedContext, definition: NodeDefinition, metadata: String) -> (verdict:
        Result<(), GuestError>)
        ensures
            exists|hooks: &mut H|
                {
                    &&& *hooks == old(self).hooks
                    &&& *final(hooks) == final(self).hooks
                    &&& #[trigger] call_ensures(
                        H::authorize_node_pre_execution,
                        (hooks, context, (NodePreExecutionArguments { definition, metadata })),
                        verdict,
                    )
                },
    {
        let asked = NodePreExecutionArguments::new(definition, metadata);
        assert(asked == (NodePreExecutionArguments { definition, metadata }));
        self.hooks.authorize_node_pre_execution(context, asked)
    }

    /// Asks the hook about an edge by its parents, after execution. The
    /// verdicts are the hook's.
    pub fn authorize_parent_edge_post_execution(
        &mut self,
        context: SharedContext,
        definition: EdgeDefinition,
        parents: Vec<String>,
        metadata: String,
    ) -> (verdicts: Vec<Result<(), GuestError>>)
        ensures
            exists|hooks: &mut H|
                {
                    &&& *hooks == old(self).hooks
                    &&& *final(hooks) == final(self).hooks
                    &&& #[trigger] call_ensures(
                        H::authorize_parent_edge_post_execution,
                        (hooks, context, (ParentEdgePostExecutionArguments { definition, parents, metadata })),
                        verdicts,
                    )
                },
    {
        let asked = ParentEdgePostExecutionArguments::new(definition, parents, metadata);
        assert(asked == (ParentEdgePostExecutionArguments { definition, parents, metadata }));
        self.hooks.authorize_parent_edge_post_execution(context, asked)
    }

    /// Asks the hook about an edge by its nodes, after execution. The
    /// verdicts are the hook's.
    pub fn authorize_edge_node_post_execution(
        &mut self,
        context: SharedContext,
        definition: EdgeDefinition,
        nodes: Vec<String>,
        metadata: String,
    ) -> (verdicts: Vec<Result<(), GuestError>>)
        ensures
            exists|hooks: &mut H|
                {
                    &&& *hooks == old(self).hooks
                    &&& *final(hooks) == final(self).hooks
                    &&& #[trigger] call_ensures(
                        H::authorize_edge_node_post_execution,
                        (hooks, context, (EdgeNodePostExecutionArguments { definition, nodes, metadata })),
                        verdicts,
                    )
                },
    {
        let asked = EdgeNodePostExecutionArguments::new(definition, nodes, metadata);
        assert(asked == (EdgeNodePostExecutionArguments { definition, nodes, metadata }));
        self.hooks.authorize_edge_node_post_execution(context, asked)
    }

    /// Asks the hook about an edge by its parents and their nodes, after
    /// execution. The verdicts are the hook's.
    pub fn authorize_edge_post_execution(
        &mut self,
        context: SharedContext,
        definition: EdgeDefinition,
        edges: Vec<(String, Vec<String>)>,
        metadata: String,
    ) -> (verdicts: Vec<Result<(), GuestError>>)
        ensures
            exists|hooks: &mut H|
                {
                    &&& *hooks == old(self).hooks
                    &&& *final(hooks) == final(self).hooks
                    &&& #[trigger] call_ensures(
                        H::authorize_edge_post_execution,
                        (hooks, context, (EdgePostExecutionArguments { definition, edges, metadata })),
                        verdicts,
                    )
                },
    {
        let asked = EdgePostExecutionArguments::new(definition, edges, metadata);
        assert(asked == (EdgePostExecutionArguments { definition, edges, metadata }));
        self.hooks.authorize_edge_post_execution(context, asked)
    }

    /// Hands the answered request to a subgraph to its hook. The bytes are
    /// the hook's.
    pub fn on_subgraph_response(&mut self, context: SharedContext, request: ExecutedSubgraphRequest) -> (output: Vec<
        u8,
    >)
        ensures
            exists|hooks: &mut H|
                {
                    &&& *hooks == old(self).hooks
                    &&& *final(hooks) == final(self).hooks
                    &&& #[trigger] call_ensures(H::on_subgraph_response, (hooks, context, request), output)
                },
    {
        self.hooks.on_subgraph_response(context, request)
    }

    /// Hands the executed operation to its hook. The bytes are the hook's.
    pub fn on_operation_response(&mut self, context: SharedContext, request: ExecutedOperation) -> (output: Vec<u8>)
        ensures
            exists|hooks: &mut H|
                {
                    &&& *hooks == old(self).hooks
                    &&& *final(hooks) == final(self).hooks
                    &&& #[trigger] call_ensures(H::on_operation_response, (hooks, context, request), output)
                },
    {
        self.hooks.on_operation_response(context, request)
    }

    /// Hands the answered request to the gateway to its hook. The hooks are
    /// as the hook left them.
    pub fn on_http_response(&mut self, context: SharedContext, request: ExecutedHttpRequest)
        ensures
            exists|hooks: &mut H|
                {
                    &&& *hooks == old(self).hooks
                    &&& *final(hooks) == final(self).hooks
                    &&& #[trigger] call_ensures(H::on_http_response, (hooks, context, request), ())
                },
    {
        self.hooks.on_http_response(context, request)
    }
}

} // verus!
