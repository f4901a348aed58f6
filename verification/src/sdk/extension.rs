//! The extension points of a guest.

use vstd::prelude::*;
use vstd::string::*;
use crate::host::error::{GuestError, GuestErrorResponse};
use crate::host::instance::Token;
use crate::sdk::headers::{GatewayHeaders, SubgraphHeaders};

verus! {

/// The directive on the field that a resolver is called for: its name, the
/// name of the type and of the field it stands on, and its serialized
/// arguments.
#[derive(Debug)]
pub struct FieldDefinitionDirective {
    pub name: String,
    pub parent: String,
    pub field_name: String,
    pub arguments: Vec<u8>,
}

/// What a resolver returns: for each input the serialized data or an
/// error.
#[derive(Debug)]
pub struct FieldOutput {
    pub outputs: Vec<Result<Vec<u8>, GuestError>>,
}

/// The decisions of an authorization extension about the elements it was
/// asked about.
#[derive(Debug)]
pub enum AuthorizationDecisions {
    GrantAll,
    DenyAll(GuestError),
    DenySome { element_to_error: Vec<(u32, u32)>, errors: Vec<GuestError> },
}

/// The message of the error of an extension point that the guest does not
/// implement, for the kind of extension that would implement it.
pub open spec fn not_initialized_message(kind: Seq<char>) -> Seq<char> {
    kind + " not initialized correctly."@
}

/// The error of an extension point that the guest does not implement.
pub fn not_initialized(kind: &str) -> (error: GuestError)
    ensures
        error.message@ == not_initialized_message(kind@),
        error.extensions@.len() == 0,
{
    let mut message = String::from_str(kind);
    message.append(" not initialized correctly.");
    GuestError { message, extensions: Vec::new() }
}

/// The error response of an extension point that the guest does not
/// implement: an internal server error with the one error.
pub fn not_initialized_response(kind: &str) -> (response: GuestErrorResponse)
    ensures
        response.status_code == 500,
        response.errors@.len() == 1,
        response.errors@[0].message@ == not_initialized_message(kind@),
        response.errors@[0].extensions@.len() == 0,
{
    error_response_from(not_initialized(kind))
}

/// The error response for one error: an internal server error that
/// carries it.
pub fn error_response_from(error: GuestError) -> (response: GuestErrorResponse)
    ensures
        response.status_code == 500,
        response.errors@ == seq![error],
{
    let mut errors = Vec::new();
    errors.push(error);
    GuestErrorResponse { status_code: 500, errors }
}

impl From<GuestError> for GuestErrorResponse {
    /// The error response for one error: an internal server error that
    /// carries it.
    fn from(error: GuestError) -> (response: GuestErrorResponse)
        ensures
            response.status_code == 500,
            response.errors@ == seq![error],
    {
        error_response_from(error)
    }
}

impl vstd::std_specs::convert::FromSpecImpl<GuestError> for GuestErrorResponse {
    open spec fn obeys_from_spec() -> bool {
        false
    }

    open spec fn from_spec(error: GuestError) -> GuestErrorResponse {
        arbitrary()
    }
}

/// Whether `error` says that the extension point of an extension of the
/// kind `kind` was not initialized.
pub open spec fn is_not_initialized(error: GuestError, kind: Seq<char>) -> bool {
    error.message@ == not_initialized_message(kind) && error.extensions@.len() == 0
}

/// Whether `response` is the internal server error that says that the
/// extension point of an extension of the kind `kind` was not initialized.
pub open spec fn is_not_initialized_response(response: GuestErrorResponse, kind: Seq<char>) -> bool {
    &&& response.status_code == 500
    &&& response.errors@.len() == 1
    &&& is_not_initialized(response.errors@[0], kind)
}

/// Every extension point of a guest. A guest overrides the points of the
/// kind of extension it is; the others answer that they were not
/// initialized and leave the extension and the headers as they are.
pub trait AnyExtension: Sized {
    fn authenticate(&mut self, headers: &GatewayHeaders) -> (token: Result<Token, GuestErrorResponse>)
        default_ensures
            token matches Err(response) && is_not_initialized_response(response, "Authentication extension"@),
            *final(self) == *old(self),
    {
        Err(not_initialized_response("Authentication extension"))
    }

    fn selection_set_resolver_prepare(&mut self, subgraph_name: &str, field: &[u8]) -> (prepared: Result<
        Vec<u8>,
        GuestError,
    >)
        default_ensures
            prepared matches Err(error) && is_not_initialized(error, "Selection set resolver extension"@),
            *final(self) == *old(self),
    {
        Err(not_initialized("Selection set resolver extension"))
    }

    fn selection_set_resolver_resolve(
        &mut self,
        headers: SubgraphHeaders,
        subgraph_name: &str,
        prepared: Vec<u8>,
        arguments: &[u8],
    ) -> (data: Result<Vec<u8>, GuestError>)
        default_ensures
            data matches Err(error) && is_not_initialized(error, "Selection set resolver extension"@),
            *final(self) == *old(self),
    {
        Err(not_initialized("Selection set resolver extension"))
    }

    fn resolve_field(
        &mut self,
        headers: SubgraphHeaders,
        subgraph_name: &str,
        directive: &FieldDefinitionDirective,
        inputs: &Vec<Vec<u8>>,
    ) -> (output: Result<FieldOutput, GuestError>)
        default_ensures
            output matches Err(error) && is_not_initialized(error, "Resolver extension"@),
            *final(self) == *old(self),
    {
        Err(not_initialized("Resolver extension"))
    }

    fn resolve_subscription(
        &mut self,
        headers: SubgraphHeaders,
        subgraph_name: &str,
        directive: &FieldDefinitionDirective,
    ) -> (started: Result<(), GuestError>)
        default_ensures
            started matches Err(error) && is_not_initialized(error, "Resolver extension"@),
            *final(self) == *old(self),
    {
        Err(not_initialized("Resolver extension"))
    }

    fn resolve_next_subscription_item(&mut self) -> (item: Result<Option<FieldOutput>, GuestError>)
        default_ensures
            item matches Err(error) && is_not_initialized(error, "Resolver extension"@),
            *final(self) == *old(self),
    {
        Err(not_initialized("Resolver extension"))
    }

    fn subscription_key(
        &mut self,
        headers: &SubgraphHeaders,
        subgraph_name: &str,
        directive: &FieldDefinitionDirective,
    ) -> (key: Result<Option<Vec<u8>>, GuestError>)
        default_ensures
            key matches Err(error) && is_not_initialized(error, "Resolver extension"@),
            *final(self) == *old(self),
    {
        Err(not_initialized("Resolver extension"))
    }

    fn authorize_query(&mut self, headers: &mut SubgraphHeaders, token: Token, elements: &[u8]) -> (decided: Result<
        (AuthorizationDecisions, Vec<u8>),
        GuestErrorResponse,
    >)
        default_ensures
            decided matches Err(response) && is_not_initialized_response(response, "Authorization extension"@),
            *final(self) == *old(self),
            *final(headers) == *old(headers),
    {
        Err(not_initialized_response("Authorization extension"))
    }

    fn authorize_response(&mut self, state: Vec<u8>, elements: &[u8]) -> (decisions: Result<
        AuthorizationDecisions,
        GuestError,
    >)
        default_ensures
            decisions matches Err(error) && is_not_initialized(error, "Authorization extension"@),
            *final(self) == *old(self),
    {
        Err(not_initialized("Authorization extension"))
    }
}

} // verus!
