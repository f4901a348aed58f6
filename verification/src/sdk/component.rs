//! The component of a guest: it holds the extension that the guest
//! registered and dispatches the calls of the host to it.

use vstd::prelude::*;
use vstd::string::*;
use crate::host::error::{GuestError, GuestErrorResponse};
use crate::host::instance::Token;
use crate::sdk::extension::{error_response_from, AnyExtension, AuthorizationDecisions, FieldDefinitionDirective, FieldOutput};
use crate::sdk::headers::{GatewayHeaders, SubgraphHeaders};

verus! {

/// The component. It holds no extension until the guest registers one.
pub struct Component<E> {
    pub extension: Option<E>,
}

/// What `authorize_query` returns to the host: the decisions, the state for
/// the response phase and the headers as the extension left them.
#[derive(Debug)]
pub struct AuthorizationOutput {
    pub decisions: AuthorizationDecisions,
    pub state: Vec<u8>,
    pub headers: SubgraphHeaders,
}

/// The message of the error of a call that comes before an extension was
/// registered.
pub open spec fn not_registered_message() -> Seq<char> {
    "Extension was not registered."@
}

/// Whether `error` says that no extension was registered.
pub open spec fn is_not_registered(error: GuestError) -> bool {
    error.message@ == not_registered_message() && error.extensions@.len() == 0
}

/// Whether `response` is the internal server error that says that no
/// extension was registered.
pub open spec fn is_not_registered_response(response: GuestErrorResponse) -> bool {
    &&& response.status_code == 500
    &&& response.errors@.len() == 1
    &&& is_not_registered(response.errors@[0])
}

/// The error of a call that comes before an extension was registered.
pub fn not_registered() -> (error: GuestError)
    ensures
        is_not_registered(error),
{
    GuestError { message: String::from_str("Extension was not registered."), extensions: Vec::new() }
}

/// What the extension answered to `authenticate`, read from what the
/// component returned.
pub open spec fn authenticate_answer(result: Result<(GatewayHeaders, Token), GuestErrorResponse>) -> Result<
    Token,
    GuestErrorResponse,
> {
    match result {
        Ok(returned) => Ok(returned.1),
        Err(response) => Err(response),
    }
}

/// What the extension answered to `authorize_query`, read from what the
/// component returned.
pub open spec fn authorize_query_answer(result: Result<AuthorizationOutput, GuestErrorResponse>) -> Result<
    (AuthorizationDecisions, Vec<u8>),
    GuestErrorResponse,
> {
    match result {
        Ok(output) => Ok((output.decisions, output.state)),
        Err(response) => Err(response),
    }
}

impl<E: AnyExtension> Component<E> {
    /// A component without extension.
    pub fn new() -> (component: Self)
        ensures
            component.extension is None,
    {
        Component { extension: None }
    }

    /// Registers the extension that later calls are dispatched to.
    pub fn register_extension(&mut self, extension: E)
        ensures
            final(self).extension == Some(extension),
    {
        self.extension = Some(extension);
    }

    /// Authenticates a request by its headers: the token or the error is
    /// the extension's, and the headers come back as they were given.
    /// Without an extension the call fails with an internal server error.
    pub fn authenticate(&mut self, headers: GatewayHeaders) -> (result: Result<
        (GatewayHeaders, Token),
        GuestErrorResponse,
    >)
        ensures
            match old(self).extension {
                None => {
                    &&& result matches Err(response) && is_not_registered_response(response)
                    &&& final(self).extension is None
                },
                Some(registered) => {
                    &&& result matches Ok(returned) ==> returned.0 == headers
                    &&& exists|extension: &mut E|
                        {
                            &&& *extension == registered
                            &&& final(self).extension == Some(*final(extension))
                            &&& #[trigger] call_ensures(
                                E::authenticate,
                                (extension, &headers),
                                authenticate_answer(result),
                            )
                        }
                },
            },
    {
        match &mut self.extension {
            Some(extension) => match extension.authenticate(&headers) {
                Ok(token) => Ok((headers, token)),
                Err(response) => Err(response),
            },
            None => Err(error_response_from(not_registered())),
        }
    }

    /// Resolves a field for each of `inputs`: the result is the
    /// extension's. Without an extension the call fails.
    pub fn resolve_field(
        &mut self,
        headers: SubgraphHeaders,
        subgraph_name: &str,
        directive: &FieldDefinitionDirective,
        inputs: &Vec<Vec<u8>>,
    ) -> (result: Result<FieldOutput, GuestError>)
        ensures
            match old(self).extension {
                None => {
                    &&& result matches Err(error) && is_not_registered(error)
                    &&& final(self).extension is None
                },
                Some(registered) => exists|extension: &mut E|
                    {
                        &&& *extension == registered
                        &&& final(self).extension == Some(*final(extension))
                        &&& #[trigger] call_ensures(
                            E::resolve_field,
                            (extension, headers, subgraph_name, directive, inputs),
                            result,
                        )
                    },
            },
    {
        match &mut self.extension {
            Some(extension) => extension.resolve_field(headers, subgraph_name, directive, inputs),
            None => Err(not_registered()),
        }
    }

    /// Starts a subscription: the result is the extension's. Without an
    /// extension the call fails.
    pub fn resolve_subscription(
        &mut self,
        headers: SubgraphHeaders,
        subgraph_name: &str,
        directive: &FieldDefinitionDirective,
    ) -> (result: Result<(), GuestError>)
        ensures
            match old(self).extension {
                None => {
                    &&& result matches Err(error) && is_not_registered(error)
                    &&& final(self).extension is None
                },
                Some(registered) => exists|extension: &mut E|
                    {
                        &&& *extension == registered
                        &&& final(self).extension == Some(*final(extension))
                        &&& #[trigger] call_ensures(
                            E::resolve_subscription,
                            (extension, headers, subgraph_name, directive),
                            result,
                        )
                    },
            },
    {
        match &mut self.extension {
            Some(extension) => extension.resolve_subscription(headers, subgraph_name, directive),
            None => Err(not_registered()),
        }
    }

    /// The key under which subscriptions with these headers and this
    /// directive are shared, if they are: the result is the extension's.
    /// Without an extension the call fails.
    pub fn subscription_key(
        &mut self,
        headers: SubgraphHeaders,
        subgraph_name: &str,
        directive: &FieldDefinitionDirective,
    ) -> (result: Result<Option<Vec<u8>>, GuestError>)
        ensures
            match old(self).extension {
                None => {
                    &&& result matches Err(error) && is_not_registered(error)
                    &&& final(self).extension is None
                },
                Some(registered) => exists|extension: &mut E|
                    {
                        &&& *extension == registered
                        &&& final(self).extension == Some(*final(extension))
                        &&& #[trigger] call_ensures(
                            E::subscription_key,
                            (extension, &headers, subgraph_name, directive),
                            result,
                        )
                    },
            },
    {
        match &mut self.extension {
            Some(extension) => extension.subscription_key(&headers, subgraph_name, directive),
            None => Err(not_registered()),
        }
    }

    /// The next item of the running subscription: the result is the
    /// extension's. Without an extension the call fails.
    pub fn resolve_next_subscription_item(&mut self) -> (result: Result<Option<FieldOutput>, GuestError>)
        ensures
            match old(self).extension {
                None => {
                    &&& result matches Err(error) && is_not_registered(error)
                    &&& final(self).extension is None
                },
                Some(registered) => exists|extension: &mut E|
                    {
                        &&& *extension == registered
                        &&& final(self).extension == Some(*final(extension))
                        &&& #[trigger] call_ensures(E::resolve_next_subscription_item, (extension,), result)
                    },
            },
    {
        match &mut self.extension {
            Some(extension) => extension.resolve_next_subscription_item(),
            None => Err(not_registered()),
        }
    }

    /// Authorizes the elements of a query. The headers, the token and the
    /// elements go to the extension; its decisions and state come back,
    /// with the headers as the extension left them. Without an extension
    /// the call fails with an internal server error.
    pub fn authorize_query(&mut self, headers: SubgraphHeaders, token: Token, elements: &[u8]) -> (result: Result<
        AuthorizationOutput,
        GuestErrorResponse,
    >)
        ensures
            match old(self).extension {
                None => {
                    &&& result matches Err(response) && is_not_registered_response(response)
                    &&& final(self).extension is None
                },
                Some(registered) => exists|extension: &mut E, handed: &mut SubgraphHeaders|
                    {
                        &&& *extension == registered
                        &&& final(self).extension == Some(*final(extension))
                        &&& *handed == headers
                        &&& result matches Ok(output) ==> output.headers == *final(handed)
                        &&& #[trigger] call_ensures(
                            E::authorize_query,
                            (extension, handed, token, elements),
                            authorize_query_answer(result),
                        )
                    },
            },
    {
        let mut headers = headers;
        match &mut self.extension {
            Some(extension) => match extension.authorize_query(&mut headers, token, elements) {
                Ok((decisions, state)) => Ok(AuthorizationOutput { decisions, state, headers }),
                Err(response) => Err(response),
            },
            None => Err(error_response_from(not_registered())),
        }
    }

    /// Authorizes the elements of a response, with the state that the query
    /// phase left: the decisions are the extension's. Without an extension
    /// the call fails.
    pub fn authorize_response(&mut self, state: Vec<u8>, elements: &[u8]) -> (result: Result<
        AuthorizationDecisions,
        GuestError,
    >)
        ensures
            match old(self).extension {
                None => {
                    &&& result matches Err(error) && is_not_registered(error)
                    &&& final(self).extension is None
                },
                Some(registered) => exists|extension: &mut E|
                    {
                        &&& *extension == registered
                        &&& final(self).extension == Some(*final(extension))
                        &&& #[trigger] call_ensures(E::authorize_response, (extension, state, elements), result)
                    },
            },
    {
        match &mut self.extension {
            Some(extension) => extension.authorize_response(state, elements),
            None => Err(not_registered()),
        }
    }
}

} // verus!
