//! The errors that reach a GraphQL client.

use vstd::prelude::*;

verus! {

#[verifier::external_type_specification]
#[verifier::external_body]
pub struct ExJsonValue(serde_json::Value);

/// The machine-readable class of an error.
#[derive(Clone, Copy, Debug, PartialEq, Eq, Structural)]
pub enum ErrorCode {
    BadRequest,
    InternalServerError,
    Unauthenticated,
    Unauthorized,
    HookError,
    ExtensionError,
}

/// One value of an error's extension data.
#[derive(Debug)]
pub enum ExtensionValue {
    /// A JSON value.
    Json(serde_json::Value),
    /// Text that is no JSON document: it stands for the JSON string with
    /// this content.
    Text(String),
    /// A value that a guest serialized as CBOR and nobody has decoded yet.
    Cbor(Vec<u8>),
}

/// A GraphQL error: a message, a code and extension data.
#[derive(Debug)]
pub struct GraphqlError {
    pub message: String,
    pub code: ErrorCode,
    pub extensions: Vec<(String, ExtensionValue)>,
}

/// An error response for a whole request: a status and the errors of its
/// body.
#[derive(Debug)]
pub struct ErrorResponse {
    pub status: u16,
    pub errors: Vec<GraphqlError>,
}

impl ErrorResponse {
    /// An error response with this status and no error yet.
    pub fn new(status: u16) -> (response: ErrorResponse)
        ensures
            response.status == status,
            response.errors@.len() == 0,
    {
        ErrorResponse { status, errors: Vec::new() }
    }

    /// The response with one more error.
    pub fn with_error(self, error: GraphqlError) -> (response: ErrorResponse)
        ensures
            response.status == self.status,
            response.errors@ == self.errors@.push(error),
    {
        let mut response = self;
        response.errors.push(error);
        response
    }
}

/// The JSON value that `text` spells, as `serde_json` reads it; none for a
/// text that is no JSON document.
pub uninterp spec fn json_document(text: Seq<char>) -> Option<serde_json::Value>;

/// Whether `text` is a JSON document.
pub open spec fn json_parses(text: Seq<char>) -> bool {
    json_document(text) is Some
}

/// The extension value for `text`: the JSON value that it spells, or the
/// text itself where it spells none.
pub open spec fn extension_value_of(text: String) -> ExtensionValue {
    match json_document(text@) {
        Some(json) => ExtensionValue::Json(json),
        None => ExtensionValue::Text(text),
    }
}

/// The message of the error that hides an internal failure from the client.
pub open spec fn internal_server_error_message() -> Seq<char> {
    "Internal server error"@
}

/// The message of the error that reports a failing extension.
pub open spec fn internal_extension_error_message() -> Seq<char> {
    "Internal extension error"@
}

/// Whether `error` is the error that hides an internal failure from the
/// client: its message and code, and no extension data.
pub open spec fn is_internal_server_error(error: GraphqlError) -> bool {
    &&& error.message@ == internal_server_error_message()
    &&& error.code == ErrorCode::InternalServerError
    &&& error.extensions@.len() == 0
}

impl GraphqlError {
    /// An error with this message and code and no extension data.
    pub fn new(message: String, code: ErrorCode) -> (error: GraphqlError)
        ensures
            error.message == message,
            error.code == code,
            error.extensions@.len() == 0,
    {
        GraphqlError { message, code, extensions: Vec::new() }
    }

    /// The error that stands for any internal failure.
    pub fn internal_server_error() -> (error: GraphqlError)
        ensures
            is_internal_server_error(error),
    {
        GraphqlError::new("Internal server error".to_owned(), ErrorCode::InternalServerError)
    }

    /// The error that stands for a failure inside an extension.
    pub fn internal_extension_error() -> (error: GraphqlError)
        ensures
            error.message@ == internal_extension_error_message(),
            error.code == ErrorCode::ExtensionError,
            error.extensions@.len() == 0,
    {
        GraphqlError::new("Internal extension error".to_owned(), ErrorCode::ExtensionError)
    }
}

/// The extension value for `text`: the JSON value it spells if it is a JSON
/// document, else the text itself.
pub fn extension_value_from_text(text: String) -> (value: ExtensionValue)
    ensures
        value == extension_value_of(text),
{
    match json_from_str(text.as_str()) {
        Some(json) => ExtensionValue::Json(json),
        None => ExtensionValue::Text(text),
    }
}

/// `serde_json::from_str` for a `Value`, without the error: the value that
/// the text spells, and none for a text that is no JSON document. The same
/// text always gives the same value.
#[verifier::external_body]
fn json_from_str(text: &str) -> (parsed: Option<serde_json::Value>)
    ensures
        parsed == json_document(text@),
{
    serde_json::from_str(text).ok()
}

} // verus!
