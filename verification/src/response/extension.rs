//! The extensions of a response: what the gateway adds about itself for
//! the clients that may see it.

use vstd::prelude::*;
use crate::sdk::headers::{values_of, HttpHeaders};
use crate::text::bytes_eq;

verus! {

/// A header that grants access: its name and, if only one value grants
/// it, that value.
pub struct HeaderAccessControl {
    pub name: String,
    pub value: Option<Vec<u8>>,
}

/// A rule of access to the response extension.
pub enum AccessControl {
    Header(HeaderAccessControl),
    Deny,
}

/// What the response extension holds and who may see it.
pub struct ResponseExtensionConfig {
    pub access_control: Vec<AccessControl>,
    pub include_trace_id: bool,
    pub include_query_plan: bool,
}

/// What the gateway says about itself: the id of the trace, and the plan
/// of the query.
#[derive(Debug)]
pub struct GrafbaseResponseExtension<Q> {
    pub trace_id: Option<u128>,
    pub query_plan: Option<Q>,
}

/// The extensions of a response.
#[derive(Debug)]
pub struct ResponseExtensions<Q> {
    pub grafbase: Option<GrafbaseResponseExtension<Q>>,
}

impl AccessControl {
    /// Whether the rule grants access to a request with these headers: a
    /// header rule if the header is present and its first value is the
    /// expected one, where one is expected; `Deny` never.
    pub open spec fn grants(self, headers: Map<Seq<char>, Seq<Seq<u8>>>) -> bool {
        match self {
            AccessControl::Header(rule) => {
                let values = values_of(headers, rule.name@);
                values.len() > 0 && match rule.value {
                    Some(expected) => values[0] == expected@,
                    None => true,
                }
            },
            AccessControl::Deny => false,
        }
    }

    /// Whether the rule grants access to a request with these headers.
    pub fn is_granted(&self, headers: &HttpHeaders) -> (granted: bool)
        ensures
            granted == self.grants(headers@),
    {
        match self {
            AccessControl::Header(rule) => match headers.get(rule.name.as_str()) {
                Some(value) => match &rule.value {
                    Some(expected) => bytes_eq(value.as_slice(), expected.as_slice()),
                    None => true,
                },
                None => false,
            },
            AccessControl::Deny => false,
        }
    }
}

/// Whether the response extension is shown to a request with these
/// headers: some rule grants it.
pub fn should_include_grafbase_response_extension(config: &ResponseExtensionConfig, headers: &HttpHeaders) -> (shown:
    bool)
    ensures
        shown == exists|i: int| 0 <= i < config.access_control@.len() && (#[trigger] config.access_control@[i]).grants(
            headers@,
        ),
{
    let mut index: usize = 0;
    while index < config.access_control.len()
        invariant
            index <= config.access_control@.len(),
            forall|i: int| 0 <= i < index ==> !(#[trigger] config.access_control@[i]).grants(headers@),
        decreases config.access_control@.len() - index,
    {
        if config.access_control[index].is_granted(headers) {
            return true;
        }
        index += 1;
    }
    false
}

/// The extensions of a response before anything is known of its operation:
/// for a request that may see the extension, the extension with the id of
/// the current trace if the configuration includes it.
pub fn default_response_extensions<Q>(config: &ResponseExtensionConfig, shown: bool, trace_id: u128) -> (extensions:
    ResponseExtensions<Q>)
    ensures
        extensions.grafbase is Some == shown,
        extensions.grafbase matches Some(grafbase) ==> {
            &&& grafbase.query_plan is None
            &&& grafbase.trace_id == if config.include_trace_id {
                Some(trace_id)
            } else {
                None
            }
        },
{
    if shown {
        let trace_id = if config.include_trace_id {
            Some(trace_id)
        } else {
            None
        };
        ResponseExtensions { grafbase: Some(GrafbaseResponseExtension { trace_id, query_plan: None }) }
    } else {
        ResponseExtensions { grafbase: None }
    }
}

/// The extensions of a response to a prepared operation: the default
/// ones, with the plan of the query if the request may see the extension
/// and the configuration includes the plan.
pub fn response_extension_for_prepared_operation<Q>(
    config: &ResponseExtensionConfig,
    shown: bool,
    trace_id: u128,
    query_plan: Q,
) -> (extensions: ResponseExtensions<Q>)
    ensures
        extensions.grafbase is Some == shown,
        extensions.grafbase matches Some(grafbase) ==> {
            &&& grafbase.trace_id == if config.include_trace_id {
                Some(trace_id)
            } else {
                None
            }
            &&& grafbase.query_plan == if config.include_query_plan {
                Some(query_plan)
            } else {
                None
            }
        },
{
    let mut extensions = default_response_extensions::<Q>(config, shown, trace_id);
    if shown && config.include_query_plan {
        let trace_id = match extensions.grafbase {
            Some(grafbase) => grafbase.trace_id,
            None => None,
        };
        extensions = ResponseExtensions {
            grafbase: Some(GrafbaseResponseExtension { trace_id, query_plan: Some(query_plan) }),
        };
    }
    extensions
}

} // verus!
