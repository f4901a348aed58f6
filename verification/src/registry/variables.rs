//! How a resolver finds the value of a variable.

use vstd::prelude::*;
use vstd::string::*;
use crate::registry::value::{Number, GraphqlValue};
use crate::text::{decimal, to_decimal};

verus! {

/// Where the value of a variable comes from.
#[derive(Debug)]
pub enum VariableResolveDefinition {
    /// The value is this text.
    DebugString(String),
    /// The variable of this name of the last resolver in the query graph.
    InputTypeName(String),
    /// The value under this key in the data that resolvers left in the
    /// context.
    ResolverData(String),
    /// The property of this name of the value that the nearest ancestor
    /// resolved.
    LocalData(String),
}

/// The lookup that resolves a variable.
#[derive(Debug)]
pub enum VariableLookup {
    /// Nothing is looked up: the value is known.
    Known(GraphqlValue),
    /// Look up the input variable of this name.
    InputVariable(String),
    /// Look up the resolver data under this key.
    ResolverData(String),
    /// Look up this property of the parent's value; a missing property is
    /// null.
    LocalData(String),
}

/// What became of reading a cursor from the text of a variable.
pub enum CursorText<C> {
    /// The variable has no value.
    Absent,
    /// The text is a cursor.
    Parsed(C),
    /// The text is no cursor.
    Invalid,
}

/// An error of the server at a position of the query.
#[derive(Debug)]
pub struct ServerError {
    pub message: String,
    pub line: usize,
    pub column: usize,
}

/// The message for a value of the wrong kind.
pub open spec fn infer_key_message() -> Seq<char> {
    "Internal Error: failed to infer key"@
}

/// The message for a number that is no unsigned integer.
pub open spec fn infer_int_message() -> Seq<char> {
    "Internal Error: failed to infer Int"@
}

/// The message for an integer over the limit.
pub open spec fn limit_message(limit: usize) -> Seq<char> {
    "Limit Error: the integer must be smaller than "@ + decimal(limit as nat)
}

/// What `expect_opt_int` makes of a resolved value: the integer, nothing for
/// a null or a missing value, or the message of the error.
pub open spec fn opt_int_of(resolved: Option<GraphqlValue>, limit: Option<usize>) -> Result<Option<usize>, Seq<char>> {
    match resolved {
        Some(GraphqlValue::Number(number)) => match number {
            Number::PosInt(n) => {
                let value = n as usize;
                match limit {
                    Some(l) => if value > l {
                        Err(limit_message(l))
                    } else {
                        Ok(Some(value))
                    },
                    None => Ok(Some(value)),
                }
            },
            _ => Err(infer_int_message()),
        },
        Some(GraphqlValue::Null) | None => Ok(None),
        _ => Err(infer_key_message()),
    }
}

impl VariableResolveDefinition {
    /// The lookup that resolves the variable.
    pub fn param(&self) -> (lookup: VariableLookup)
        ensures
            match *self {
                VariableResolveDefinition::DebugString(text) => lookup matches VariableLookup::Known(GraphqlValue::String(s))
                    && s@ == text@,
                VariableResolveDefinition::InputTypeName(name) => lookup matches VariableLookup::InputVariable(n)
                    && n@ == name@,
                VariableResolveDefinition::ResolverData(key) => lookup matches VariableLookup::ResolverData(k) && k@
                    == key@,
                VariableResolveDefinition::LocalData(name) => lookup matches VariableLookup::LocalData(n) && n@
                    == name@,
            },
    {
        match self {
            VariableResolveDefinition::DebugString(text) => VariableLookup::Known(GraphqlValue::String(text.clone())),
            VariableResolveDefinition::InputTypeName(name) => VariableLookup::InputVariable(name.clone()),
            VariableResolveDefinition::ResolverData(key) => VariableLookup::ResolverData(key.clone()),
            VariableResolveDefinition::LocalData(name) => VariableLookup::LocalData(name.clone()),
        }
    }

    /// The resolved value as text; anything else is an error at the given
    /// position.
    pub fn expect_string(resolved: Option<GraphqlValue>, line: usize, column: usize) -> (text: Result<String, ServerError>)
        ensures
            match resolved {
                Some(GraphqlValue::String(inner)) => text == Ok::<String, ServerError>(inner),
                _ => text matches Err(e) && e.message@ == infer_key_message() && e.line == line && e.column == column,
            },
    {
        match resolved {
            Some(GraphqlValue::String(inner)) => Ok(inner),
            _ => Err(server_error("Internal Error: failed to infer key", line, column)),
        }
    }

    /// The resolved value as an object; anything else is an error at the
    /// given position.
    pub fn expect_obj(resolved: Option<GraphqlValue>, line: usize, column: usize) -> (fields: Result<
        Vec<(String, GraphqlValue)>,
        ServerError,
    >)
        ensures
            match resolved {
                Some(GraphqlValue::Object(inner)) => fields == Ok::<Vec<(String, GraphqlValue)>, ServerError>(inner),
                _ => fields matches Err(e) && e.message@ == infer_key_message() && e.line == line && e.column
                    == column,
            },
    {
        match resolved {
            Some(GraphqlValue::Object(inner)) => Ok(inner),
            _ => Err(server_error("Internal Error: failed to infer key", line, column)),
        }
    }

    /// The resolved value as text, or nothing for a null or a missing value;
    /// anything else is an error at the given position.
    pub fn expect_opt_string(resolved: Option<GraphqlValue>, line: usize, column: usize) -> (text: Result<
        Option<String>,
        ServerError,
    >)
        ensures
            match resolved {
                Some(GraphqlValue::String(inner)) => text == Ok::<Option<String>, ServerError>(Some(inner)),
                Some(GraphqlValue::Null) | None => text == Ok::<Option<String>, ServerError>(None),
                _ => text matches Err(e) && e.message@ == infer_key_message() && e.line == line && e.column == column,
            },
    {
        match resolved {
            Some(GraphqlValue::String(inner)) => Ok(Some(inner)),
            Some(GraphqlValue::Null) => Ok(None),
            None => Ok(None),
            _ => Err(server_error("Internal Error: failed to infer key", line, column)),
        }
    }

    /// The cursor of a variable whose text was read as one: the cursor,
    /// nothing for a variable without value, and an error at the given
    /// position for text that is no cursor.
    pub fn expect_opt_cursor<C>(cursor: CursorText<C>, line: usize, column: usize) -> (read: Result<
        Option<C>,
        ServerError,
    >)
        ensures
            match cursor {
                CursorText::Parsed(c) => read == Ok::<Option<C>, ServerError>(Some(c)),
                CursorText::Absent => read == Ok::<Option<C>, ServerError>(None),
                CursorText::Invalid => read matches Err(e) && e.message@ == "Invalid Cursor"@ && e.line == line
                    && e.column == column,
            },
    {
        match cursor {
            CursorText::Parsed(c) => Ok(Some(c)),
            CursorText::Absent => Ok(None),
            CursorText::Invalid => Err(server_error("Invalid Cursor", line, column)),
        }
    }

    /// The resolved value as an unsigned integer that is not over `limit`,
    /// or nothing for a null or a missing value; anything else is an error
    /// at the given position.
    pub fn expect_opt_int(resolved: Option<GraphqlValue>, limit: Option<usize>, line: usize, column: usize) -> (value:
        Result<Option<usize>, ServerError>)
        ensures
            match opt_int_of(resolved, limit) {
                Ok(expected) => value == Ok::<Option<usize>, ServerError>(expected),
                Err(message) => value matches Err(e) && e.message@ == message && e.line == line && e.column == column,
            },
    {
        match resolved {
            Some(GraphqlValue::Number(number)) => match number.as_u64() {
                Some(n) => {
                    let value = #[verifier::truncate]
                    (n as usize);
                    match limit {
                        Some(l) => {
                            if value > l {
                                let mut message = String::from_str("Limit Error: the integer must be smaller than ");
                                message.append(to_decimal(l as u64).as_str());
                                return Err(ServerError { message, line, column });
                            }
                        },
                        None => {},
                    }
                    Ok(Some(value))
                },
                None => Err(server_error("Internal Error: failed to infer Int", line, column)),
            },
            Some(GraphqlValue::Null) => Ok(None),
            None => Ok(None),
            _ => Err(server_error("Internal Error: failed to infer key", line, column)),
        }
    }
}

/// The error with this message at this position.
fn server_error(message: &str, line: usize, column: usize) -> (error: ServerError)
    ensures
        error.message@ == message@,
        error.line == line,
        error.column == column,
{
    ServerError { message: String::from_str(message), line, column }
}

} // verus!
