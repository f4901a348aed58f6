//! The registry of a schema: relations between types, variables of
//! resolvers and the validators of arguments.

pub mod bounds;
pub mod delete_one;
pub mod dynamo_mutation;
pub mod relations;
pub mod validators;
pub mod value;
pub mod variables;
