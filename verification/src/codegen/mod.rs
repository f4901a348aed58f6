//! Generating the code of the schema's types.

pub mod union_enum;
