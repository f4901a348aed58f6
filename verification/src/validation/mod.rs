//! Validation of a schema.

pub mod input_object_cycles;
