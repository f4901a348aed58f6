//! The response under construction.

pub mod extension;
pub mod path;
