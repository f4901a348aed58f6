//! The gateway's hooks as a local runtime provides them.

pub mod execution;
pub mod hooks;
