//! What the engine asks of its runtime.

pub mod hooks;
