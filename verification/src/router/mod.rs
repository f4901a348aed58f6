//! The layers that the gateway wraps around its router.

pub mod extension;
pub mod telemetry;
