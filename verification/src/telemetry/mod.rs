//! What the gateway measures and how it is told to export it.

pub mod exporters;
pub mod metrics;
pub mod otel;
