//! How failed requests to a subgraph are retried.

use vstd::prelude::*;

verus! {

/// The retry budget as the gateway's configuration gives it. The fraction
/// of the budget is a 32-bit float, held by its bits.
#[derive(Debug, Clone, Copy, PartialEq, Eq, Structural)]
pub struct GatewayRetryConfig {
    pub enabled: bool,
    pub min_per_second: Option<u32>,
    pub ttl_ms: Option<u64>,
    pub retry_percent_bits: Option<u32>,
    pub retry_mutations: bool,
}

/// The retry budget of a subgraph.
#[derive(Debug, Clone, Copy, PartialEq, Eq, Structural)]
pub struct RetryConfig {
    /// How many retries are available per second, at a minimum.
    pub min_per_second: Option<u32>,
    /// For how long the budget remembers successful requests, in
    /// milliseconds.
    pub ttl_ms: Option<u64>,
    /// The fraction of the budget of successful requests that retries may
    /// use, as the bits of a 32-bit float.
    pub retry_percent_bits: Option<u32>,
    /// Whether mutations are retried at all.
    pub retry_mutations: bool,
}

impl From<GatewayRetryConfig> for RetryConfig {
    /// The retry budget for the gateway's configuration.
    fn from(config: GatewayRetryConfig) -> (retry: RetryConfig) {
        RetryConfig {
            min_per_second: config.min_per_second,
            ttl_ms: config.ttl_ms,
            retry_percent_bits: config.retry_percent_bits,
            retry_mutations: config.retry_mutations,
        }
    }
}

impl vstd::std_specs::convert::FromSpecImpl<GatewayRetryConfig> for RetryConfig {
    open spec fn obeys_from_spec() -> bool {
        true
    }

    open spec fn from_spec(config: GatewayRetryConfig) -> RetryConfig {
        RetryConfig {
            min_per_second: config.min_per_second,
            ttl_ms: config.ttl_ms,
            retry_percent_bits: config.retry_percent_bits,
            retry_mutations: config.retry_mutations,
        }
    }
}

} // verus!
