//! Extension host of a federated GraphQL gateway: adapter selection, instance
//! pooling, resource leasing, the deduplicating guest cache and the
//! authorization and hooks pipeline, with the schema and registry types they
//! work on.

pub mod authorization;
pub mod bitset;
pub mod codegen;
pub mod federated_graph;
pub mod gateway;
pub mod graph_updater;
pub mod graphql_error;
pub mod host;
pub mod mocks;
pub mod registry;
pub mod response;
pub mod router;
pub mod runtime;
pub mod runtime_local;
pub mod schema;
pub mod sdk;
pub mod shared;
pub mod telemetry;
pub mod text;
pub mod validation;
