//! Small subgraphs with fixed data, for trying the gateway out.

pub mod products;
pub mod reviews;
