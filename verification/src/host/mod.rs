//! Loading, pooling and calling sandboxed guest extensions.

pub mod cache;
pub mod error;
pub mod hooks;
pub mod instance;
pub mod lease;
pub mod loader;
pub mod pool;
pub mod version;
pub mod wit_schema;
