//! What a guest is written against: the headers it is handed, the
//! extension points it implements and the component that dispatches to
//! them.

pub mod component;
pub mod extension;
pub mod headers;
pub mod hooks;
