//! An adapter that serves an HTTP object-model interface (handles for
//! requests, responses, header collections and byte streams) on top of a host
//! that offers one request and one response per invocation.
//!
//! The library holds the handle tables and decides which host calls each
//! operation needs; carrying the calls out is left to the caller.

pub mod fields;
pub mod host;
pub mod laws;
pub mod model;
pub mod request;
pub mod state;
pub mod streams;
pub mod table;
pub mod types;
pub mod uri;
