//! The rules of a REST server over the `fff` file-search engine: what a request means, which
//! engine call it becomes, and what the typed reply says.

pub mod clock;
pub mod config;
pub mod dto;
pub mod engine;
pub mod error;
pub mod guard;
pub mod number;
pub mod paths;
pub mod query;
pub mod routes;
pub mod state;
pub mod text;
pub mod utf16;
pub mod workspace;

use vstd::prelude::*;

verus! {

/// The engine release this server is built against. Reported by the health check so a client can
/// tell which engine produced a given result shape.
pub const ENGINE_VERSION: &'static str = "0.11.0";

} // verus!
