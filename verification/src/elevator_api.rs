//! What the building answers to requests that arrive as query parameters.

pub mod extrators;
pub mod routes;
pub mod utils;
