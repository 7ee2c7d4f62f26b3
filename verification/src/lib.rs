//! Request pipeline of an embeddable HTTP server: routing table, response
//! composition, extractor protocol, middleware layering and route groups,
//! with the decisions of the accept and serve loops.

pub mod frontend;
pub mod runtime;
pub mod server;
pub mod text;
pub mod utils;
