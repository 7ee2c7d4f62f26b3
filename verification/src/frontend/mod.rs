//! What a user of the server writes against: routes, groups, middleware,
//! extractors and response parts.

pub mod extras;
pub mod handler;
pub mod middleware;
pub mod request;
pub mod response;
pub mod routing;
