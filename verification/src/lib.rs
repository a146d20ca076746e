//! Selective cross-origin resource sharing for a Rocket application.
//!
//! An allow-list names the endpoints, by method and path pattern, whose
//! responses may be read from another origin. Responses to requests that the
//! list covers are given the headers that say so; every other response is
//! left as it is.

pub mod cors;
pub mod headers;
pub mod laws;
pub mod method;
pub mod path;
pub mod request;
pub mod response;
pub mod text;

pub use cors::CORSEndpoint;
pub use cors::CORS;
pub use method::Method;
