//! The HTTP layer: what is read from a request and what a failure is
//! answered with.
pub mod extractors;
pub mod kernel;
pub mod middlewares;
pub mod response;
pub mod server;
