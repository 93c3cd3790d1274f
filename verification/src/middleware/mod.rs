//! Middleware that runs around the handling of a request.

pub mod session;
