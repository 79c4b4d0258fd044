//! Domain types, in-memory stores and request handling of an authentication
//! service: sign-up, log-in with optional two-factor codes, log-out and token
//! checks.
pub mod domain;
pub mod laws;
pub mod routes;
pub mod services;
pub mod text;

pub use domain::error::ErrorResponse;
