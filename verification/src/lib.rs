//! Administrative HTTP interface of a tracking server, as a verified library.
//!
//! The library owns the request-processing pipeline: token authentication,
//! route dispatch, pagination and identifier validation, action dispatch
//! against the tracking engine, and rendering of the JSON response envelope.
//! Network transport and server startup live outside the library.

pub mod auth;
pub mod engine;
pub mod handlers;
pub mod hex;
pub mod responses;
pub mod router;
pub mod text;
pub mod validate;
