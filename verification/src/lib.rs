//! Session-authentication and response-envelope subsystem.
//!
//! The library issues, encodes, validates, refreshes and expires server-side
//! sessions identified by an encrypted bearer token, and wraps every JSON
//! response in a uniform envelope carrying authentication metadata and a
//! normalized error code. Storage is modelled by an in-memory session table
//! and account table with the same contracts the relational backend is held
//! to; the cryptographic and encoding primitives are called through trusted
//! wrappers around outside crates.

pub mod account;
pub mod api_error;
pub mod authorisation;
pub mod configuration;
pub mod envelope;
pub mod routes;
pub mod store;
pub mod token;
pub mod util;
pub mod validation;
