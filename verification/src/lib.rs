//! A typed client library for a remote vector-database HTTP API:
//! tenant, database and collection management plus vector record
//! operations, expressed as verified request builders and response
//! decoders around an unverified transport.
//!
//! The caller (or the transport crate around this library) performs each
//! built [`client::RequestSpec`] and hands the HTTP status and body text
//! back to the endpoint's response parser; everything in between — URL
//! and query construction, payload serialization, status dispatch, the
//! error taxonomy, and response decoding — is verified against the JSON
//! model in [`json`].

pub mod arrays;
pub mod client;
pub mod codec;
pub mod config;
pub mod dispatch;
pub mod error;
pub mod high_level;
pub mod ident;
pub mod json;
pub mod models;
pub mod payloads;
pub mod responses;
pub mod text;

pub use error::KhromaError;
pub use high_level::{Collection, Database, Khroma, Tenant};
