//! Validation rule engine with a structured error taxonomy.
//!
//! The crate centers on four pieces: a registry mapping symbolic error
//! codes to numeric codes, HTTP statuses and messages; a generic rule
//! engine that evaluates an ordered chain of checks against an optional
//! field value and accumulates every violation; a closed error taxonomy
//! carrying failures through the request lifecycle; and a response
//! mapper turning a taxonomy value into a wire-format error payload.
//! Around that core stand the in-memory stores, the message and token
//! services, and the header and configuration helpers the HTTP layer
//! leans on.

pub mod auth;
pub mod base_validator;
pub mod config;
pub mod crypto;
pub mod error_codes;
pub mod errors;
pub mod models;
pub mod repositories;
pub mod router;
pub mod services;
pub mod swagger;
pub mod text;
pub mod validator;

pub use error_codes::ErrorCodes;
pub use error_codes::Errorcode;
pub use error_codes::Registry;
