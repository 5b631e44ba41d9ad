//! Connection settings for a client of an identity service.

pub mod config;
pub mod document;
pub mod pem;
