//! Certificate supply for TLS termination in an intercepting proxy:
//! translating a server configuration, describing the certificates to
//! generate, and choosing the material for each handshake.

pub mod cli;
pub mod config;
pub mod factory;
pub mod host;
pub mod service;
pub mod source;
mod text;
pub mod translate;
