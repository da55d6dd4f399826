//! Dialect, stream and companion-index configuration for delimited-text data.

pub mod config;
pub mod delimiter;
pub mod dialect;
pub mod environment;
pub mod index;
pub mod stream;
