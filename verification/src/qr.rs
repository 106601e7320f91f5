//! Import of secrets from a QR code.

pub mod migration_payload;
pub mod prompt;
pub mod reader;
