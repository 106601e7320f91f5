//! The HTTP surface.

pub mod server;
