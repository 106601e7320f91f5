//! Time-based one-time passwords for a file of named secrets: the code
//! generator, the reloading secret store, the lock state of the interactive
//! display and the coordination of the running surfaces.

pub mod config;
pub mod error;
pub mod orchestrator;
pub mod output;
pub mod qr;
pub mod state;
pub mod text;
pub mod totp;
