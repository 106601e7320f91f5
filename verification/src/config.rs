//! What the program is asked to do, and the secrets it works on.

pub mod configuration;
pub mod secrets;
