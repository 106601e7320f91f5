//! The parts that the interactive display is made of.

pub mod messages;
pub mod totp_box;
