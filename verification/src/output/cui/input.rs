//! What the user does at the interactive display.

pub mod keyboard;
