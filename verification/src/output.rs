//! The surfaces through which codes leave the program.

pub mod cui;
pub mod onetime;
pub mod web;
