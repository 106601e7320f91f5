//! The fonts in which the digits of a code are drawn.

pub mod lite;
pub mod pipe;
pub mod utf8;
