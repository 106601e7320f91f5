//! The interactive display.

pub mod app;
pub mod components;
pub mod input;
pub mod numbers;
