//! What the settings window shows.

pub mod advanced;
pub mod debug;
pub mod diagnostics;
pub mod general;
pub mod models;
pub mod window;
