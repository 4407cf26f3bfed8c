//! Key bindings.

pub mod handler;
