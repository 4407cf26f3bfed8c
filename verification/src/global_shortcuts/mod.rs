//! The global dictation shortcut: the keyboard listener and what a press sets off.

pub mod calls;
pub mod config;
pub mod health;
pub mod keys;
pub mod toggle;
