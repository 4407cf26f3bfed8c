//! Logging and launching.

pub mod launch;
pub mod logging;
