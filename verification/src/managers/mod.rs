//! What the service keeps track of: the microphone, the models, the history, the engine.

pub mod audio;
pub mod catalog;
pub mod download;
pub mod execution;
pub mod history;
pub mod model;
pub mod transcription;
