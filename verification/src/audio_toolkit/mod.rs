//! What is done with the samples that the microphone delivers.

pub mod recorder;
