//! Sessions, pending commits and live previews behind the transcription bus interface.

pub mod live_preedit;
pub mod live_worker;
pub mod pending_commit;
pub mod recording;
pub mod sessions;
pub mod transcript;
