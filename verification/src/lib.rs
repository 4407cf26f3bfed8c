//! The logic of a dictation service, verified.

use vstd::prelude::*;

pub mod actions;
pub mod app;
pub mod audio_feedback;
pub mod audio_toolkit;
pub mod clipboard;
pub mod clock;
pub mod counter;
pub mod dbus;
pub mod global_shortcuts;
pub mod handy;
pub mod ibus_control;
pub mod ibus_engine;
pub mod json;
pub mod key_mapping;
pub mod llm_client;
pub mod managers;
pub mod maps;
pub mod settings;
pub mod shortcut;
pub mod text;
pub mod text_utils;
pub mod ui;
pub mod utils;

verus! {

/// Which messages are logged: those up to a level, or none.
#[derive(Clone, Copy, Debug, PartialEq, Eq, Structural)]
pub enum LevelFilter {
    Off,
    Error,
    Warn,
    Info,
    Debug,
    Trace,
}

/// The number of the level that a log file starts with.
pub const FILE_LOG_LEVEL: u8 = 4;

/// The filter that a number stands for; everything is logged for one that stands for none.
pub open spec fn filter_of(value: u8) -> LevelFilter {
    if value == 0 {
        LevelFilter::Off
    } else if value == 1 {
        LevelFilter::Error
    } else if value == 2 {
        LevelFilter::Warn
    } else if value == 3 {
        LevelFilter::Info
    } else if value == 4 {
        LevelFilter::Debug
    } else {
        LevelFilter::Trace
    }
}

/// The filter that a number stands for.
pub fn level_filter_from_u8(value: u8) -> (r: LevelFilter)
    ensures
        r == filter_of(value),
{
    if value == 0 {
        LevelFilter::Off
    } else if value == 1 {
        LevelFilter::Error
    } else if value == 2 {
        LevelFilter::Warn
    } else if value == 3 {
        LevelFilter::Info
    } else if value == 4 {
        LevelFilter::Debug
    } else {
        LevelFilter::Trace
    }
}

/// The numbers of the filters count up from none to everything; a greater number lets everything
/// through.
pub proof fn law_filters_count_up(value: u8)
    ensures
        filter_of(0) == LevelFilter::Off,
        filter_of(1) == LevelFilter::Error,
        filter_of(2) == LevelFilter::Warn,
        filter_of(3) == LevelFilter::Info,
        filter_of(4) == LevelFilter::Debug,
        value >= 5 ==> filter_of(value) == LevelFilter::Trace,
{
}

} // verus!
