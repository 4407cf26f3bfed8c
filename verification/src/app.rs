//! What a changed setting leads to.

use crate::settings::LogLevel;
use crate::text::same_text;
use crate::LevelFilter;
use vstd::prelude::*;
use vstd::string::*;

verus! {

/// How many log lines the program keeps.
pub const LOG_BUFFER_LINES: usize = 200;

/// The filter of a level.
pub open spec fn filter_for(level: LogLevel) -> LevelFilter {
    match level {
        LogLevel::Trace => LevelFilter::Trace,
        LogLevel::Debug => LevelFilter::Debug,
        LogLevel::Info => LevelFilter::Info,
        LogLevel::Warn => LevelFilter::Warn,
        LogLevel::Error => LevelFilter::Error,
    }
}

/// The filter of the level in the settings.
pub fn level_filter_from_settings(level: LogLevel) -> (r: LevelFilter)
    ensures
        r == filter_for(level),
{
    match level {
        LogLevel::Trace => LevelFilter::Trace,
        LogLevel::Debug => LevelFilter::Debug,
        LogLevel::Info => LevelFilter::Info,
        LogLevel::Warn => LevelFilter::Warn,
        LogLevel::Error => LevelFilter::Error,
    }
}

/// Something that a running program does when a setting changes.
#[derive(Clone, Copy, Debug, PartialEq, Eq, Structural)]
pub enum SyncAction {
    /// The sessions to come use the new language.
    SetLanguage,
    /// The model that is used follows the setting.
    SyncSelectedModel,
    /// The loaded model is given up.
    UnloadModel,
    /// Transcription follows the settings.
    RefreshTranscription,
    /// Muting follows the setting.
    SetMute,
    /// The microphone follows the setting.
    SetMicrophone,
    /// The microphone's mode follows the setting.
    SetMicrophoneMode,
    /// Logging follows the setting.
    SetLogLevel,
}

/// A change of this setting only makes transcription follow the settings.
pub open spec fn only_refreshes(key: Seq<char>) -> bool {
    ||| key == "translate-to-english"@
    ||| key == "custom-words"@
    ||| key == "word-correction-threshold"@
    ||| key == "model-unload-timeout"@
}

/// What a changed setting leads to, in order. Other settings are read when they are needed.
pub open spec fn sync_actions(key: Seq<char>) -> Seq<SyncAction> {
    if key == "selected-language"@ {
        seq![SyncAction::SetLanguage, SyncAction::RefreshTranscription]
    } else if only_refreshes(key) {
        seq![SyncAction::RefreshTranscription]
    } else if key == "selected-model"@ {
        seq![
            SyncAction::SyncSelectedModel,
            SyncAction::UnloadModel,
            SyncAction::RefreshTranscription,
        ]
    } else if key == "mute-while-recording"@ {
        seq![SyncAction::SetMute]
    } else if key == "selected-microphone"@ {
        seq![SyncAction::SetMicrophone]
    } else if key == "always-on-microphone"@ {
        seq![SyncAction::SetMicrophoneMode]
    } else if key == "log-level"@ || key == "debug-mode"@ {
        seq![SyncAction::SetLogLevel]
    } else {
        Seq::empty()
    }
}

/// What a changed setting leads to, in order.
pub fn settings_sync_actions(key: &str) -> (r: Vec<SyncAction>)
    ensures
        r@ == sync_actions(key@),
{
    let mut r: Vec<SyncAction> = Vec::new();
    if same_text(key, "selected-language") {
        r.push(SyncAction::SetLanguage);
        r.push(SyncAction::RefreshTranscription);
    } else if same_text(key, "translate-to-english") || same_text(key, "custom-words") || same_text(
        key,
        "word-correction-threshold",
    ) || same_text(key, "model-unload-timeout") {
        r.push(SyncAction::RefreshTranscription);
    } else if same_text(key, "selected-model") {
        r.push(SyncAction::SyncSelectedModel);
        r.push(SyncAction::UnloadModel);
        r.push(SyncAction::RefreshTranscription);
    } else if same_text(key, "mute-while-recording") {
        r.push(SyncAction::SetMute);
    } else if same_text(key, "selected-microphone") {
        r.push(SyncAction::SetMicrophone);
    } else if same_text(key, "always-on-microphone") {
        r.push(SyncAction::SetMicrophoneMode);
    } else if same_text(key, "log-level") || same_text(key, "debug-mode") {
        r.push(SyncAction::SetLogLevel);
    }
    assert(r@ =~= sync_actions(key@));
    r
}

/// Whatever changes the model, unloads it or sets the language is followed by transcription with
/// the new settings.
pub proof fn law_transcription_follows_the_settings(key: Seq<char>, i: int)
    requires
        0 <= i < sync_actions(key).len(),
        sync_actions(key)[i] == SyncAction::SetLanguage || sync_actions(key)[i]
            == SyncAction::SyncSelectedModel || sync_actions(key)[i] == SyncAction::UnloadModel,
    ensures
        sync_actions(key).last() == SyncAction::RefreshTranscription,
        i < sync_actions(key).len() - 1,
{
}

/// Logging that is set to a level lets it and what is graver through.
pub proof fn law_filters_follow_the_level()
    ensures
        filter_for(LogLevel::Trace) == LevelFilter::Trace,
        filter_for(LogLevel::Debug) == LevelFilter::Debug,
        filter_for(LogLevel::Info) == LevelFilter::Info,
        filter_for(LogLevel::Warn) == LevelFilter::Warn,
        filter_for(LogLevel::Error) == LevelFilter::Error,
{
}

/// Every setting that transcription depends on refreshes it, at last; a new model gives up the old
/// one first, and the other settings do what they name and nothing else.
pub proof fn law_settings_are_applied(key: Seq<char>)
    ensures
        key == "selected-language"@ || key == "translate-to-english"@ || key == "custom-words"@ || key
            == "word-correction-threshold"@ || key == "model-unload-timeout"@ || key
            == "selected-model"@ ==> sync_actions(key).len() > 0 && sync_actions(key).last()
            == SyncAction::RefreshTranscription,
        sync_actions("selected-language"@)[0] == SyncAction::SetLanguage,
        ({
            let m = sync_actions("selected-model"@);
            m.len() == 3 && m[0] == SyncAction::SyncSelectedModel && m[1] == SyncAction::UnloadModel
        }),
        sync_actions("mute-while-recording"@) == seq![SyncAction::SetMute],
        sync_actions("selected-microphone"@) == seq![SyncAction::SetMicrophone],
        sync_actions("always-on-microphone"@) == seq![SyncAction::SetMicrophoneMode],
        sync_actions("log-level"@) == seq![SyncAction::SetLogLevel],
        sync_actions("debug-mode"@) == seq![SyncAction::SetLogLevel],
{
    reveal_strlit("selected-language");
    reveal_strlit("translate-to-english");
    reveal_strlit("custom-words");
    reveal_strlit("word-correction-threshold");
    reveal_strlit("model-unload-timeout");
    reveal_strlit("selected-model");
    reveal_strlit("mute-while-recording");
    reveal_strlit("selected-microphone");
    reveal_strlit("always-on-microphone");
    reveal_strlit("log-level");
    reveal_strlit("debug-mode");
    assert("mute-while-recording"@[0] == 'm' && "translate-to-english"@[0] == 't'
        && "model-unload-timeout"@[0] == 'm' && "always-on-microphone"@[0] == 'a');
    assert("mute-while-recording"@[1] == 'u' && "model-unload-timeout"@[1] == 'o');
    assert("debug-mode"@.len() == 10 && "log-level"@.len() == 9 && "custom-words"@.len() == 12);
    assert("selected-microphone"@.len() == 19 && "selected-model"@.len() == 14
        && "selected-language"@.len() == 17 && "word-correction-threshold"@.len() == 25);
    assert("mute-while-recording"@.len() == 20 && "always-on-microphone"@.len() == 20
        && "model-unload-timeout"@.len() == 20 && "translate-to-english"@.len() == 20);
}

} // verus!
