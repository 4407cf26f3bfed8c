//! The service as it is offered under the name `com.handy.Transcription`: one recording at a time,
//! whose text is the answer to the request that stops it.

use crate::settings;
use crate::settings::ModelUnloadTimeout;
use crate::text::concat2;
use crate::text_utils;
use crate::text_utils::convert_chinese_variant;
use vstd::prelude::*;
use vstd::string::*;

verus! {

/// How long after the start of a recording the speakers are muted, in milliseconds.
pub const MUTE_DELAY_MS: u64 = 100;

/// How often the watcher looks whether the model has been idle too long, in seconds.
pub const IDLE_CHECK_SECONDS: u64 = 10;

/// The service's state.
pub struct HandyState {
    is_recording: bool,
}

impl View for HandyState {
    type V = bool;

    closed spec fn view(&self) -> bool {
        self.is_recording
    }
}

/// The answer to a request to stop, given what the recording was transcribed to: nothing where
/// nothing was recorded.
pub open spec fn stop_answer(
    transcription: Option<Result<Seq<char>, Seq<char>>>,
    language: Seq<char>,
) -> Result<Seq<char>, Seq<char>> {
    match transcription {
        None => Ok(Seq::empty()),
        Some(Ok(t)) => Ok(text_utils::converted(t, language)),
        Some(Err(e)) => Err("Transcription failed: "@ + e),
    }
}

/// What a result holds.
pub open spec fn result_view(r: Result<String, String>) -> Result<Seq<char>, Seq<char>> {
    match r {
        Ok(t) => Ok(t@),
        Err(e) => Err(e@),
    }
}

impl HandyState {
    /// Nothing is recorded.
    pub fn new() -> (r: HandyState)
        ensures
            !r@,
    {
        HandyState { is_recording: false }
    }

    /// Takes note of whether a recording has started.
    pub fn start_recording(&mut self, started: bool) -> (r: Result<(), String>)
        ensures
            final(self)@ == (old(self)@ || started),
            match r {
                Ok(_) => started,
                Err(e) => !started && e@ == "Failed to start recording"@,
            },
    {
        if started {
            self.is_recording = true;
            Ok(())
        } else {
            Err("Failed to start recording".to_owned())
        }
    }

    /// The answer to a request to stop. A text is also announced, with the same contents.
    pub fn stop_recording(
        &mut self,
        transcription: Option<Result<String, String>>,
        language: &str,
    ) -> (r: Result<String, String>)
        ensures
            !final(self)@,
            result_view(r) == stop_answer(
                match transcription {
                    Some(t) => Some(result_view(t)),
                    None => None,
                },
                language@,
            ),
    {
        self.is_recording = false;
        match transcription {
            None => {
                let r = String::new();
                assert(r@ =~= Seq::<char>::empty());
                Ok(r)
            },
            Some(Ok(t)) => Ok(convert_chinese_variant(t.as_str(), language)),
            Some(Err(e)) => Err(concat2("Transcription failed: ", e.as_str())),
        }
    }

    /// Takes note that the recording was cancelled.
    pub fn cancel_recording(&mut self)
        ensures
            !final(self)@,
    {
        self.is_recording = false;
    }

    /// Whether something is recorded, and whether a model is loaded.
    pub fn get_state(&self, model_loaded: bool) -> (r: (bool, bool))
        ensures
            r == (self@, model_loaded),
    {
        (self.is_recording, model_loaded)
    }
}

/// Whether the speakers are muted a little after a recording has started: not where the microphone
/// is always on.
pub fn mutes_after_start(always_on: bool, started: bool) -> (r: bool)
    ensures
        r == (started && !always_on),
{
    started && !always_on
}

/// The loaded model has been idle for longer than the settings allow. One that is to be unloaded
/// at once is not looked after here.
pub open spec fn idle_over(timeout: ModelUnloadTimeout, last_ms: u64, now_ms: u64) -> bool {
    &&& timeout != ModelUnloadTimeout::Immediately
    &&& match settings::unload_seconds(timeout) {
        Some(limit) => now_ms - last_ms > limit * 1000,
        None => false,
    }
}

/// Whether the loaded model is unloaded for being idle.
pub fn unload_due(timeout: ModelUnloadTimeout, last_ms: u64, now_ms: u64, loaded: bool) -> (r: bool)
    ensures
        r == (loaded && idle_over(timeout, last_ms, now_ms)),
{
    match timeout {
        ModelUnloadTimeout::Immediately => false,
        _ => match timeout.to_seconds() {
            Some(limit) => loaded && now_ms.saturating_sub(last_ms) > limit * 1000,
            None => false,
        },
    }
}

/// Whether a model can be loaded: it must be known, downloaded and on disk.
pub fn check_model(model_id: &str, downloaded: Option<bool>, on_disk: bool) -> (r: Result<
    (),
    String,
>)
    ensures
        match r {
            Ok(_) => downloaded == Some(true) && on_disk,
            Err(e) => match downloaded {
                None => e@ == "Model not found: "@ + model_id@,
                Some(false) => e@ == "Model not downloaded"@,
                Some(true) => !on_disk && e@ == "Model path not found"@,
            },
        },
{
    match downloaded {
        None => Err(concat2("Model not found: ", model_id)),
        Some(false) => Err("Model not downloaded".to_owned()),
        Some(true) => if on_disk {
            Ok(())
        } else {
            Err("Model path not found".to_owned())
        },
    }
}

/// Whether the load of a model begins: not while one is being loaded or is loaded.
pub fn load_begins(is_loading: bool, is_loaded: bool) -> (r: bool)
    ensures
        r == !(is_loading || is_loaded),
{
    !is_loading && !is_loaded
}

/// Stopping answers with the recording's text in the language's variant, with nothing where nothing
/// was recorded, and with the reason where the transcription failed.
pub proof fn law_stop_answers_with_the_text(t: Seq<char>, e: Seq<char>, language: Seq<char>)
    ensures
        language != "zh-Hans"@ && language != "zh-Hant"@ ==> stop_answer(Some(Ok(t)), language)
            == Ok::<Seq<char>, Seq<char>>(t),
        stop_answer(None, language) == Ok::<Seq<char>, Seq<char>>(Seq::empty()),
        stop_answer(Some(Err(e)), language) == Err::<Seq<char>, Seq<char>>(
            "Transcription failed: "@ + e,
        ),
{
}

/// A model that is to be kept for some time is unloaded once it has been idle for longer than that:
/// five seconds, two, five, ten or fifteen minutes, or an hour. One that is never to be unloaded, or
/// at once after its use, is not unloaded for being idle.
pub proof fn law_idle_models_are_unloaded(last_ms: u64, now_ms: u64)
    ensures
        idle_over(ModelUnloadTimeout::Sec5, last_ms, now_ms) <==> now_ms - last_ms > 5_000,
        idle_over(ModelUnloadTimeout::Min2, last_ms, now_ms) <==> now_ms - last_ms > 120_000,
        idle_over(ModelUnloadTimeout::Min5, last_ms, now_ms) <==> now_ms - last_ms > 300_000,
        idle_over(ModelUnloadTimeout::Min10, last_ms, now_ms) <==> now_ms - last_ms > 600_000,
        idle_over(ModelUnloadTimeout::Min15, last_ms, now_ms) <==> now_ms - last_ms > 900_000,
        idle_over(ModelUnloadTimeout::Hour1, last_ms, now_ms) <==> now_ms - last_ms > 3_600_000,
        !idle_over(ModelUnloadTimeout::Never, last_ms, now_ms),
        !idle_over(ModelUnloadTimeout::Immediately, last_ms, now_ms),
{
}

} // verus!
