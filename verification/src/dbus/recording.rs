//! How a session starts, stops and ends.
//!
//! Each step changes the state and says what the caller has to do next: emit a signal, start the
//! recorder, play a sound, transcribe.

use super::live_preedit;
use super::sessions;
use super::sessions::{binding_id_for_session, DiktState, StateView};
use crate::managers::audio;
use crate::managers::audio::RecordingStartError;
use crate::text;
use crate::text::{is_blank, same_text, trim};
use vstd::prelude::*;
use vstd::string::*;

verus! {

/// The state after a session for an engine has begun to start.
pub open spec fn begun(s: StateView, target_engine_id: u64, now_ms: u64) -> StateView {
    let c = sessions::cleaned(s, now_ms);
    if target_engine_id == 0 {
        c
    } else {
        sessions::with_status(
            sessions::with_session(c, target_engine_id, now_ms),
            c.next_session,
            "starting"@,
            "Starting recording"@,
            now_ms,
        )
    }
}

/// The state after the check that precedes a recording.
pub open spec fn start_checked(
    s: StateView,
    session_id: u64,
    has_model: bool,
    now_ms: u64,
) -> StateView {
    let c = sessions::cleaned(s, now_ms);
    let d = StateView { stopping: c.stopping.remove(session_id), ..c };
    if has_model {
        d
    } else {
        sessions::with_status(d, session_id, "failed"@, "No model selected"@, now_ms)
    }
}

/// The state once the recorder has started for the session.
pub open spec fn start_accepted_view(s: StateView, session_id: u64, previews: bool) -> StateView {
    let r = StateView { recording_session: Some(session_id), ..s };
    if previews {
        sessions::with_preview_cleared(r, session_id)
    } else {
        r
    }
}

/// What is said of a recording that did not start.
pub open spec fn start_failure_text(err: RecordingStartError) -> Seq<char> {
    "Failed to start recording ("@ + audio::error_code(err) + "): "@ + audio::error_detail(err)
}

/// What the caller has to do about a request to stop.
pub enum StopDecision {
    /// Nothing: this is the answer.
    Done(bool),
    /// Tell that the recorder no longer runs, where it ran for the session; play the stop sound, unmute, and stop
    /// the recorder for this binding.
    Proceed { was_recording: bool, binding_id: String },
}

/// The session stops or has stopped: a request to stop it is granted.
pub open spec fn already_stopped(state: Seq<char>) -> bool {
    state == "finalizing"@ || state == "ready"@ || state == "committed"@
}

/// The session came to nothing: a request to stop it is refused.
pub open spec fn came_to_nothing(state: Seq<char>) -> bool {
    state == "failed"@ || state == "cancelled"@
}

/// A request to stop the session is answered at once.
pub open spec fn stop_answered(c: StateView, session_id: u64) -> bool {
    ||| !c.statuses.contains_key(session_id)
    ||| already_stopped(c.statuses[session_id].state)
    ||| came_to_nothing(c.statuses[session_id].state)
    ||| !c.bindings.contains_key(session_id)
}

/// The state after a request to stop the session.
pub open spec fn stop_requested(s: StateView, session_id: u64, now_ms: u64) -> StateView {
    let c = sessions::cleaned(s, now_ms);
    if !stop_answered(c, session_id) {
        let m = StateView { stopping: c.stopping.insert(session_id), ..c };
        let f = sessions::with_status(m, session_id, "finalizing"@, "Stopping recorder"@, now_ms);
        sessions::with_preview_cleared(sessions::without_recording(f, session_id), session_id)
    } else if c.statuses.contains_key(session_id) && !already_stopped(c.statuses[session_id].state)
        && !came_to_nothing(c.statuses[session_id].state) {
        sessions::with_status(
            c,
            session_id,
            "failed"@,
            "Cannot stop recording: no target binding"@,
            now_ms,
        )
    } else {
        c
    }
}

/// How a session that has stopped ends.
pub enum FinalOutcome {
    /// Nothing was recorded.
    NoSamples,
    /// The text to deliver.
    Text(String),
    /// The transcription failed, with this error.
    Failed(String),
    /// The transcription panicked.
    Panicked,
    /// The runtime for the transcription could not be made.
    NoRuntime,
}

/// The signal that goes out when a session ends.
pub enum FinalSignal {
    TranscriptionReady(String),
    Error(String),
    Nothing,
}

/// The state and the message of a session that ended this way.
pub open spec fn final_status(outcome: FinalOutcome) -> (Seq<char>, Seq<char>) {
    match outcome {
        FinalOutcome::NoSamples => ("ready"@, "No speech detected"@),
        FinalOutcome::Text(_) => ("ready"@, "Transcription ready"@),
        FinalOutcome::Failed(e) => ("failed"@, "Transcription failed: "@ + e@),
        FinalOutcome::Panicked => ("failed"@, "Internal transcription panic"@),
        FinalOutcome::NoRuntime => ("failed"@, "Internal runtime initialization failed"@),
    }
}

/// The state once a session has ended.
pub open spec fn finalized(
    s: StateView,
    session_id: u64,
    outcome: FinalOutcome,
    now_ms: u64,
) -> StateView {
    let p = match outcome {
        FinalOutcome::Text(t) => if text::blank(t@) {
            s
        } else {
            sessions::with_pending(s, session_id, t@, now_ms)
        },
        _ => s,
    };
    let st = final_status(outcome);
    let w = sessions::with_status(p, session_id, st.0, st.1, now_ms);
    StateView { stopping: w.stopping.remove(session_id), ..w }
}

/// The text that is delivered: what post-processing made of it, or else the text itself.
pub open spec fn delivered(converted: Seq<char>, processed: Option<Seq<char>>) -> Seq<char> {
    match processed {
        Some(p) => if text::blank(p) {
            converted
        } else {
            text::trimmed(p)
        },
        None => converted,
    }
}

/// The text that is delivered, given what post-processing answered.
pub fn choose_output_text(converted: String, processed: Option<String>) -> (r: String)
    ensures
        r@ == delivered(converted@, text::opt_view(processed)),
{
    match processed {
        Some(p) => {
            let t = trim(p.as_str());
            if t.as_str().is_empty() {
                converted
            } else {
                t
            }
        },
        None => converted,
    }
}

/// The message for a recording that did not start.
pub fn start_failure_message(err: &RecordingStartError) -> (r: String)
    ensures
        r@ == start_failure_text(*err),
{
    let mut r = "Failed to start recording (".to_owned();
    r.append(err.code());
    r.append("): ");
    r.append(err.detail().as_str());
    r
}

impl DiktState {
    /// Begins a session for an engine at the given time: its id and claim token.
    pub fn begin_session_at(&mut self, target_engine_id: u64, now_ms: u64) -> (r: Result<
        (u64, String),
        String,
    >)
        requires
            old(self).wf(),
        ensures
            final(self).wf(),
            final(self)@ == begun(old(self)@, target_engine_id, now_ms),
            match r {
                Ok(p) => target_engine_id != 0 && p.0 == old(self)@.next_session && p.1@
                    == sessions::token_of(now_ms, p.0, old(self)@.next_claim)
                    && sessions::session_given_out(final(self)@, p.0),
                Err(e) => target_engine_id == 0 && e@
                    == "Invalid target engine id 0 for session routing"@,
            },
    {
        self.cleanup_expired_sessions_at(now_ms);
        if target_engine_id == 0 {
            return Err("Invalid target engine id 0 for session routing".to_owned());
        }
        let (session_id, claim_token) = self.create_session_at(target_engine_id, now_ms);
        self.set_session_status_at(session_id, "starting", "Starting recording", now_ms);
        Ok((session_id, claim_token))
    }

    /// The check before a recording starts. Without a model the session fails: what is signalled,
    /// and the error that is returned.
    pub fn check_start_at(&mut self, session_id: u64, has_model: bool, now_ms: u64) -> (r: Result<
        (),
        (String, String),
    >)
        requires
            old(self).wf(),
            sessions::session_given_out(old(self)@, session_id),
        ensures
            final(self).wf(),
            final(self)@ == start_checked(old(self)@, session_id, has_model, now_ms),
            match r {
                Ok(()) => has_model,
                Err(e) => !has_model && e.0@
                    == "No model selected. Open Dikt preferences to download and select a model."@
                    && e.1@ == "No model selected"@,
            },
    {
        self.cleanup_expired_sessions_at(now_ms);
        self.clear_session_stopping(session_id);
        if !has_model {
            self.set_session_status_at(session_id, "failed", "No model selected", now_ms);
            return Err(
                (
                    "No model selected. Open Dikt preferences to download and select a model.".to_owned(),
                    "No model selected".to_owned(),
                ),
            );
        }
        Ok(())
    }

    /// The recorder has started for the session: the engine for which live previews are to be made, if any.
    pub fn start_accepted(&mut self, session_id: u64, previews: bool) -> (r: Option<u64>)
        requires
            old(self).wf(),
        ensures
            final(self).wf(),
            final(self)@ == start_accepted_view(old(self)@, session_id, previews),
            r == (if previews && old(self)@.bindings.contains_key(session_id)
                && old(self)@.bindings[session_id] != 0 {
                Some(old(self)@.bindings[session_id])
            } else {
                None
            }),
    {
        self.begin_recording_of(session_id);
        if !previews {
            return None;
        }
        let revision: u64 = self.next_live_preedit_revision();
        self.clear_live_preedit(session_id, revision);
        match self.session_binding(session_id) {
            Some(engine_id) => if engine_id != 0 {
                Some(engine_id)
            } else {
                None
            },
            None => None,
        }
    }

    /// The recorder has not started: the message to signal and return.
    pub fn start_refused_at(
        &mut self,
        session_id: u64,
        err: &RecordingStartError,
        now_ms: u64,
    ) -> (r: String)
        requires
            old(self).wf(),
            sessions::session_given_out(old(self)@, session_id),
        ensures
            final(self).wf(),
            r@ == start_failure_text(*err),
            final(self)@ == sessions::with_status(
                old(self)@,
                session_id,
                "failed"@,
                start_failure_text(*err),
                now_ms,
            ),
    {
        let message = start_failure_message(err);
        self.set_session_status_at(session_id, "failed", message.as_str(), now_ms);
        message
    }

    /// The start of a session is over: it records, or it is forgotten.
    pub fn end_start_at(&mut self, session_id: u64, started: bool, now_ms: u64)
        requires
            old(self).wf(),
            sessions::session_given_out(old(self)@, session_id),
        ensures
            final(self).wf(),
            final(self)@ == (if started {
                sessions::with_status(
                    old(self)@,
                    session_id,
                    "recording"@,
                    "Recording in progress"@,
                    now_ms,
                )
            } else {
                sessions::without_session(old(self)@, session_id)
            }),
    {
        if started {
            self.set_session_status_at(session_id, "recording", "Recording in progress", now_ms);
        } else {
            self.remove_session(session_id);
        }
    }

    /// A request to stop the session. A recording of another session goes on.
    pub fn stop_session_at(&mut self, session_id: u64, now_ms: u64) -> (r: StopDecision)
        requires
            old(self).wf(),
        ensures
            final(self).wf(),
            final(self)@ == stop_requested(old(self)@, session_id, now_ms),
            ({
                let c = sessions::cleaned(old(self)@, now_ms);
                match r {
                    StopDecision::Done(granted) => stop_answered(c, session_id) && granted == (
                    c.statuses.contains_key(session_id) && already_stopped(
                        c.statuses[session_id].state,
                    )),
                    StopDecision::Proceed { was_recording, binding_id } => !stop_answered(
                        c,
                        session_id,
                    ) && was_recording == (old(self)@.recording_session == Some(session_id))
                        && sessions::is_recording(final(self)@) == (sessions::is_recording(
                        old(self)@,
                    ) && !was_recording) && binding_id@ == sessions::binding_name(session_id) && (
                    !old(self)@.revisions_ran_out ==> sessions::preview_hidden(
                        final(self)@,
                        session_id,
                    )),
                }
            }),
    {
        self.cleanup_expired_sessions_at(now_ms);
        let status = match self.session_status(session_id) {
            Some(status) => status,
            None => {
                return StopDecision::Done(false);
            },
        };
        let state = status.state.as_str();
        if same_text(state, "finalizing") || same_text(state, "ready") || same_text(
            state,
            "committed",
        ) {
            return StopDecision::Done(true);
        }
        if same_text(state, "failed") || same_text(state, "cancelled") {
            return StopDecision::Done(false);
        }
        if self.session_binding(session_id).is_none() {
            self.set_session_status_at(
                session_id,
                "failed",
                "Cannot stop recording: no target binding",
                now_ms,
            );
            return StopDecision::Done(false);
        }
        let binding_id = binding_id_for_session(session_id);
        self.mark_session_stopping(session_id);
        self.set_session_status_at(session_id, "finalizing", "Stopping recorder", now_ms);
        let was_recording: bool = self.end_recording_of(session_id);
        let revision: u64 = self.next_live_preedit_revision();
        self.clear_live_preedit(session_id, revision);
        StopDecision::Proceed { was_recording, binding_id }
    }

    /// The recorder did not record for the session that was to stop.
    pub fn stop_found_inactive_at(&mut self, session_id: u64, now_ms: u64)
        requires
            old(self).wf(),
            sessions::session_given_out(old(self)@, session_id),
        ensures
            final(self).wf(),
            final(self)@ == sessions::with_status(
                StateView { stopping: old(self)@.stopping.remove(session_id), ..old(self)@ },
                session_id,
                "failed"@,
                "Stop requested for inactive recording session"@,
                now_ms,
            ),
    {
        self.clear_session_stopping(session_id);
        self.set_session_status_at(
            session_id,
            "failed",
            "Stop requested for inactive recording session",
            now_ms,
        );
    }

    /// The session that was stopped has ended: what goes out as a signal.
    pub fn finalize_at(&mut self, session_id: u64, outcome: FinalOutcome, now_ms: u64) -> (r:
        FinalSignal)
        requires
            old(self).wf(),
            sessions::session_given_out(old(self)@, session_id),
        ensures
            final(self).wf(),
            final(self)@ == finalized(old(self)@, session_id, outcome, now_ms),
            match outcome {
                FinalOutcome::NoSamples => r matches FinalSignal::TranscriptionReady(t) && t@.len()
                    == 0,
                FinalOutcome::Text(out) => r matches FinalSignal::TranscriptionReady(t) && t@
                    == out@,
                FinalOutcome::Failed(e) => r matches FinalSignal::Error(m) && m@
                    == "Transcription failed: "@ + e@,
                FinalOutcome::Panicked => r is Nothing,
                FinalOutcome::NoRuntime => r is Nothing,
            },
    {
        match outcome {
            FinalOutcome::NoSamples => {
                self.set_session_status_at(session_id, "ready", "No speech detected", now_ms);
                self.clear_session_stopping(session_id);
                FinalSignal::TranscriptionReady(String::new())
            },
            FinalOutcome::Text(t) => {
                if !is_blank(t.as_str()) {
                    self.store_pending_commit_at(session_id, t.clone(), now_ms);
                }
                self.set_session_status_at(session_id, "ready", "Transcription ready", now_ms);
                self.clear_session_stopping(session_id);
                FinalSignal::TranscriptionReady(t)
            },
            FinalOutcome::Failed(e) => {
                let mut message = "Transcription failed: ".to_owned();
                message.append(e.as_str());
                self.set_session_status_at(session_id, "failed", message.as_str(), now_ms);
                self.clear_session_stopping(session_id);
                FinalSignal::Error(message)
            },
            FinalOutcome::Panicked => {
                self.set_session_status_at(
                    session_id,
                    "failed",
                    "Internal transcription panic",
                    now_ms,
                );
                self.clear_session_stopping(session_id);
                FinalSignal::Nothing
            },
            FinalOutcome::NoRuntime => {
                self.set_session_status_at(
                    session_id,
                    "failed",
                    "Internal runtime initialization failed",
                    now_ms,
                );
                self.clear_session_stopping(session_id);
                FinalSignal::Nothing
            },
        }
    }
}

/// However a session ends, it is no longer stopping and its status is final; and the other
/// sessions keep their status.
pub proof fn law_ended_session_is_terminal(
    s: StateView,
    session_id: u64,
    outcome: FinalOutcome,
    now_ms: u64,
    other: u64,
)
    requires
        sessions::consistent(s),
        session_id != 0,
        other != session_id,
    ensures
        ({
            let f = finalized(s, session_id, outcome, now_ms);
            &&& f.statuses.contains_key(session_id)
            &&& sessions::is_terminal(f.statuses[session_id].state)
            &&& !f.stopping.contains(session_id)
            &&& f.statuses.contains_key(other) == s.statuses.contains_key(other)
            &&& s.statuses.contains_key(other) ==> f.statuses[other] == s.statuses[other]
            &&& f.stopping.contains(other) == s.stopping.contains(other)
        }),
{
}

/// A session that was asked to stop can be asked again: the second request is granted and changes
/// nothing.
pub proof fn law_second_stop_is_granted(s: StateView, session_id: u64, now_ms: u64)
    requires
        sessions::consistent(s),
        !stop_answered(sessions::cleaned(s, now_ms), session_id),
    ensures
        ({
            let t = stop_requested(s, session_id, now_ms);
            &&& stop_answered(sessions::cleaned(t, now_ms), session_id)
            &&& already_stopped(sessions::cleaned(t, now_ms).statuses[session_id].state)
            &&& stop_requested(t, session_id, now_ms) == t
        }),
{
    let c = sessions::cleaned(s, now_ms);
    sessions::law_cleanup_removes_exactly_the_expired(s, now_ms, session_id);
    let t = stop_requested(s, session_id, now_ms);
    assert(session_id != 0);
    reveal_strlit("finalizing");
    reveal_strlit("ready");
    reveal_strlit("failed");
    reveal_strlit("cancelled");
    reveal_strlit("committed");
    assert("finalizing"@.len() == 10 && "ready"@.len() == 5 && "failed"@.len() == 6
        && "cancelled"@.len() == 9 && "committed"@.len() == 9);
    assert(!sessions::is_terminal("finalizing"@));
    assert(t.statuses[session_id].state == "finalizing"@);
    assert forall|id: u64| !sessions::is_expired(t, id, now_ms) by {
        if id != session_id {
            sessions::law_cleanup_removes_exactly_the_expired(s, now_ms, id);
            assert(!sessions::is_expired(c, id, now_ms));
        }
    }
    let tc = sessions::cleaned(t, now_ms);
    assert(tc.bindings =~= t.bindings);
    assert(tc.claims =~= t.claims);
    assert(tc.statuses =~= t.statuses);
    assert(tc.stopping =~= t.stopping);
}

/// To stop a session is no matter of any other: one that is not forgotten for having ended long ago
/// keeps its status, token, engine and mark, and every other session keeps its preview and its
/// recording.
pub proof fn law_stop_leaves_other_sessions(
    s: StateView,
    session_id: u64,
    now_ms: u64,
    other: u64,
)
    requires
        sessions::consistent(s),
        other != session_id,
    ensures
        ({
            let after = stop_requested(s, session_id, now_ms);
            &&& sessions::session_kept(sessions::cleaned(s, now_ms), after, other)
            &&& !sessions::is_expired(s, other, now_ms) ==> sessions::session_kept(s, after, other)
            &&& live_preedit::read(after.previews, other) == live_preedit::read(s.previews, other)
            &&& s.recording_session == Some(other) ==> after.recording_session == Some(other)
        }),
{
}

/// A session that stops is no longer recorded, and as long as revisions have not run out nobody sees
/// a preview of it.
pub proof fn law_stopped_session_shows_nothing(
    s: StateView,
    session_id: u64,
    now_ms: u64,
    token: Seq<char>,
)
    requires
        sessions::consistent(s),
        !stop_answered(sessions::cleaned(s, now_ms), session_id),
    ensures
        ({
            let after = stop_requested(s, session_id, now_ms);
            &&& after.recording_session != Some(session_id)
            &&& !s.revisions_ran_out ==> sessions::preview_hidden(after, session_id)
            &&& !s.revisions_ran_out ==> !sessions::preview_read(after, session_id, token).visible
                && sessions::preview_read(after, session_id, token).text.len() == 0
        }),
{
}

/// A session that starts for an engine is the engine's: it is bound to it, holds the token that
/// was handed out, and no other session changes hands.
pub proof fn law_begun_session_is_bound(
    s: StateView,
    target_engine_id: u64,
    now_ms: u64,
    other: u64,
)
    requires
        sessions::consistent(s),
        target_engine_id != 0,
        other != s.next_session,
    ensures
        ({
            let b = begun(s, target_engine_id, now_ms);
            let id = s.next_session;
            let c = sessions::cleaned(s, now_ms);
            &&& b.bindings.contains_key(id) && b.bindings[id] == target_engine_id
            &&& sessions::claim_holds(b, id, sessions::token_of(now_ms, id, s.next_claim))
            &&& b.bindings.contains_key(other) == c.bindings.contains_key(other)
            &&& c.bindings.contains_key(other) ==> b.bindings[other] == c.bindings[other]
                && b.claims[other] == c.claims[other]
        }),
{
}

/// A session that begins for an engine counts as starting, with its engine and its token; without an
/// engine none begins.
pub proof fn law_begun_session_is_starting(s: StateView, engine_id: u64, now_ms: u64)
    requires
        s.next_session != 0,
    ensures
        ({
            let b = begun(s, engine_id, now_ms);
            let id = s.next_session;
            &&& engine_id != 0 ==> b.bindings.contains_key(id) && b.bindings[id] == engine_id
                && b.claims.contains_key(id) && sessions::status_report(b, id) == (
            sessions::StatusView {
                state: "starting"@,
                message: "Starting recording"@,
                updated_ms: now_ms,
            }) && b.recording_session == s.recording_session
            &&& engine_id == 0 ==> b == sessions::cleaned(s, now_ms)
        }),
{
}

/// Before a recording starts the session is no longer stopping; without a model it has failed, and
/// with one its status is as it was.
pub proof fn law_start_needs_a_model(s: StateView, id: u64, has_model: bool, now_ms: u64)
    requires
        id != 0,
    ensures
        ({
            let c = sessions::cleaned(s, now_ms);
            let after = start_checked(s, id, has_model, now_ms);
            &&& !after.stopping.contains(id)
            &&& has_model ==> after.statuses == c.statuses
            &&& !has_model ==> sessions::status_report(after, id) == (sessions::StatusView {
                state: "failed"@,
                message: "No model selected"@,
                updated_ms: now_ms,
            })
            &&& after.recording_session == s.recording_session && after.claims == c.claims
        }),
{
}

/// Once the recorder has started, it records for that session; where previews are on, the session
/// begins without one.
pub proof fn law_recorder_runs_for_the_session(s: StateView, id: u64, previews: bool)
    requires
        sessions::consistent(s),
        id != 0,
    ensures
        ({
            let after = start_accepted_view(s, id, previews);
            &&& after.recording_session == Some(id)
            &&& previews && !s.revisions_ran_out ==> sessions::preview_hidden(after, id)
            &&& !previews ==> after.previews == s.previews
            &&& after.statuses == s.statuses && after.claims == s.claims && after.bindings
                == s.bindings
        }),
{
}

/// A session that has not ended and has an engine can be stopped, whatever it was doing: it counts as
/// finalizing and as stopping, and is no longer recorded.
pub proof fn law_running_session_can_be_stopped(s: StateView, id: u64, now_ms: u64)
    requires
        sessions::consistent(s),
        s.statuses.contains_key(id),
        s.bindings.contains_key(id),
        s.statuses[id].state == "recording"@ || s.statuses[id].state == "starting"@
            || s.statuses[id].state == "created"@,
    ensures
        !stop_answered(sessions::cleaned(s, now_ms), id),
        ({
            let after = stop_requested(s, id, now_ms);
            &&& sessions::status_report(after, id) == (sessions::StatusView {
                state: "finalizing"@,
                message: "Stopping recorder"@,
                updated_ms: now_ms,
            })
            &&& after.stopping.contains(id)
            &&& after.recording_session != Some(id)
            &&& after.claims.contains_key(id) && after.claims[id] == s.claims[id]
            &&& after.pending == s.pending
        }),
{
    reveal_strlit("recording");
    reveal_strlit("starting");
    reveal_strlit("created");
    reveal_strlit("finalizing");
    reveal_strlit("ready");
    reveal_strlit("failed");
    reveal_strlit("cancelled");
    reveal_strlit("committed");
    assert("recording"@.len() == 9 && "starting"@.len() == 8 && "created"@.len() == 7
        && "finalizing"@.len() == 10 && "ready"@.len() == 5 && "failed"@.len() == 6
        && "cancelled"@.len() == 9 && "committed"@.len() == 9);
    assert("recording"@[0] == 'r' && "cancelled"@[0] == 'c' && "committed"@[0] == 'c');
    assert(!sessions::is_terminal(s.statuses[id].state));
    assert(s.claims.contains_key(id) == s.bindings.contains_key(id)) by {
        assert(s.claims.dom().contains(id) == s.bindings.dom().contains(id));
    }
}

/// A session that stops or has its text ready counts as stopped when it is asked to stop again; one
/// that failed, was cancelled or is not known does not. Neither request changes anything.
pub proof fn law_ended_session_is_not_stopped_again(s: StateView, id: u64, now_ms: u64)
    ensures
        ({
            let c = sessions::cleaned(s, now_ms);
            let state = c.statuses[id].state;
            let known = c.statuses.contains_key(id);
            let done = state == "finalizing"@ || state == "ready"@ || state == "committed"@;
            let nothing = state == "failed"@ || state == "cancelled"@;
            &&& !known || done || nothing ==> stop_answered(c, id) && stop_requested(s, id, now_ms)
                == c
            &&& known ==> (already_stopped(state) <==> done)
            &&& known && !done && !nothing && !c.bindings.contains_key(id) && id != 0
                ==> sessions::status_report(stop_requested(s, id, now_ms), id).state == "failed"@
                && sessions::status_report(stop_requested(s, id, now_ms), id).message
                == "Cannot stop recording: no target binding"@
        }),
{
    reveal_strlit("finalizing");
    reveal_strlit("ready");
    reveal_strlit("failed");
    reveal_strlit("cancelled");
    reveal_strlit("committed");
}

/// What was dictated waits for the session's engine once the session has ended, unless it is blank:
/// the text joins the waiting ones under the session's token, and the session is ready. Whatever
/// else the end was, no text is added.
pub proof fn law_dictated_text_waits_for_its_engine(
    s: StateView,
    id: u64,
    t: String,
    now_ms: u64,
)
    requires
        id != 0,
        s.claims.contains_key(id),
        s.pending.entries.len() < 32,
    ensures
        ({
            let after = finalized(s, id, FinalOutcome::Text(t), now_ms);
            let waiting = after.pending.entries;
            &&& text::trimmed(t@).len() > 0 ==> waiting.len() == s.pending.entries.len() + 1
                && waiting.last().session_id == id && waiting.last().claim_token == s.claims[id]
                && waiting.last().text == t@ && waiting.drop_last() == s.pending.entries
            &&& text::trimmed(t@).len() == 0 ==> after.pending == s.pending
            &&& sessions::status_report(after, id).state == "ready"@ && sessions::status_report(
                after,
                id,
            ).message == "Transcription ready"@
            &&& !after.stopping.contains(id)
        }),
        finalized(s, id, FinalOutcome::NoSamples, now_ms).pending == s.pending,
        finalized(s, id, FinalOutcome::Failed(t), now_ms).pending == s.pending,
        finalized(s, id, FinalOutcome::Panicked, now_ms).pending == s.pending,
        finalized(s, id, FinalOutcome::NoRuntime, now_ms).pending == s.pending,
{
    let after = finalized(s, id, FinalOutcome::Text(t), now_ms);
    if text::trimmed(t@).len() > 0 {
        assert(after.pending.entries.drop_last() =~= s.pending.entries);
    }
}

/// A session in which nothing was said is ready; one whose transcription failed, for whatever reason,
/// has failed and says why.
pub proof fn law_every_end_is_told(s: StateView, id: u64, error: String, now_ms: u64)
    requires
        id != 0,
    ensures
        ({
            let silent = sessions::status_report(
                finalized(s, id, FinalOutcome::NoSamples, now_ms),
                id,
            );
            let failed = sessions::status_report(
                finalized(s, id, FinalOutcome::Failed(error), now_ms),
                id,
            );
            let panicked = sessions::status_report(
                finalized(s, id, FinalOutcome::Panicked, now_ms),
                id,
            );
            let idle = sessions::status_report(
                finalized(s, id, FinalOutcome::NoRuntime, now_ms),
                id,
            );
            &&& silent.state == "ready"@ && silent.message == "No speech detected"@
            &&& failed.state == "failed"@ && failed.message == "Transcription failed: "@ + error@
            &&& panicked.state == "failed"@ && panicked.message == "Internal transcription panic"@
            &&& idle.state == "failed"@ && idle.message == "Internal runtime initialization failed"@
        }),
{
}

/// What post-processing made of a text is delivered, trimmed, where it made anything of it; the text
/// itself is delivered otherwise, untouched.
pub proof fn law_processed_text_is_delivered(text: Seq<char>, processed: Seq<char>)
    ensures
        delivered(text, None) == text,
        text::trimmed(processed).len() > 0 ==> delivered(text, Some(processed)) == text::trimmed(
            processed,
        ),
        text::trimmed(processed).len() == 0 ==> delivered(text, Some(processed)) == text,
{
}

/// The message of a recording that did not start names the kind of the error and its details.
pub proof fn law_failed_start_says_why(err: RecordingStartError)
    ensures
        start_failure_text(err) == "Failed to start recording ("@ + audio::error_code(err) + "): "@
            + audio::error_detail(err),
{
}

} // verus!
