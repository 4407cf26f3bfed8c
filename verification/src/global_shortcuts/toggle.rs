//! What a press of the dictation shortcut sets off: start a recording, stop it, or nothing.
//!
//! The steps change the shortcut's state, its health and its event log, and say what the caller
//! has to do: call the service on the bus, notify the user, or wait.

use super::health;
use super::health::{HealthView, ToggleEvents, ToggleRuntimeHealth};
use crate::counter;
use crate::counter::wrapping_next;
use crate::dbus::recording;
use crate::managers::audio;
use crate::managers::audio::RecordingStartError;
use crate::ibus_control;
use crate::ibus_control::is_dikt_engine;
use crate::text;
use crate::text::{chars_of, concat2, decimal, find_from, slice_text, trim};
use vstd::prelude::*;
use vstd::string::*;

verus! {

/// How long a start waits for the input source to settle, in milliseconds.
pub const START_RECORDING_ARM_DELAY_MS: u64 = 120;

/// How long a stop may take, in milliseconds.
pub const STOP_RECORDING_TIMEOUT_MS: u64 = 20_000;

/// How long a switch of the input source may take, in milliseconds.
pub const ENGINE_SWITCH_VERIFY_TIMEOUT_MS: u64 = 350;

/// How long the engine may take to get the focus, in milliseconds.
pub const FOCUSED_ENGINE_VERIFY_TIMEOUT_MS: u64 = 700;

/// How long to wait between two looks at the focus, in milliseconds.
pub const FOCUSED_ENGINE_VERIFY_POLL_MS: u64 = 20;

/// Where the shortcut stands.
pub enum ToggleState {
    Idle,
    /// A start is under way.
    Pending { toggle_session_id: u64 },
    /// The service records.
    Recording { toggle_session_id: u64, daemon_session_id: u64, claim_token: String },
    /// A stop is under way.
    Stopping { toggle_session_id: u64, daemon_session_id: u64 },
}

/// What a `ToggleState` holds.
pub enum ToggleView {
    Idle,
    Pending { id: u64 },
    Recording { id: u64, daemon: u64, claim: Seq<char> },
    Stopping { id: u64, daemon: u64 },
}

impl View for ToggleState {
    type V = ToggleView;

    open spec fn view(&self) -> ToggleView {
        match self {
            ToggleState::Idle => ToggleView::Idle,
            ToggleState::Pending { toggle_session_id } => ToggleView::Pending {
                id: *toggle_session_id,
            },
            ToggleState::Recording { toggle_session_id, daemon_session_id, claim_token } =>
                ToggleView::Recording {
                id: *toggle_session_id,
                daemon: *daemon_session_id,
                claim: claim_token@,
            },
            ToggleState::Stopping { toggle_session_id, daemon_session_id } => ToggleView::Stopping {
                id: *toggle_session_id,
                daemon: *daemon_session_id,
            },
        }
    }
}

/// How a stop came out.
pub enum StopRecordingOutcome {
    Acknowledged,
    /// The service has stopped recording and still works on the text.
    Finalizing { reason: String, timed_out: bool },
    Failed(String),
}

/// What is told to the user.
pub struct Notice {
    pub summary: String,
    pub body: String,
}

/// What a press asks for.
#[derive(Clone, Copy, Debug, PartialEq, Eq, Structural)]
pub enum PressAction {
    /// Begin to start a recording.
    Start,
    Ignored,
    /// Stop the service's session, and report how that came out.
    Stop { toggle_session_id: u64, daemon_session_id: u64 },
}

/// What the shortcut knows besides its state.
pub struct RuntimeView {
    pub health: HealthView,
    pub events: Seq<Seq<char>>,
    pub next_session: u64,
}

/// The shortcut's health, its events and its counter.
pub struct ToggleRuntime {
    pub health: ToggleRuntimeHealth,
    pub events: ToggleEvents,
    pub session_counter: u64,
}

impl View for ToggleRuntime {
    type V = RuntimeView;

    open spec fn view(&self) -> RuntimeView {
        RuntimeView {
            health: self.health@,
            events: self.events@,
            next_session: self.session_counter,
        }
    }
}

/// An event of the shortcut's session.
pub open spec fn tagged(id: u64, rest: Seq<char>) -> Seq<char> {
    "toggle:"@ + text::dec(id as nat) + rest
}

/// One more event.
pub open spec fn logged(rt: RuntimeView, event: Seq<char>, now_ms: u64) -> RuntimeView {
    RuntimeView {
        events: health::remembered(rt.events, health::event_line(now_ms, event)),
        ..rt
    }
}

/// One more event of a session.
pub open spec fn noted(rt: RuntimeView, id: u64, rest: Seq<char>, now_ms: u64) -> RuntimeView {
    logged(rt, tagged(id, rest), now_ms)
}

/// Another health.
pub open spec fn with_health(rt: RuntimeView, h: HealthView) -> RuntimeView {
    RuntimeView { health: h, ..rt }
}

/// The shortcut's state by name.
pub open spec fn in_state(rt: RuntimeView, state: Seq<char>) -> RuntimeView {
    with_health(rt, HealthView { current_state: state, ..rt.health })
}

/// The health once a failure was notified, if a notification was due.
pub open spec fn notified(rt: RuntimeView, now_ms: u64) -> RuntimeView {
    if health::notification_due(rt.health, now_ms) {
        with_health(rt, HealthView { last_notification_ms: now_ms, ..rt.health })
    } else {
        rt
    }
}

/// The notice is given exactly if one was due, and says this.
pub open spec fn notice_is(
    n: Option<Notice>,
    rt: RuntimeView,
    now_ms: u64,
    summary: Seq<char>,
    body: Seq<char>,
) -> bool {
    match n {
        Some(m) => health::notification_due(rt.health, now_ms) && m.summary@ == summary && m.body@
            == body,
        None => !health::notification_due(rt.health, now_ms),
    }
}

/// An error in the health.
pub open spec fn erred(rt: RuntimeView, code: Seq<char>, message: Seq<char>) -> RuntimeView {
    with_health(rt, health::erred(rt.health, code, message))
}

/// A failure to start in the health.
pub open spec fn start_failed(
    rt: RuntimeView,
    code: Seq<char>,
    message: Seq<char>,
    now_ms: u64,
) -> RuntimeView {
    with_health(
        rt,
        HealthView {
            last_start_failure_code: code,
            last_start_failure_message: message,
            last_start_failure_ms: now_ms,
            ..rt.health
        },
    )
}

/// A confirmed switch in the health.
pub open spec fn switch_confirmed(rt: RuntimeView, latency_ms: u64) -> RuntimeView {
    with_health(
        rt,
        HealthView {
            last_switch_confirm_latency_ms: latency_ms,
            last_switch_failure_message: Seq::empty(),
            ..rt.health
        },
    )
}

/// No final text is waited for.
pub open spec fn nothing_pending(rt: RuntimeView) -> RuntimeView {
    with_health(
        rt,
        HealthView { pending_commit_session_id: 0, pending_commit_mark_ms: 0, ..rt.health },
    )
}

/// The final text of a session is waited for.
pub open spec fn text_pending(rt: RuntimeView, session_id: u64, now_ms: u64) -> RuntimeView {
    with_health(
        rt,
        HealthView {
            pending_commit_session_id: session_id,
            pending_commit_mark_ms: now_ms,
            ..rt.health
        },
    )
}

/// No failure to stop is known.
pub open spec fn stop_failure_cleared(rt: RuntimeView) -> RuntimeView {
    with_health(
        rt,
        HealthView { last_stop_failure_message: Seq::empty(), last_stop_failure_ms: 0, ..rt.health },
    )
}

/// No failure to start is known.
pub open spec fn start_failure_cleared(rt: RuntimeView) -> RuntimeView {
    with_health(
        rt,
        HealthView {
            last_start_failure_code: Seq::empty(),
            last_start_failure_message: Seq::empty(),
            last_start_failure_ms: 0,
            ..rt.health
        },
    )
}

/// What a press does.
pub open spec fn pressed(s: ToggleView, rt: RuntimeView, now_ms: u64) -> (
    ToggleView,
    RuntimeView,
    PressAction,
) {
    match s {
        ToggleView::Idle => (s, rt, PressAction::Start),
        ToggleView::Pending { id } => (
            s,
            noted(rt, id, " toggle ignored while start transition is pending"@, now_ms),
            PressAction::Ignored,
        ),
        ToggleView::Recording { id, daemon, claim } => (
            ToggleView::Stopping { id, daemon },
            in_state(
                noted(
                    rt,
                    id,
                    " toggle stop requested; stopping daemon session "@ + text::dec(daemon as nat),
                    now_ms,
                ),
                "stopping"@,
            ),
            PressAction::Stop { toggle_session_id: id, daemon_session_id: daemon },
        ),
        ToggleView::Stopping { id, daemon } => (
            s,
            noted(rt, id, " toggle ignored while stop transition is pending"@, now_ms),
            PressAction::Ignored,
        ),
    }
}

/// The beginning of a start: the event log and health once the current engine is known.
pub open spec fn start_begun(
    rt: RuntimeView,
    current: Result<Seq<char>, Seq<char>>,
    now_ms: u64,
) -> RuntimeView {
    let id = rt.next_session;
    let read = match current {
        Ok(_) => rt,
        Err(e) => logged(rt, "toggle:read-current-engine failed (non-fatal): "@ + e, now_ms),
    };
    let counted = RuntimeView { next_session: counter::wrapped_next(id), ..read };
    let pressed = noted(counted, id, " pressed"@, now_ms);
    match current {
        Ok(name) => if ibus_control::names_dikt(name) {
            let on_dikt = noted(
                switch_confirmed(pressed, 0),
                id,
                " already on dikt source"@,
                now_ms,
            );
            let bumped = with_health(
                on_dikt,
                HealthView {
                    press_while_dikt_count: counter::saturated_next(
                        on_dikt.health.press_while_dikt_count,
                    ),
                    ..on_dikt.health
                },
            );
            noted(bumped, id, " pressed while dikt already active"@, now_ms)
        } else {
            switch_asked(pressed, id, name, now_ms)
        },
        Err(_) => switch_asked(pressed, id, "<unknown>"@, now_ms),
    }
}

/// A switch of the input source is asked for.
pub open spec fn switch_asked(
    rt: RuntimeView,
    id: u64,
    from: Seq<char>,
    now_ms: u64,
) -> RuntimeView {
    noted(
        with_health(rt, HealthView { last_switch_attempt_ms: now_ms, ..rt.health }),
        id,
        " switch requested from "@ + from,
        now_ms,
    )
}

/// The input source was not switched.
pub open spec fn switch_refused(
    rt: RuntimeView,
    id: u64,
    e: Seq<char>,
    now_ms: u64,
) -> RuntimeView {
    let failed = erred(
        with_health(rt, HealthView { last_switch_failure_message: e, ..rt.health }),
        "ibus_switch_to_dikt_failed"@,
        e,
    );
    noted(notified(failed, now_ms), id, " failed to switch to dikt engine: "@ + e, now_ms)
}

/// The input source was switched.
pub open spec fn switch_done_view(
    rt: RuntimeView,
    id: u64,
    engine: Seq<char>,
    latency_ms: u64,
    now_ms: u64,
) -> RuntimeView {
    noted(
        switch_confirmed(rt, latency_ms),
        id,
        " switch confirmed to "@ + engine + " ("@ + text::dec(latency_ms as nat) + " ms)"@,
        now_ms,
    )
}

/// The engine has not got the focus.
pub open spec fn focus_missing(rt: RuntimeView, id: u64, e: Seq<char>, now_ms: u64) -> RuntimeView {
    let failed = erred(
        start_failed(rt, "focused_engine_unavailable"@, e, now_ms),
        "focused_engine_unavailable"@,
        e,
    );
    noted(
        notified(failed, now_ms),
        id,
        " blocked start because focused engine is unavailable: "@ + e,
        now_ms,
    )
}

/// The engine has got the focus: the start goes ahead.
pub open spec fn focus_found(
    rt: RuntimeView,
    id: u64,
    engine_id: u64,
    last_change_ms: u64,
    now_ms: u64,
) -> RuntimeView {
    nothing_pending(
        in_state(
            noted(
                rt,
                id,
                " focused engine confirmed id="@ + text::dec(engine_id as nat)
                    + " (last_change_ms="@ + text::dec(last_change_ms as nat) + ")"@,
                now_ms,
            ),
            "pending"@,
        ),
    )
}

/// The code that a failure to start names in its text: what stands between the first opening mark
/// and the closing mark after it.
pub open spec fn start_failure_code(err: Seq<char>) -> Seq<char> {
    let opening = "Failed to start recording ("@;
    match text::first_from(err, opening, 0) {
        Some(i) => match text::first_from(err, "):"@, i + opening.len()) {
            Some(j) => text::trimmed(err.subrange(i + opening.len(), j)),
            None => "start_recording_failed"@,
        },
        None => "start_recording_failed"@,
    }
}

/// The code that a failure to start names in its text.
pub fn extract_start_failure_code(err: &str) -> (r: String)
    ensures
        r@ == start_failure_code(err@),
{
    let s = chars_of(err);
    let opening = chars_of("Failed to start recording (");
    let closing = chars_of("):");
    if let Some(i) = find_from(&s, &opening, 0) {
        assert(i + opening@.len() <= s.len());
        let from: usize = i + opening.len();
        if let Some(j) = find_from(&s, &closing, from) {
            let inner = slice_text(&s, from, j);
            return trim(inner.as_str());
        }
    }
    "start_recording_failed".to_owned()
}

/// What a reported start does where it is the one that was waited for.
pub open spec fn start_reported(
    rt: RuntimeView,
    id: u64,
    result: Result<(u64, Seq<char>), Seq<char>>,
    now_ms: u64,
) -> (
    ToggleView,
    RuntimeView,
) {
    match result {
        Ok((daemon, claim)) => (
            ToggleView::Recording { id, daemon, claim },
            noted(
                in_state(stop_failure_cleared(start_failure_cleared(rt)), "recording"@),
                id,
                " started daemon session "@ + text::dec(daemon as nat),
                now_ms,
            ),
        ),
        Err(e) => (
            ToggleView::Idle,
            nothing_pending(
                in_state(
                    noted(
                        notified(
                            erred(
                                start_failed(rt, start_failure_code(e), e, now_ms),
                                "start_recording_failed"@,
                                e,
                            ),
                            now_ms,
                        ),
                        id,
                        " start failed: "@ + e,
                        now_ms,
                    ),
                    "idle"@,
                ),
            ),
        ),
    }
}

/// What a reported stop does where it is the one that was waited for.
pub open spec fn stop_reported(
    rt: RuntimeView,
    id: u64,
    daemon: u64,
    result: StopRecordingOutcome,
    now_ms: u64,
) -> RuntimeView {
    match result {
        StopRecordingOutcome::Acknowledged => in_state(
            noted(
                noted(
                    text_pending(stop_failure_cleared(rt), daemon, now_ms),
                    id,
                    " stop acknowledged for daemon session "@ + text::dec(daemon as nat),
                    now_ms,
                ),
                id,
                " stop-complete for session "@ + text::dec(daemon as nat)
                    + "; commit is delivered by engine-side pending commit listener"@,
                now_ms,
            ),
            "idle"@,
        ),
        StopRecordingOutcome::Finalizing { reason, timed_out } => {
            let bumped = if timed_out {
                with_health(
                    rt,
                    HealthView {
                        stop_timeout_fallback_count: counter::saturated_next(
                            rt.health.stop_timeout_fallback_count,
                        ),
                        ..rt.health
                    },
                )
            } else {
                rt
            };
            in_state(
                noted(
                    text_pending(stop_failure_cleared(bumped), daemon, now_ms),
                    id,
                    " stop finalized asynchronously for daemon session "@ + text::dec(
                        daemon as nat,
                    ) + ": "@ + reason@,
                    now_ms,
                ),
                "idle"@,
            )
        },
        StopRecordingOutcome::Failed(e) => {
            let failed = erred(rt, "stop_recording_failed"@, e@);
            let marked = with_health(
                failed,
                HealthView {
                    last_stop_failure_message: e@,
                    last_stop_failure_ms: now_ms,
                    ..failed.health
                },
            );
            noted(
                in_state(
                    nothing_pending(
                        noted(
                            marked,
                            id,
                            " stop failed for daemon session "@ + text::dec(daemon as nat) + ": "@
                                + e@,
                            now_ms,
                        ),
                    ),
                    "idle"@,
                ),
                id,
                " stop result handled (failure path)"@,
                now_ms,
            )
        },
    }
}

fn tag(id: u64, rest: &str) -> (r: String)
    ensures
        r@ == tagged(id, rest@),
{
    let mut r = "toggle:".to_owned();
    r.append(decimal(id).as_str());
    r.append(rest);
    r
}

impl Default for ToggleRuntime {
    fn default() -> (rt: Self)
        ensures
            rt.wf(),
            rt@ == (RuntimeView {
                health: health::initial_health(),
                events: Seq::empty(),
                next_session: 1,
            }),
    {
        ToggleRuntime {
            health: ToggleRuntimeHealth::default(),
            events: ToggleEvents::default(),
            session_counter: 1,
        }
    }
}

impl ToggleRuntime {
    /// The event log keeps to its room.
    pub open spec fn wf(&self) -> bool {
        self.events.wf()
    }

    /// Remembers an event of a session.
    pub fn note(&mut self, id: u64, rest: &str, now_ms: u64)
        requires
            old(self).wf(),
        ensures
            final(self).wf(),
            final(self)@ == noted(old(self)@, id, rest@, now_ms),
    {
        self.events.push_at(tag(id, rest).as_str(), now_ms);
    }

    /// A notice to the user, where one is due.
    pub fn notify_toggle_failure(&mut self, summary: &str, body: &str, now_ms: u64) -> (r: Option<
        Notice,
    >)
        requires
            old(self).wf(),
        ensures
            final(self).wf(),
            final(self)@ == notified(old(self)@, now_ms),
            notice_is(r, old(self)@, now_ms, summary@, body@),
    {
        if self.health.claim_notification(now_ms) {
            Some(Notice { summary: summary.to_owned(), body: body.to_owned() })
        } else {
            None
        }
    }

    /// The id of the next session of the shortcut.
    pub fn next_toggle_session_id(&mut self) -> (id: u64)
        requires
            old(self).wf(),
        ensures
            final(self).wf(),
            id == old(self)@.next_session,
            final(self)@ == (RuntimeView { next_session: counter::wrapped_next(id), ..old(self)@ }),
    {
        let id: u64 = self.session_counter;
        self.session_counter = wrapping_next(id);
        id
    }

    /// The shortcut was pressed.
    pub fn on_global_pressed(&mut self, state: &mut ToggleState, now_ms: u64) -> (r: PressAction)
        requires
            old(self).wf(),
        ensures
            final(self).wf(),
            (final(state)@, final(self)@, r) == pressed(old(state)@, old(self)@, now_ms),
    {
        match state {
            ToggleState::Idle => PressAction::Start,
            ToggleState::Pending { toggle_session_id } => {
                let id: u64 = *toggle_session_id;
                self.note(id, " toggle ignored while start transition is pending", now_ms);
                PressAction::Ignored
            },
            ToggleState::Recording { toggle_session_id, daemon_session_id, .. } => {
                let id: u64 = *toggle_session_id;
                let daemon: u64 = *daemon_session_id;
                let rest = concat2(
                    " toggle stop requested; stopping daemon session ",
                    decimal(daemon).as_str(),
                );
                self.note(id, rest.as_str(), now_ms);
                *state = ToggleState::Stopping { toggle_session_id: id, daemon_session_id: daemon };
                self.health.mark_toggle_state("stopping");
                PressAction::Stop { toggle_session_id: id, daemon_session_id: daemon }
            },
            ToggleState::Stopping { toggle_session_id, .. } => {
                let id: u64 = *toggle_session_id;
                self.note(id, " toggle ignored while stop transition is pending", now_ms);
                PressAction::Ignored
            },
        }
    }

    /// A start begins, with the current engine or the error that reading it gave: the session's
    /// id, and whether the input source has to be switched first.
    pub fn begin_start(&mut self, current: Result<String, String>, now_ms: u64) -> (r: (u64, bool))
        requires
            old(self).wf(),
        ensures
            final(self).wf(),
            final(self)@ == start_begun(
                old(self)@,
                ibus_control::result_view(current),
                now_ms,
            ),
            r.0 == old(self)@.next_session,
            r.1 == !(current is Ok && ibus_control::names_dikt(current->Ok_0@)),
    {
        if let Err(e) = &current {
            let event = concat2("toggle:read-current-engine failed (non-fatal): ", e.as_str());
            self.events.push_at(event.as_str(), now_ms);
        }
        let id: u64 = self.next_toggle_session_id();
        self.note(id, " pressed", now_ms);
        match &current {
            Ok(name) => {
                if is_dikt_engine(name.as_str()) {
                    self.health.mark_switch_confirm(0);
                    self.note(id, " already on dikt source", now_ms);
                    self.health.bump_press_while_dikt();
                    self.note(id, " pressed while dikt already active", now_ms);
                    return (id, false);
                }
                self.health.mark_switch_attempt(now_ms);
                self.note(id, concat2(" switch requested from ", name.as_str()).as_str(), now_ms);
            },
            Err(_) => {
                self.health.mark_switch_attempt(now_ms);
                self.note(id, concat2(" switch requested from ", "<unknown>").as_str(), now_ms);
            },
        }
        (id, true)
    }

    /// The switch of the input source is over: the engine's name and how long it took, or the
    /// error. On an error the start ends here.
    pub fn switch_over(
        &mut self,
        id: u64,
        result: Result<(String, u64), String>,
        now_ms: u64,
    ) -> (r:
        Option<Notice>)
        requires
            old(self).wf(),
        ensures
            final(self).wf(),
            match result {
                Ok(p) => final(self)@ == switch_done_view(old(self)@, id, p.0@, p.1, now_ms)
                    && r is None,
                Err(e) => final(self)@ == switch_refused(old(self)@, id, e@, now_ms) && notice_is(
                    r,
                    old(self)@,
                    now_ms,
                    "Cannot start recording"@,
                    "Failed to switch input source to Dikt (not confirmed active)."@,
                ),
            },
    {
        match result {
            Ok((engine, latency_ms)) => {
                self.health.mark_switch_confirm(latency_ms);
                let mut rest = concat2(" switch confirmed to ", engine.as_str());
                rest.append(" (");
                rest.append(decimal(latency_ms).as_str());
                rest.append(" ms)");
                self.note(id, rest.as_str(), now_ms);
                None
            },
            Err(e) => {
                self.health.mark_switch_failure(e.as_str());
                self.health.mark_health_error("ibus_switch_to_dikt_failed", e.as_str());
                let n = self.notify_toggle_failure(
                    "Cannot start recording",
                    "Failed to switch input source to Dikt (not confirmed active).",
                    now_ms,
                );
                let rest = concat2(" failed to switch to dikt engine: ", e.as_str());
                self.note(id, rest.as_str(), now_ms);
                n
            },
        }
    }

    /// The wait for the focus is over: the engine and when it got the focus, or the error. The
    /// start goes ahead exactly if an engine has the focus.
    pub fn focus_over(
        &mut self,
        state: &mut ToggleState,
        id: u64,
        result: Result<(u64, u64), String>,
        now_ms: u64,
    ) -> (r: Option<Notice>)
        requires
            old(self).wf(),
        ensures
            final(self).wf(),
            match result {
                Ok(p) => final(self)@ == focus_found(old(self)@, id, p.0, p.1, now_ms)
                    && final(state)@ == (ToggleView::Pending { id }) && r is None,
                Err(e) => final(self)@ == focus_missing(old(self)@, id, e@, now_ms)
                    && final(state)@ == old(state)@ && notice_is(
                    r,
                    old(self)@,
                    now_ms,
                    "Cannot start recording"@,
                    "Dikt input source is not focused in the target text field."@,
                ),
            },
    {
        match result {
            Ok((engine_id, last_change_ms)) => {
                let mut rest = concat2(" focused engine confirmed id=", decimal(engine_id).as_str());
                rest.append(" (last_change_ms=");
                rest.append(decimal(last_change_ms).as_str());
                rest.append(")");
                self.note(id, rest.as_str(), now_ms);
                *state = ToggleState::Pending { toggle_session_id: id };
                self.health.mark_toggle_state("pending");
                self.health.clear_pending_commit();
                None
            },
            Err(e) => {
                self.health.mark_start_failure("focused_engine_unavailable", e.as_str(), now_ms);
                self.health.mark_health_error("focused_engine_unavailable", e.as_str());
                let n = self.notify_toggle_failure(
                    "Cannot start recording",
                    "Dikt input source is not focused in the target text field.",
                    now_ms,
                );
                let rest = concat2(
                    " blocked start because focused engine is unavailable: ",
                    e.as_str(),
                );
                self.note(id, rest.as_str(), now_ms);
                n
            },
        }
    }

    /// A start was reported. One that nobody waits for is cancelled, where it succeeded: the
    /// service's session to cancel.
    pub fn on_start_recording_result(
        &mut self,
        state: &mut ToggleState,
        id: u64,
        result: Result<(u64, String), String>,
        now_ms: u64,
    ) -> (r: (Option<u64>, Option<Notice>))
        requires
            old(self).wf(),
        ensures
            final(self).wf(),
            old(state)@ == (ToggleView::Pending { id }) ==> {
                &&& r.0 is None
                &&& match result {
                    Ok(p) => r.1 is None && (final(state)@, final(self)@) == start_reported(
                        old(self)@,
                        id,
                        Ok((p.0, p.1@)),
                        now_ms,
                    ),
                    Err(e) => (final(state)@, final(self)@) == start_reported(
                        old(self)@,
                        id,
                        Err(e@),
                        now_ms,
                    ) && notice_is(
                        r.1,
                        old(self)@,
                        now_ms,
                        "Cannot start recording"@,
                        "Toggle dictation start failed ("@ + start_failure_code(e@) + ")"@,
                    ),
                }
            },
            old(state)@ != (ToggleView::Pending { id }) ==> {
                &&& r.1 is None
                &&& final(state)@ == old(state)@
                &&& match result {
                    Ok(p) => r.0 == Some(p.0) && final(self)@ == noted(
                        old(self)@,
                        id,
                        " stale start success cancelled"@,
                        now_ms,
                    ),
                    Err(_) => r.0 is None && final(self)@ == noted(
                        old(self)@,
                        id,
                        " stale start failure ignored"@,
                        now_ms,
                    ),
                }
            },
    {
        let waited_for: bool = match state {
            ToggleState::Pending { toggle_session_id } => *toggle_session_id == id,
            _ => false,
        };
        if !waited_for {
            return match result {
                Ok((daemon_session_id, _)) => {
                    self.note(id, " stale start success cancelled", now_ms);
                    (Some(daemon_session_id), None)
                },
                Err(_) => {
                    self.note(id, " stale start failure ignored", now_ms);
                    (None, None)
                },
            };
        }
        match result {
            Ok((daemon_session_id, claim_token)) => {
                self.health.clear_start_failure();
                self.health.clear_stop_failure();
                *state = ToggleState::Recording {
                    toggle_session_id: id,
                    daemon_session_id,
                    claim_token,
                };
                self.health.mark_toggle_state("recording");
                let rest = concat2(" started daemon session ", decimal(daemon_session_id).as_str());
                self.note(id, rest.as_str(), now_ms);
                (None, None)
            },
            Err(err) => {
                let code = extract_start_failure_code(err.as_str());
                self.health.mark_start_failure(code.as_str(), err.as_str(), now_ms);
                self.health.mark_health_error("start_recording_failed", err.as_str());
                let mut body = concat2("Toggle dictation start failed (", code.as_str());
                body.append(")");
                let n = self.notify_toggle_failure(
                    "Cannot start recording",
                    body.as_str(),
                    now_ms,
                );
                self.note(id, concat2(" start failed: ", err.as_str()).as_str(), now_ms);
                *state = ToggleState::Idle;
                self.health.mark_toggle_state("idle");
                self.health.clear_pending_commit();
                (None, n)
            },
        }
    }

    /// A stop was reported. One that nobody waits for is ignored.
    pub fn on_stop_recording_result(
        &mut self,
        state: &mut ToggleState,
        id: u64,
        result: StopRecordingOutcome,
        now_ms: u64,
    )
        requires
            old(self).wf(),
        ensures
            final(self).wf(),
            match old(state)@ {
                ToggleView::Stopping { id: active, daemon } => if active == id {
                    final(state)@ == ToggleView::Idle && final(self)@ == stop_reported(
                        old(self)@,
                        id,
                        daemon,
                        result,
                        now_ms,
                    )
                } else {
                    final(state)@ == old(state)@ && final(self)@ == noted(
                        old(self)@,
                        id,
                        " stale stop result ignored"@,
                        now_ms,
                    )
                },
                _ => final(state)@ == old(state)@ && final(self)@ == noted(
                    old(self)@,
                    id,
                    " stale stop result ignored"@,
                    now_ms,
                ),
            },
    {
        let waited_for: Option<u64> = match state {
            ToggleState::Stopping { toggle_session_id, daemon_session_id } => if *toggle_session_id
                == id {
                Some(*daemon_session_id)
            } else {
                None
            },
            _ => None,
        };
        let daemon: u64 = match waited_for {
            Some(d) => d,
            None => {
                self.note(id, " stale stop result ignored", now_ms);
                return;
            },
        };
        match result {
            StopRecordingOutcome::Acknowledged => {
                self.health.clear_stop_failure();
                self.health.mark_pending_commit(daemon, now_ms);
                let rest = concat2(
                    " stop acknowledged for daemon session ",
                    decimal(daemon).as_str(),
                );
                self.note(id, rest.as_str(), now_ms);
                let mut rest2 = concat2(" stop-complete for session ", decimal(daemon).as_str());
                rest2.append("; commit is delivered by engine-side pending commit listener");
                self.note(id, rest2.as_str(), now_ms);
                *state = ToggleState::Idle;
                self.health.mark_toggle_state("idle");
            },
            StopRecordingOutcome::Finalizing { reason, timed_out } => {
                if timed_out {
                    self.health.bump_stop_timeout_fallback();
                }
                self.health.clear_stop_failure();
                self.health.mark_pending_commit(daemon, now_ms);
                let mut rest = concat2(
                    " stop finalized asynchronously for daemon session ",
                    decimal(daemon).as_str(),
                );
                rest.append(": ");
                rest.append(reason.as_str());
                self.note(id, rest.as_str(), now_ms);
                *state = ToggleState::Idle;
                self.health.mark_toggle_state("idle");
            },
            StopRecordingOutcome::Failed(err) => {
                self.health.mark_health_error("stop_recording_failed", err.as_str());
                self.health.mark_stop_failure(err.as_str(), now_ms);
                let mut rest = concat2(
                    " stop failed for daemon session ",
                    decimal(daemon).as_str(),
                );
                rest.append(": ");
                rest.append(err.as_str());
                self.note(id, rest.as_str(), now_ms);
                self.health.clear_pending_commit();
                *state = ToggleState::Idle;
                self.health.mark_toggle_state("idle");
                self.note(id, " stop result handled (failure path)", now_ms);
            },
        }
    }

    /// The listener ends: the service's session to cancel, and why, if one records or stops.
    pub fn cleanup_state(&mut self, state: &mut ToggleState) -> (r: Option<(u64, String)>)
        requires
            old(self).wf(),
        ensures
            final(self).wf(),
            final(state)@ == ToggleView::Idle,
            final(self)@ == in_state(old(self)@, "idle"@),
            match old(state)@ {
                ToggleView::Recording { id, daemon, claim } => r matches Some(p) && p.0 == daemon
                    && p.1@ == "cleanup"@,
                ToggleView::Stopping { id, daemon } => r matches Some(p) && p.0 == daemon && p.1@
                    == "cleanup after stop pending"@,
                _ => r is None,
            },
    {
        let r = match state {
            ToggleState::Recording { daemon_session_id, .. } => Some(
                (*daemon_session_id, "cleanup".to_owned()),
            ),
            ToggleState::Stopping { daemon_session_id, .. } => Some(
                (*daemon_session_id, "cleanup after stop pending".to_owned()),
            ),
            _ => None,
        };
        *state = ToggleState::Idle;
        self.health.mark_toggle_state("idle");
        r
    }
}

/// The same press does different things only by the state: it starts from rest, stops what
/// records, and is ignored while a start or a stop is under way.
pub proof fn law_press_by_state(s: ToggleView, rt: RuntimeView, now_ms: u64)
    ensures
        pressed(s, rt, now_ms).2 == PressAction::Start <==> s is Idle,
        pressed(s, rt, now_ms).2 is Stop <==> s is Recording,
        pressed(s, rt, now_ms).2 is Ignored <==> s is Pending || s is Stopping,
        !(s is Recording) ==> pressed(s, rt, now_ms).0 == s,
        s is Recording ==> pressed(s, rt, now_ms).0 == (ToggleView::Stopping {
            id: s->Recording_id,
            daemon: s->Recording_daemon,
        }),
{
}

/// Once a recording has been asked to stop, a second press does nothing but leave an event.
pub proof fn law_second_press_is_ignored(s: ToggleView, rt: RuntimeView, now_ms: u64, then_ms: u64)
    requires
        s is Recording,
    ensures
        ({
            let (s1, rt1, _) = pressed(s, rt, now_ms);
            let (s2, rt2, action) = pressed(s1, rt1, then_ms);
            &&& s2 == s1
            &&& action is Ignored
            &&& rt2.health == rt1.health
        }),
{
}

/// The opening words end with the only bracket in them, so they cannot begin in a text before
/// them and end inside themselves.
proof fn lemma_opening_does_not_straddle(prefix: Seq<char>, rest: Seq<char>, k: int)
    requires
        text::occurs_at(rest, "Failed to start recording ("@, 0),
        !text::occurs_in(prefix, "Failed to start recording ("@),
        k < prefix.len(),
    ensures
        !text::occurs_at(prefix + rest, "Failed to start recording ("@, k),
{
    let opening = "Failed to start recording ("@;
    reveal_strlit("Failed to start recording (");
    let s = prefix + rest;
    let n = prefix.len();
    if text::occurs_at(s, opening, k) {
        if k + opening.len() <= n {
            assert(prefix.subrange(k, k + opening.len()) =~= s.subrange(k, k + opening.len()));
            assert(text::occurs_at(prefix, opening, k));
        } else {
            let j = k + opening.len() - 1 - n;
            assert(s.subrange(k, k + opening.len())[opening.len() - 1] == s[n + j]);
            assert(s[n + j] == rest[j]);
            assert(rest.subrange(0, opening.len() as int)[j] == rest[j]);
            assert(opening[opening.len() - 1] == '(');
            assert(opening[j] != '(');
        }
    }
}

/// The code that a failed start names in its message is the code of the error that it was made
/// from, whatever words stand before the message, as long as they do not open a code themselves.
pub proof fn law_failure_code_survives_the_message(prefix: Seq<char>, err: RecordingStartError)
    requires
        !text::occurs_in(prefix, "Failed to start recording ("@),
    ensures
        start_failure_code(prefix + recording::start_failure_text(err)) == audio::error_code(err),
{
    let opening = "Failed to start recording ("@;
    let code = audio::error_code(err);
    let closing = "):"@;
    let message = recording::start_failure_text(err);
    let s = prefix + message;
    let n = prefix.len() as int;
    reveal_strlit("Failed to start recording (");
    reveal_strlit("): ");
    reveal_strlit("):");
    reveal_strlit("busy");
    reveal_strlit("no_input_device");
    reveal_strlit("vad_model_missing");
    reveal_strlit("mic_open_failed");
    reveal_strlit("recorder_unavailable");
    reveal_strlit("recorder_start_failed");
    let from = n + opening.len();
    let end = from + code.len();
    assert(message.subrange(0, opening.len() as int) =~= opening);
    assert(s.subrange(n, n + opening.len()) =~= opening);
    assert(text::occurs_at(s, opening, n));
    assert forall|k: int| 0 <= k < n implies !text::occurs_at(s, opening, k) by {
        lemma_opening_does_not_straddle(prefix, message, k);
    }
    text::lemma_first_from(s, opening, 0, n);
    assert(s.subrange(end, end + 2) =~= closing);
    assert(code.len() > 0);
    assert forall|k: int| 0 <= k < code.len() implies #[trigger] code[k] != ')' && !text::is_ws(code[k]) by {}
    assert forall|k: int| from <= k < end implies !text::occurs_at(s, closing, k) by {
        assert(s[k] == code[k - from]);
        if text::occurs_at(s, closing, k) {
            assert(s.subrange(k, k + 2)[0] == s[k]);
        }
    }
    text::lemma_first_from(s, closing, from, end);
    assert(s.subrange(from, end) =~= code);
    assert(!text::is_ws(code[0]));
    assert(!text::is_ws(code.last()));
    assert(text::skip_ws(code) == code);
    assert(text::drop_ws(code) == code);
}

/// A press starts a recording from rest and stops, whatever session of the service it is, the one
/// that records; while a start or a stop is under way it does neither and leaves the state alone.
pub proof fn law_press_starts_or_stops(s: ToggleView, rt: RuntimeView, now_ms: u64)
    ensures
        ({
            let (after, after_rt, action) = pressed(s, rt, now_ms);
            &&& s == ToggleView::Idle ==> action == PressAction::Start && after == s && after_rt == rt
            &&& s is Recording ==> action == (PressAction::Stop {
                toggle_session_id: s->Recording_id,
                daemon_session_id: s->Recording_daemon,
            }) && after == (ToggleView::Stopping {
                id: s->Recording_id,
                daemon: s->Recording_daemon,
            }) && after_rt.health.current_state == "stopping"@
            &&& s is Pending || s is Stopping ==> action == PressAction::Ignored && after == s
                && after_rt.health == rt.health
            &&& after_rt.next_session == rt.next_session
        }),
{
}

/// A start that is reported as the one waited for records the service's session with its token, and
/// what failed before is forgotten; one that failed leads back to rest, with the failure on record,
/// and no text is waited for.
pub proof fn law_reported_start_decides(
    rt: RuntimeView,
    id: u64,
    daemon: u64,
    claim: Seq<char>,
    error: Seq<char>,
    now_ms: u64,
)
    ensures
        ({
            let (state, after) = start_reported(rt, id, Ok((daemon, claim)), now_ms);
            &&& state == (ToggleView::Recording { id, daemon, claim })
            &&& after.health.current_state == "recording"@
            &&& after.health.last_start_failure_code.len() == 0
            &&& after.health.last_start_failure_message.len() == 0
            &&& after.health.last_stop_failure_message.len() == 0
            &&& after.health.last_start_failure_ms == 0 && after.health.last_stop_failure_ms == 0
            &&& after.health.healthy == rt.health.healthy
        }),
        ({
            let (state, after) = start_reported(rt, id, Err(error), now_ms);
            &&& state == ToggleView::Idle
            &&& after.health.current_state == "idle"@
            &&& !after.health.healthy && after.health.code == "start_recording_failed"@
            &&& after.health.message == error && after.health.last_start_failure_message == error
            &&& after.health.last_start_failure_ms == now_ms
            &&& after.health.last_start_failure_code == start_failure_code(error)
            &&& after.health.pending_commit_session_id == 0
        }),
{
}

/// A stop that the service acknowledged, or that it finishes by itself, leaves its session's text to
/// be waited for; a stop that failed leaves nothing to wait for and the failure on record. In each
/// case the shortcut is at rest again, and only a stop that timed out is counted as such.
pub proof fn law_reported_stop_decides(
    rt: RuntimeView,
    id: u64,
    daemon: u64,
    reason: String,
    timed_out: bool,
    now_ms: u64,
)
    ensures
        ({
            let after = stop_reported(rt, id, daemon, StopRecordingOutcome::Acknowledged, now_ms);
            &&& after.health.current_state == "idle"@
            &&& after.health.pending_commit_session_id == daemon
            &&& after.health.pending_commit_mark_ms == now_ms
            &&& after.health.last_stop_failure_message.len() == 0
            &&& after.health.stop_timeout_fallback_count == rt.health.stop_timeout_fallback_count
            &&& after.health.healthy == rt.health.healthy
        }),
        ({
            let after = stop_reported(
                rt,
                id,
                daemon,
                StopRecordingOutcome::Finalizing { reason, timed_out },
                now_ms,
            );
            let count = rt.health.stop_timeout_fallback_count;
            &&& after.health.current_state == "idle"@
            &&& after.health.pending_commit_session_id == daemon
            &&& after.health.pending_commit_mark_ms == now_ms
            &&& after.health.last_stop_failure_message.len() == 0
            &&& timed_out && count < u64::MAX ==> after.health.stop_timeout_fallback_count == count + 1
            &&& !timed_out ==> after.health.stop_timeout_fallback_count == count
        }),
        ({
            let after = stop_reported(
                rt,
                id,
                daemon,
                StopRecordingOutcome::Failed(reason),
                now_ms,
            );
            &&& after.health.current_state == "idle"@
            &&& after.health.pending_commit_session_id == 0
            &&& !after.health.healthy && after.health.code == "stop_recording_failed"@
            &&& after.health.message == reason@ && after.health.last_stop_failure_message == reason@
            &&& after.health.last_stop_failure_ms == now_ms
        }),
{
}

/// Every start takes the next number, also one whose engine could not be read. From another input
/// source a switch is noted as attempted now; a press while the dictation engine is the current one
/// is counted and counts as a switch that took no time.
pub proof fn law_begun_start_is_on_record(
    rt: RuntimeView,
    name: Seq<char>,
    error: Seq<char>,
    now_ms: u64,
)
    ensures
        ({
            let after = start_begun(rt, Ok(name), now_ms);
            let dikt = name == "dikt"@ || (name.len() >= 5 && name.skip(name.len() - 5) == ":dikt"@);
            &&& rt.next_session < u64::MAX ==> after.next_session == rt.next_session + 1
            &&& dikt ==> after.health.last_switch_confirm_latency_ms == 0
                && after.health.last_switch_failure_message.len() == 0
                && after.health.last_switch_attempt_ms == rt.health.last_switch_attempt_ms && (
            rt.health.press_while_dikt_count < u64::MAX ==> after.health.press_while_dikt_count
                == rt.health.press_while_dikt_count + 1)
            &&& !dikt ==> after.health.last_switch_attempt_ms == now_ms
                && after.health.press_while_dikt_count == rt.health.press_while_dikt_count
        }),
        ({
            let after = start_begun(rt, Err(error), now_ms);
            &&& rt.next_session < u64::MAX ==> after.next_session == rt.next_session + 1
            &&& after.health.last_switch_attempt_ms == now_ms
            &&& after.health.press_while_dikt_count == rt.health.press_while_dikt_count
        }),
{
    reveal_strlit(":dikt");
    if name.len() >= 5 {
        assert(name.subrange(name.len() - 5, name.len() as int) =~= name.skip(name.len() - 5));
    }
}

/// A switch that was confirmed is on record with the time it took, one that was not with its error.
/// An engine that has the focus makes the start pending; without one the start has failed.
pub proof fn law_steps_of_a_start_are_on_record(
    rt: RuntimeView,
    id: u64,
    engine: Seq<char>,
    error: Seq<char>,
    latency_ms: u64,
    engine_id: u64,
    since_ms: u64,
    now_ms: u64,
)
    ensures
        switch_done_view(rt, id, engine, latency_ms, now_ms).health.last_switch_confirm_latency_ms
            == latency_ms,
        switch_done_view(
            rt,
            id,
            engine,
            latency_ms,
            now_ms,
        ).health.last_switch_failure_message.len() == 0,
        ({
            let after = switch_refused(rt, id, error, now_ms);
            &&& after.health.last_switch_failure_message == error
            &&& !after.health.healthy && after.health.code == "ibus_switch_to_dikt_failed"@
            &&& after.health.message == error
        }),
        ({
            let after = focus_missing(rt, id, error, now_ms);
            &&& !after.health.healthy && after.health.code == "focused_engine_unavailable"@
            &&& after.health.last_start_failure_code == "focused_engine_unavailable"@
            &&& after.health.last_start_failure_message == error
            &&& after.health.last_start_failure_ms == now_ms
        }),
        ({
            let after = focus_found(rt, id, engine_id, since_ms, now_ms);
            &&& after.health.current_state == "pending"@
            &&& after.health.pending_commit_session_id == 0
            &&& after.health.healthy == rt.health.healthy
        }),
{
}

/// What happens to a session of the shortcut is remembered as the latest event, with its time and
/// number, behind the events before it.
pub proof fn law_events_tell_time_and_number(
    rt: RuntimeView,
    id: u64,
    rest: Seq<char>,
    now_ms: u64,
)
    ensures
        noted(rt, id, rest, now_ms).events.last() == text::dec(now_ms as nat) + " "@ + "toggle:"@
            + text::dec(id as nat) + rest,
        noted(rt, id, rest, now_ms).health == rt.health,
        rt.events.len() < 60 ==> noted(rt, id, rest, now_ms).events.drop_last() == rt.events,
        rt.events.len() == 60 ==> noted(rt, id, rest, now_ms).events.drop_last() == rt.events.skip(1),
{
    let after = noted(rt, id, rest, now_ms).events;
    assert(after.last() =~= text::dec(now_ms as nat) + " "@ + "toggle:"@ + text::dec(id as nat)
        + rest);
    if rt.events.len() < 60 {
        assert(after.drop_last() =~= rt.events);
    }
    if rt.events.len() == 60 {
        assert(after.drop_last() =~= rt.events.skip(1));
    }
}

/// A message without the opening words, or without the closing mark behind them, names no code.
pub proof fn law_message_without_a_code(err: Seq<char>)
    requires
        !text::occurs_in(err, "Failed to start recording ("@) || !text::occurs_in(err, "):"@),
    ensures
        start_failure_code(err) == "start_recording_failed"@,
{
    lemma_not_first(err, "Failed to start recording ("@, 0);
    let opening = "Failed to start recording ("@;
    if let Some(i) = text::first_from(err, opening, 0) {
        lemma_not_first(err, "):"@, i + opening.len());
    }
}

proof fn lemma_not_first(s: Seq<char>, p: Seq<char>, from: int)
    ensures
        !text::occurs_in(s, p) ==> text::first_from(s, p, from) is None,
    decreases s.len() + 1 - from,
{
    if !text::occurs_in(s, p) && from <= s.len() {
        assert(!text::occurs_at(s, p, from));
        lemma_not_first(s, p, from + 1);
    }
}

/// A failure is notified with what it is about whenever a notification is due, eight seconds after
/// the last one; the time is then remembered, so that the next one has to wait as long. Otherwise
/// nothing is notified and nothing changes.
pub proof fn law_notifications_are_spaced(
    rt: RuntimeView,
    n: Option<Notice>,
    now_ms: u64,
    then_ms: u64,
    summary: Seq<char>,
    body: Seq<char>,
)
    ensures
        ({
            let after = notified(rt, now_ms);
            let due = now_ms - rt.health.last_notification_ms >= 8000;
            &&& due ==> after.health.last_notification_ms == now_ms
            &&& !due ==> after == rt
            &&& after.events == rt.events && after.next_session == rt.next_session
            &&& after.health.current_state == rt.health.current_state && after.health.code
                == rt.health.code
            &&& due && then_ms - now_ms < 8000 ==> notified(after, then_ms) == after
            &&& notice_is(n, rt, now_ms, summary, body) ==> (n is Some <==> due) && (n is Some ==> (
            n->0).summary@ == summary && (n->0).body@ == body)
        }),
{
}

/// Once no text is waited for, none is, and no time is kept for it.
pub proof fn law_nothing_is_waited_for(rt: RuntimeView, now_ms: u64)
    ensures
        nothing_pending(rt).health.pending_commit_session_id == 0,
        nothing_pending(rt).health.pending_commit_mark_ms == 0,
        health::pending_age(nothing_pending(rt).health, now_ms) == 0,
        nothing_pending(rt).events == rt.events,
{
}

} // verus!
