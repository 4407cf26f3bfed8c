//! What is known of the dictation shortcut's health, and the events that led there.

use crate::clock::now_millis;
use crate::counter;
use crate::counter::saturating_next;
use crate::json;
use crate::json::{json_field, write_object, JsonField, JsonValue, JsonView};
use crate::text;
use crate::text::{contains, decimal, starts_with};
use std::collections::VecDeque;
use vstd::prelude::*;
use vstd::string::*;

verus! {

broadcast use vstd::std_specs::vecdeque::group_vec_dequeue_axioms;

/// How many events are remembered.
pub const TOGGLE_EVENT_HISTORY_LIMIT: usize = 60;

/// The shortest time between two failure notifications, in milliseconds.
pub const FAILURE_NOTIFICATION_COOLDOWN_MS: u64 = 8_000;

/// The events that are remembered, oldest first.
pub struct ToggleEvents {
    lines: VecDeque<String>,
}

impl View for ToggleEvents {
    type V = Seq<Seq<char>>;

    closed spec fn view(&self) -> Seq<Seq<char>> {
        text::views(self.lines@)
    }
}

/// An event with the time at which it happened.
pub open spec fn event_line(now_ms: u64, event: Seq<char>) -> Seq<char> {
    text::dec(now_ms as nat) + " "@ + event
}

/// The events with one more; only the latest are kept.
pub open spec fn remembered(events: Seq<Seq<char>>, line: Seq<char>) -> Seq<Seq<char>> {
    let all = events.push(line);
    if all.len() > TOGGLE_EVENT_HISTORY_LIMIT {
        all.skip(all.len() - TOGGLE_EVENT_HISTORY_LIMIT)
    } else {
        all
    }
}

impl Default for ToggleEvents {
    fn default() -> (e: Self)
        ensures
            e.wf(),
            e@ == Seq::<Seq<char>>::empty(),
    {
        let e = ToggleEvents { lines: VecDeque::with_capacity(TOGGLE_EVENT_HISTORY_LIMIT) };
        assert(e@ =~= Seq::<Seq<char>>::empty());
        e
    }
}

impl ToggleEvents {
    /// No more events are remembered than there is room for.
    pub open spec fn wf(&self) -> bool {
        self@.len() <= TOGGLE_EVENT_HISTORY_LIMIT
    }

    /// Remembers an event that happened at the given time.
    pub fn push_at(&mut self, event: &str, now_ms: u64)
        requires
            old(self).wf(),
        ensures
            final(self).wf(),
            final(self)@ == remembered(old(self)@, event_line(now_ms, event@)),
    {
        let mut line = decimal(now_ms);
        line.append(" ");
        line.append(event);
        let ghost before = self@;
        let ghost q0 = self.lines@;
        self.lines.push_back(line);
        assert(self@ =~= before.push(line@));
        if self.lines.len() > TOGGLE_EVENT_HISTORY_LIMIT {
            let ghost all = self@;
            let _ = self.lines.pop_front();
            assert(self@ =~= all.skip(1));
        }
    }

    /// Remembers an event that happens now.
    pub fn push_toggle_event(&mut self, event: &str)
        requires
            old(self).wf(),
        ensures
            final(self).wf(),
            exists|now_ms: u64|
                final(self)@ == remembered(old(self)@, event_line(now_ms, event@)),
    {
        let now_ms: u64 = now_millis();
        self.push_at(event, now_ms);
    }

    /// How many events are remembered.
    pub fn count(&self) -> (n: usize)
        ensures
            n == self@.len(),
    {
        self.lines.len()
    }
}

/// The events that are remembered, oldest first; none where they cannot be read.
pub fn toggle_recent_events(events: Option<&ToggleEvents>) -> (r: Vec<String>)
    ensures
        text::views(r@) == (match events {
            Some(e) => e@,
            None => Seq::empty(),
        }),
{
    let mut r: Vec<String> = Vec::new();
    if let Some(e) = events {
        let n: usize = e.lines.len();
        let mut i: usize = 0;
        while i < n
            invariant
                i <= n,
                n == e.lines@.len(),
                text::views(r@) == e@.take(i as int),
            decreases n - i,
        {
            let ghost before = r@;
            r.push(e.lines[i].clone());
            i += 1;
            assert(text::views(r@) =~= text::views(before).push(e@[i - 1]));
            assert(e@.take(i as int) =~= e@.take(i - 1).push(e@[i - 1]));
        }
        assert(e@.take(n as int) =~= e@);
    }
    assert(events is None ==> text::views(r@) =~= Seq::<Seq<char>>::empty());
    r
}

/// What is known of the shortcut's health.
pub struct ToggleRuntimeHealth {
    healthy: bool,
    component: String,
    code: String,
    message: String,
    last_success_ms: u64,
    listener_session_ok: bool,
    shortcut_bound: bool,
    bind_fail_count: u64,
    press_while_dikt_count: u64,
    stop_timeout_fallback_count: u64,
    last_notification_ms: u64,
    current_state: String,
    shortcut_description: String,
    last_start_failure_code: String,
    last_start_failure_message: String,
    last_start_failure_ms: u64,
    last_stop_failure_message: String,
    last_stop_failure_ms: u64,
    pending_commit_session_id: u64,
    pending_commit_mark_ms: u64,
    focused_engine_id: u64,
    engine_last_change_ms: u64,
    last_switch_attempt_ms: u64,
    last_switch_confirm_latency_ms: u64,
    last_switch_failure_message: String,
    last_dbus_error: String,
    last_dbus_error_ms: u64,
}

/// What a `ToggleRuntimeHealth` holds.
pub struct HealthView {
    pub healthy: bool,
    pub component: Seq<char>,
    pub code: Seq<char>,
    pub message: Seq<char>,
    pub last_success_ms: u64,
    pub listener_session_ok: bool,
    pub shortcut_bound: bool,
    pub bind_fail_count: u64,
    pub press_while_dikt_count: u64,
    pub stop_timeout_fallback_count: u64,
    pub last_notification_ms: u64,
    pub current_state: Seq<char>,
    pub shortcut_description: Seq<char>,
    pub last_start_failure_code: Seq<char>,
    pub last_start_failure_message: Seq<char>,
    pub last_start_failure_ms: u64,
    pub last_stop_failure_message: Seq<char>,
    pub last_stop_failure_ms: u64,
    pub pending_commit_session_id: u64,
    pub pending_commit_mark_ms: u64,
    pub focused_engine_id: u64,
    pub engine_last_change_ms: u64,
    pub last_switch_attempt_ms: u64,
    pub last_switch_confirm_latency_ms: u64,
    pub last_switch_failure_message: Seq<char>,
    pub last_dbus_error: Seq<char>,
    pub last_dbus_error_ms: u64,
}

impl View for ToggleRuntimeHealth {
    type V = HealthView;

    closed spec fn view(&self) -> HealthView {
        HealthView {
            healthy: self.healthy,
            component: self.component@,
            code: self.code@,
            message: self.message@,
            last_success_ms: self.last_success_ms,
            listener_session_ok: self.listener_session_ok,
            shortcut_bound: self.shortcut_bound,
            bind_fail_count: self.bind_fail_count,
            press_while_dikt_count: self.press_while_dikt_count,
            stop_timeout_fallback_count: self.stop_timeout_fallback_count,
            last_notification_ms: self.last_notification_ms,
            current_state: self.current_state@,
            shortcut_description: self.shortcut_description@,
            last_start_failure_code: self.last_start_failure_code@,
            last_start_failure_message: self.last_start_failure_message@,
            last_start_failure_ms: self.last_start_failure_ms,
            last_stop_failure_message: self.last_stop_failure_message@,
            last_stop_failure_ms: self.last_stop_failure_ms,
            pending_commit_session_id: self.pending_commit_session_id,
            pending_commit_mark_ms: self.pending_commit_mark_ms,
            focused_engine_id: self.focused_engine_id,
            engine_last_change_ms: self.engine_last_change_ms,
            last_switch_attempt_ms: self.last_switch_attempt_ms,
            last_switch_confirm_latency_ms: self.last_switch_confirm_latency_ms,
            last_switch_failure_message: self.last_switch_failure_message@,
            last_dbus_error: self.last_dbus_error@,
            last_dbus_error_ms: self.last_dbus_error_ms,
        }
    }
}

/// What is known before the listener has started.
pub open spec fn initial_health() -> HealthView {
    HealthView {
        healthy: false,
        component: "global_shortcuts"@,
        code: "not_initialized"@,
        message: "Global dictation shortcut listener not initialized yet"@,
        last_success_ms: 0,
        listener_session_ok: false,
        shortcut_bound: false,
        bind_fail_count: 0,
        press_while_dikt_count: 0,
        stop_timeout_fallback_count: 0,
        last_notification_ms: 0,
        current_state: "idle"@,
        shortcut_description: Seq::empty(),
        last_start_failure_code: Seq::empty(),
        last_start_failure_message: Seq::empty(),
        last_start_failure_ms: 0,
        last_stop_failure_message: Seq::empty(),
        last_stop_failure_ms: 0,
        pending_commit_session_id: 0,
        pending_commit_mark_ms: 0,
        focused_engine_id: 0,
        engine_last_change_ms: 0,
        last_switch_attempt_ms: 0,
        last_switch_confirm_latency_ms: 0,
        last_switch_failure_message: Seq::empty(),
        last_dbus_error: Seq::empty(),
        last_dbus_error_ms: 0,
    }
}

impl Default for ToggleRuntimeHealth {
    fn default() -> (h: Self)
        ensures
            h@ == initial_health(),
    {
        ToggleRuntimeHealth {
            healthy: false,
            component: "global_shortcuts".to_owned(),
            code: "not_initialized".to_owned(),
            message: "Global dictation shortcut listener not initialized yet".to_owned(),
            last_success_ms: 0,
            listener_session_ok: false,
            shortcut_bound: false,
            bind_fail_count: 0,
            press_while_dikt_count: 0,
            stop_timeout_fallback_count: 0,
            last_notification_ms: 0,
            current_state: "idle".to_owned(),
            shortcut_description: String::new(),
            last_start_failure_code: String::new(),
            last_start_failure_message: String::new(),
            last_start_failure_ms: 0,
            last_stop_failure_message: String::new(),
            last_stop_failure_ms: 0,
            pending_commit_session_id: 0,
            pending_commit_mark_ms: 0,
            focused_engine_id: 0,
            engine_last_change_ms: 0,
            last_switch_attempt_ms: 0,
            last_switch_confirm_latency_ms: 0,
            last_switch_failure_message: String::new(),
            last_dbus_error: String::new(),
            last_dbus_error_ms: 0,
        }
    }
}

/// The health after the listener reports success.
pub open spec fn succeeded(h: HealthView, message: Seq<char>, now_ms: u64) -> HealthView {
    HealthView {
        healthy: true,
        component: "global_shortcuts"@,
        code: "ok"@,
        message,
        last_success_ms: now_ms,
        listener_session_ok: true,
        shortcut_bound: true,
        ..h
    }
}

/// The error is one of the keyboard listener's.
pub open spec fn is_listener_error(code: Seq<char>) -> bool {
    text::has_prefix(code, "evdev_"@)
}

/// The error means that the shortcut is not bound.
pub open spec fn is_binding_error(code: Seq<char>) -> bool {
    is_listener_error(code) && (text::occurs_in(code, "bind"@) || text::occurs_in(
        code,
        "permission"@,
    ))
}

/// The health after an error.
pub open spec fn erred(h: HealthView, code: Seq<char>, message: Seq<char>) -> HealthView {
    HealthView {
        healthy: false,
        component: "global_shortcuts"@,
        code,
        message,
        listener_session_ok: if is_listener_error(code) {
            false
        } else {
            h.listener_session_ok
        },
        shortcut_bound: if is_binding_error(code) {
            false
        } else {
            h.shortcut_bound
        },
        bind_fail_count: if is_binding_error(code) {
            counter::saturated_next(h.bind_fail_count)
        } else {
            h.bind_fail_count
        },
        ..h
    }
}

/// A notification is due: the last one was long enough ago.
pub open spec fn notification_due(h: HealthView, now_ms: u64) -> bool {
    counter::minus(now_ms, h.last_notification_ms) >= FAILURE_NOTIFICATION_COOLDOWN_MS
}

/// How long the final text of the last session has been waited for.
pub open spec fn pending_age(h: HealthView, now_ms: u64) -> u64 {
    if h.pending_commit_session_id == 0 {
        0
    } else {
        counter::minus(now_ms, h.pending_commit_mark_ms)
    }
}

/// The fields of the diagnostics.
pub open spec fn diagnostics_fields(h: HealthView, events: nat, now_ms: u64) -> Seq<
    (Seq<char>, JsonView),
> {
    seq![
        ("healthy"@, JsonView::Bool(h.healthy)),
        ("component"@, JsonView::Text(h.component)),
        ("code"@, JsonView::Text(h.code)),
        ("message"@, JsonView::Text(h.message)),
        ("last_success_ms"@, JsonView::Unsigned(h.last_success_ms)),
        ("listener_session_ok"@, JsonView::Bool(h.listener_session_ok)),
        ("shortcut_bound"@, JsonView::Bool(h.shortcut_bound)),
        ("bind_fail_count"@, JsonView::Unsigned(h.bind_fail_count)),
        ("press_while_dikt_count"@, JsonView::Unsigned(h.press_while_dikt_count)),
        ("stop_timeout_fallback_count"@, JsonView::Unsigned(h.stop_timeout_fallback_count)),
        ("current_state"@, JsonView::Text(h.current_state)),
        ("shortcut_description"@, JsonView::Text(h.shortcut_description)),
        ("last_start_failure_code"@, JsonView::Text(h.last_start_failure_code)),
        ("last_start_failure_message"@, JsonView::Text(h.last_start_failure_message)),
        ("last_start_failure_ms"@, JsonView::Unsigned(h.last_start_failure_ms)),
        ("last_stop_failure_message"@, JsonView::Text(h.last_stop_failure_message)),
        ("last_stop_failure_ms"@, JsonView::Unsigned(h.last_stop_failure_ms)),
        ("pending_commit_session_id"@, JsonView::Unsigned(h.pending_commit_session_id)),
        ("pending_commit_age_ms"@, JsonView::Unsigned(pending_age(h, now_ms))),
        ("engine_active"@, JsonView::Bool(h.focused_engine_id != 0)),
        ("focused_engine_id"@, JsonView::Unsigned(h.focused_engine_id)),
        ("engine_last_change_ms"@, JsonView::Unsigned(h.engine_last_change_ms)),
        ("last_switch_attempt_ms"@, JsonView::Unsigned(h.last_switch_attempt_ms)),
        ("last_switch_confirm_latency_ms"@, JsonView::Unsigned(h.last_switch_confirm_latency_ms)),
        ("last_switch_failure_message"@, JsonView::Text(h.last_switch_failure_message)),
        ("last_dbus_error"@, JsonView::Text(h.last_dbus_error)),
        ("last_dbus_error_ms"@, JsonView::Unsigned(h.last_dbus_error_ms)),
        ("recent_event_count"@, JsonView::Unsigned(events as u64)),
    ]
}

/// What stands for a health that cannot be read.
pub open spec fn unreadable_health() -> HealthView {
    HealthView {
        code: "lock_poisoned"@,
        message: "Failed to read TOGGLE diagnostics"@,
        current_state: "unknown"@,
        last_start_failure_message: "Failed to read TOGGLE diagnostics"@,
        last_dbus_error: "health_state lock poisoned"@,
        ..initial_health()
    }
}

/// The fields that are reported of a health and events that may not be readable.
pub open spec fn reported_fields(
    health: Option<&ToggleRuntimeHealth>,
    events: Option<&ToggleEvents>,
    now_ms: u64,
) -> Seq<(Seq<char>, JsonView)> {
    match (health, events) {
        (Some(h), Some(e)) => diagnostics_fields(h@, e@.len(), now_ms),
        (Some(h), None) => diagnostics_fields(h@, 0, now_ms),
        _ => diagnostics_fields(unreadable_health(), 0, now_ms),
    }
}

impl ToggleRuntimeHealth {
    fn unreadable() -> (h: Self)
        ensures
            h@ == unreadable_health(),
    {
        let mut h = ToggleRuntimeHealth::default();
        h.code = "lock_poisoned".to_owned();
        h.message = "Failed to read TOGGLE diagnostics".to_owned();
        h.current_state = "unknown".to_owned();
        h.last_start_failure_message = "Failed to read TOGGLE diagnostics".to_owned();
        h.last_dbus_error = "health_state lock poisoned".to_owned();
        h
    }

    /// The listener works.
    pub fn mark_health_success(&mut self, message: &str, now_ms: u64)
        ensures
            final(self)@ == succeeded(old(self)@, message@, now_ms),
    {
        self.healthy = true;
        self.component = "global_shortcuts".to_owned();
        self.code = "ok".to_owned();
        self.message = message.to_owned();
        self.last_success_ms = now_ms;
        self.listener_session_ok = true;
        self.shortcut_bound = true;
    }

    /// The shortcut is in this state.
    pub fn mark_toggle_state(&mut self, state: &str)
        ensures
            final(self)@ == (HealthView { current_state: state@, ..old(self)@ }),
    {
        self.current_state = state.to_owned();
    }

    /// Something went wrong.
    pub fn mark_health_error(&mut self, code: &str, message: &str)
        ensures
            final(self)@ == erred(old(self)@, code@, message@),
    {
        self.healthy = false;
        self.component = "global_shortcuts".to_owned();
        self.code = code.to_owned();
        self.message = message.to_owned();
        if starts_with(code, "evdev_") {
            self.listener_session_ok = false;
            if contains(code, "bind") || contains(code, "permission") {
                self.shortcut_bound = false;
                self.bind_fail_count = saturating_next(self.bind_fail_count);
            }
        }
    }

    /// The shortcut reads like this.
    pub fn mark_shortcut_description(&mut self, description: &str)
        ensures
            final(self)@ == (HealthView { shortcut_description: description@, ..old(self)@ }),
    {
        self.shortcut_description = description.to_owned();
    }

    /// A recording did not start.
    pub fn mark_start_failure(&mut self, code: &str, message: &str, now_ms: u64)
        ensures
            final(self)@ == (HealthView {
                last_start_failure_code: code@,
                last_start_failure_message: message@,
                last_start_failure_ms: now_ms,
                ..old(self)@
            }),
    {
        self.last_start_failure_code = code.to_owned();
        self.last_start_failure_message = message.to_owned();
        self.last_start_failure_ms = now_ms;
    }

    /// Recordings start again.
    pub fn clear_start_failure(&mut self)
        ensures
            final(self)@ == (HealthView {
                last_start_failure_code: Seq::empty(),
                last_start_failure_message: Seq::empty(),
                last_start_failure_ms: 0,
                ..old(self)@
            }),
    {
        self.last_start_failure_code = String::new();
        self.last_start_failure_message = String::new();
        self.last_start_failure_ms = 0;
    }

    /// A recording did not stop.
    pub fn mark_stop_failure(&mut self, message: &str, now_ms: u64)
        ensures
            final(self)@ == (HealthView {
                last_stop_failure_message: message@,
                last_stop_failure_ms: now_ms,
                ..old(self)@
            }),
    {
        self.last_stop_failure_message = message.to_owned();
        self.last_stop_failure_ms = now_ms;
    }

    /// Recordings stop again.
    pub fn clear_stop_failure(&mut self)
        ensures
            final(self)@ == (HealthView {
                last_stop_failure_message: Seq::empty(),
                last_stop_failure_ms: 0,
                ..old(self)@
            }),
    {
        self.last_stop_failure_message = String::new();
        self.last_stop_failure_ms = 0;
    }

    /// The final text of a session is waited for.
    pub fn mark_pending_commit(&mut self, session_id: u64, now_ms: u64)
        ensures
            final(self)@ == (HealthView {
                pending_commit_session_id: session_id,
                pending_commit_mark_ms: now_ms,
                ..old(self)@
            }),
    {
        self.pending_commit_session_id = session_id;
        self.pending_commit_mark_ms = now_ms;
    }

    /// No final text is waited for.
    pub fn clear_pending_commit(&mut self)
        ensures
            final(self)@ == (HealthView {
                pending_commit_session_id: 0,
                pending_commit_mark_ms: 0,
                ..old(self)@
            }),
    {
        self.pending_commit_session_id = 0;
        self.pending_commit_mark_ms = 0;
    }

    /// This engine has the focus.
    pub fn mark_focused_engine_status(&mut self, engine_id: u64, last_change_ms: u64)
        ensures
            final(self)@ == (HealthView {
                focused_engine_id: engine_id,
                engine_last_change_ms: last_change_ms,
                ..old(self)@
            }),
    {
        self.focused_engine_id = engine_id;
        self.engine_last_change_ms = last_change_ms;
    }

    /// A switch of the input source begins.
    pub fn mark_switch_attempt(&mut self, now_ms: u64)
        ensures
            final(self)@ == (HealthView { last_switch_attempt_ms: now_ms, ..old(self)@ }),
    {
        self.last_switch_attempt_ms = now_ms;
    }

    /// The input source was switched.
    pub fn mark_switch_confirm(&mut self, latency_ms: u64)
        ensures
            final(self)@ == (HealthView {
                last_switch_confirm_latency_ms: latency_ms,
                last_switch_failure_message: Seq::empty(),
                ..old(self)@
            }),
    {
        self.last_switch_confirm_latency_ms = latency_ms;
        self.last_switch_failure_message = String::new();
    }

    /// The input source was not switched.
    pub fn mark_switch_failure(&mut self, message: &str)
        ensures
            final(self)@ == (HealthView { last_switch_failure_message: message@, ..old(self)@ }),
    {
        self.last_switch_failure_message = message.to_owned();
    }

    /// A call on the bus failed.
    pub fn mark_dbus_error(&mut self, method: &str, message: &str, now_ms: u64)
        ensures
            final(self)@ == (HealthView {
                last_dbus_error: method@ + ": "@ + message@,
                last_dbus_error_ms: now_ms,
                ..old(self)@
            }),
    {
        let mut e = method.to_owned();
        e.append(": ");
        e.append(message);
        self.last_dbus_error = e;
        self.last_dbus_error_ms = now_ms;
    }

    /// The shortcut was pressed while the dictation engine was the input source.
    pub fn bump_press_while_dikt(&mut self)
        ensures
            final(self)@ == (HealthView {
                press_while_dikt_count: counter::saturated_next(old(self)@.press_while_dikt_count),
                ..old(self)@
            }),
    {
        self.press_while_dikt_count = saturating_next(self.press_while_dikt_count);
    }

    /// A stop took too long and was finished without an answer.
    pub fn bump_stop_timeout_fallback(&mut self)
        ensures
            final(self)@ == (HealthView {
                stop_timeout_fallback_count: counter::saturated_next(
                    old(self)@.stop_timeout_fallback_count,
                ),
                ..old(self)@
            }),
    {
        self.stop_timeout_fallback_count = saturating_next(self.stop_timeout_fallback_count);
    }

    /// Whether a failure is notified now; the time is then remembered.
    pub fn claim_notification(&mut self, now_ms: u64) -> (due: bool)
        ensures
            due == notification_due(old(self)@, now_ms),
            final(self)@ == (if due {
                HealthView { last_notification_ms: now_ms, ..old(self)@ }
            } else {
                old(self)@
            }),
    {
        if now_ms.saturating_sub(self.last_notification_ms) < FAILURE_NOTIFICATION_COOLDOWN_MS {
            return false;
        }
        self.last_notification_ms = now_ms;
        true
    }
}

/// The health in short: healthy, component, code, message, last success, listener running,
/// shortcut bound, and the three counts.
pub fn toggle_diagnostics_tuple(health: Option<&ToggleRuntimeHealth>) -> (r: (
    bool,
    String,
    String,
    String,
    u64,
    bool,
    bool,
    u64,
    u64,
    u64,
))
    ensures
        ({
            let h = match health {
                Some(h) => h@,
                None => unreadable_health(),
            };
            &&& r.0 == h.healthy
            &&& r.1@ == h.component
            &&& r.2@ == h.code
            &&& r.3@ == h.message
            &&& r.4 == h.last_success_ms
            &&& r.5 == h.listener_session_ok
            &&& r.6 == h.shortcut_bound
            &&& r.7 == h.bind_fail_count
            &&& r.8 == h.press_while_dikt_count
            &&& r.9 == h.stop_timeout_fallback_count
        }),
{
    match health {
        Some(h) => (
            h.healthy,
            h.component.clone(),
            h.code.clone(),
            h.message.clone(),
            h.last_success_ms,
            h.listener_session_ok,
            h.shortcut_bound,
            h.bind_fail_count,
            h.press_while_dikt_count,
            h.stop_timeout_fallback_count,
        ),
        None => (
            false,
            "global_shortcuts".to_owned(),
            "lock_poisoned".to_owned(),
            "Failed to read TOGGLE diagnostics".to_owned(),
            0,
            false,
            false,
            0,
            0,
            0,
        ),
    }
}

/// The place of a key among the fields.
spec fn key_place(k: Seq<char>) -> int {
    if k == "healthy"@ {
        0
    } else if k == "component"@ {
        1
    } else if k == "code"@ {
        2
    } else if k == "message"@ {
        3
    } else if k == "last_success_ms"@ {
        4
    } else if k == "listener_session_ok"@ {
        5
    } else if k == "shortcut_bound"@ {
        6
    } else if k == "bind_fail_count"@ {
        7
    } else if k == "press_while_dikt_count"@ {
        8
    } else if k == "stop_timeout_fallback_count"@ {
        9
    } else if k == "current_state"@ {
        10
    } else if k == "shortcut_description"@ {
        11
    } else if k == "last_start_failure_code"@ {
        12
    } else if k == "last_start_failure_message"@ {
        13
    } else if k == "last_start_failure_ms"@ {
        14
    } else if k == "last_stop_failure_message"@ {
        15
    } else if k == "last_stop_failure_ms"@ {
        16
    } else if k == "pending_commit_session_id"@ {
        17
    } else if k == "pending_commit_age_ms"@ {
        18
    } else if k == "engine_active"@ {
        19
    } else if k == "focused_engine_id"@ {
        20
    } else if k == "engine_last_change_ms"@ {
        21
    } else if k == "last_switch_attempt_ms"@ {
        22
    } else if k == "last_switch_confirm_latency_ms"@ {
        23
    } else if k == "last_switch_failure_message"@ {
        24
    } else if k == "last_dbus_error"@ {
        25
    } else if k == "last_dbus_error_ms"@ {
        26
    } else if k == "recent_event_count"@ {
        27
    } else {
        -1
    }
}

#[verifier::rlimit(50)]
proof fn lemma_key_at(h: HealthView, events: nat, now_ms: u64, i: int)
    requires
        0 <= i < diagnostics_fields(h, events, now_ms).len(),
    ensures
        key_place(diagnostics_fields(h, events, now_ms)[i].0) == i,
        json::plain_key(diagnostics_fields(h, events, now_ms)[i].0),
{
    let k = diagnostics_fields(h, events, now_ms)[i].0;
    reveal_strlit("healthy");
    reveal_strlit("component");
    reveal_strlit("code");
    reveal_strlit("message");
    reveal_strlit("last_success_ms");
    reveal_strlit("listener_session_ok");
    reveal_strlit("shortcut_bound");
    reveal_strlit("bind_fail_count");
    reveal_strlit("press_while_dikt_count");
    reveal_strlit("stop_timeout_fallback_count");
    reveal_strlit("current_state");
    reveal_strlit("shortcut_description");
    reveal_strlit("last_start_failure_code");
    reveal_strlit("last_start_failure_message");
    reveal_strlit("last_start_failure_ms");
    reveal_strlit("last_stop_failure_message");
    reveal_strlit("last_stop_failure_ms");
    reveal_strlit("pending_commit_session_id");
    reveal_strlit("pending_commit_age_ms");
    reveal_strlit("engine_active");
    reveal_strlit("focused_engine_id");
    reveal_strlit("engine_last_change_ms");
    reveal_strlit("last_switch_attempt_ms");
    reveal_strlit("last_switch_confirm_latency_ms");
    reveal_strlit("last_switch_failure_message");
    reveal_strlit("last_dbus_error");
    reveal_strlit("last_dbus_error_ms");
    reveal_strlit("recent_event_count");
    reveal_with_fuel(json::plain_until, 32);
    assert(json::plain_until(k, k.len()));
    json::lemma_plain_key(k);
}

proof fn lemma_keys_are_plain(h: HealthView, events: nat, now_ms: u64)
    ensures
        json::plain_keys(diagnostics_fields(h, events, now_ms)),
{
    let fields = diagnostics_fields(h, events, now_ms);
    assert forall|i: int| 0 <= i < fields.len() implies key_place(#[trigger] fields[i].0) == i
        && json::plain_key(fields[i].0) by {
        lemma_key_at(h, events, now_ms, i);
    }
}

fn health_json(h: &ToggleRuntimeHealth, events: usize, now_ms: u64) -> (r: String)
    ensures
        r@ == json::object_text(diagnostics_fields(h@, events as nat, now_ms)),
        json::all_read_back(r@, diagnostics_fields(h@, events as nat, now_ms)),
{
    let age: u64 = if h.pending_commit_session_id == 0 {
        0
    } else {
        now_ms.saturating_sub(h.pending_commit_mark_ms)
    };
    let mut f: Vec<JsonField> = Vec::new();
    f.push(json_field("healthy", JsonValue::Bool(h.healthy)));
    f.push(json_field("component", JsonValue::Text(h.component.clone())));
    f.push(json_field("code", JsonValue::Text(h.code.clone())));
    f.push(json_field("message", JsonValue::Text(h.message.clone())));
    f.push(json_field("last_success_ms", JsonValue::Unsigned(h.last_success_ms)));
    f.push(json_field("listener_session_ok", JsonValue::Bool(h.listener_session_ok)));
    f.push(json_field("shortcut_bound", JsonValue::Bool(h.shortcut_bound)));
    f.push(json_field("bind_fail_count", JsonValue::Unsigned(h.bind_fail_count)));
    f.push(json_field("press_while_dikt_count", JsonValue::Unsigned(h.press_while_dikt_count)));
    f.push(json_field("stop_timeout_fallback_count", JsonValue::Unsigned(h.stop_timeout_fallback_count)));
    f.push(json_field("current_state", JsonValue::Text(h.current_state.clone())));
    f.push(json_field("shortcut_description", JsonValue::Text(h.shortcut_description.clone())));
    f.push(json_field("last_start_failure_code", JsonValue::Text(h.last_start_failure_code.clone())));
    f.push(json_field("last_start_failure_message", JsonValue::Text(h.last_start_failure_message.clone())));
    f.push(json_field("last_start_failure_ms", JsonValue::Unsigned(h.last_start_failure_ms)));
    f.push(json_field("last_stop_failure_message", JsonValue::Text(h.last_stop_failure_message.clone())));
    f.push(json_field("last_stop_failure_ms", JsonValue::Unsigned(h.last_stop_failure_ms)));
    f.push(json_field("pending_commit_session_id", JsonValue::Unsigned(h.pending_commit_session_id)));
    f.push(json_field("pending_commit_age_ms", JsonValue::Unsigned(age)));
    f.push(json_field("engine_active", JsonValue::Bool(h.focused_engine_id != 0)));
    f.push(json_field("focused_engine_id", JsonValue::Unsigned(h.focused_engine_id)));
    f.push(json_field("engine_last_change_ms", JsonValue::Unsigned(h.engine_last_change_ms)));
    f.push(json_field("last_switch_attempt_ms", JsonValue::Unsigned(h.last_switch_attempt_ms)));
    f.push(json_field("last_switch_confirm_latency_ms", JsonValue::Unsigned(h.last_switch_confirm_latency_ms)));
    f.push(json_field("last_switch_failure_message", JsonValue::Text(h.last_switch_failure_message.clone())));
    f.push(json_field("last_dbus_error", JsonValue::Text(h.last_dbus_error.clone())));
    f.push(json_field("last_dbus_error_ms", JsonValue::Unsigned(h.last_dbus_error_ms)));
    f.push(json_field("recent_event_count", JsonValue::Unsigned(events as u64)));
    assert(json::field_views(f@) =~= diagnostics_fields(h@, events as nat, now_ms));
    proof {
        lemma_keys_are_plain(h@, events as nat, now_ms);
    }
    write_object(&f)
}

/// The health at length at the given time, as JSON.
pub fn toggle_diagnostics_verbose_json_at(
    health: Option<&ToggleRuntimeHealth>,
    events: Option<&ToggleEvents>,
    now_ms: u64,
) -> (r: String)
    ensures
        r@ == json::object_text(reported_fields(health, events, now_ms)),
        json::all_read_back(r@, reported_fields(health, events, now_ms)),
{
    match health {
        Some(h) => {
            let n: usize = match events {
                Some(e) => e.count(),
                None => 0,
            };
            health_json(h, n, now_ms)
        },
        None => {
            let h = ToggleRuntimeHealth::unreadable();
            health_json(&h, 0, now_ms)
        },
    }
}

/// The health at length, as JSON.
pub fn toggle_diagnostics_verbose_json(
    health: Option<&ToggleRuntimeHealth>,
    events: Option<&ToggleEvents>,
) -> (r: String)
    ensures
        exists|now_ms: u64|
            r@ == json::object_text(#[trigger] reported_fields(health, events, now_ms))
                && json::all_read_back(r@, reported_fields(health, events, now_ms)),
{
    let now_ms: u64 = now_millis();
    toggle_diagnostics_verbose_json_at(health, events, now_ms)
}

/// The latest event is always remembered, the order is kept, and no more are kept than there is
/// room for.
pub proof fn law_events_are_bounded(events: Seq<Seq<char>>, line: Seq<char>)
    requires
        events.len() <= TOGGLE_EVENT_HISTORY_LIMIT,
    ensures
        0 < remembered(events, line).len() <= TOGGLE_EVENT_HISTORY_LIMIT,
        remembered(events, line).last() == line,
        remembered(events, line).drop_last().is_suffix_of(events),
        events.len() < TOGGLE_EVENT_HISTORY_LIMIT ==> remembered(events, line) == events.push(line),
{
    let r = remembered(events, line).drop_last();
    assert(events.subrange(events.len() - r.len(), events.len() as int) =~= r);
}

/// The events that are remembered once all of these have happened.
pub open spec fn all_remembered(lines: Seq<Seq<char>>) -> Seq<Seq<char>>
    decreases lines.len(),
{
    if lines.len() == 0 {
        Seq::empty()
    } else {
        remembered(all_remembered(lines.drop_last()), lines.last())
    }
}

/// However many events have happened, those remembered are the latest ones, as many as there is room
/// for, in the order in which they happened.
pub proof fn law_latest_events_are_remembered(lines: Seq<Seq<char>>)
    ensures
        all_remembered(lines) == (if lines.len() > TOGGLE_EVENT_HISTORY_LIMIT {
            lines.skip(lines.len() - TOGGLE_EVENT_HISTORY_LIMIT)
        } else {
            lines
        }),
    decreases lines.len(),
{
    if lines.len() > 0 {
        law_latest_events_are_remembered(lines.drop_last());
        let limit: int = TOGGLE_EVENT_HISTORY_LIMIT as int;
        let before = all_remembered(lines.drop_last());
        assert(lines.drop_last().push(lines.last()) =~= lines);
        if lines.len() > limit {
            let all = before.push(lines.last());
            assert(all.skip(all.len() - limit) =~= lines.skip(lines.len() - limit));
        }
    }
}

/// After a notification, none is due before the cooldown has passed.
pub proof fn law_notifications_keep_their_distance(h: HealthView, first_ms: u64, then_ms: u64)
    requires
        notification_due(h, first_ms),
        first_ms <= then_ms < first_ms + FAILURE_NOTIFICATION_COOLDOWN_MS,
    ensures
        !notification_due(HealthView { last_notification_ms: first_ms, ..h }, then_ms),
{
}

/// An error that is not the keyboard listener's never unbinds the shortcut, and any error leaves
/// what is known of past failures.
pub proof fn law_errors_keep_history(h: HealthView, code: Seq<char>, message: Seq<char>)
    ensures
        !is_listener_error(code) ==> erred(h, code, message).shortcut_bound == h.shortcut_bound
            && erred(h, code, message).listener_session_ok == h.listener_session_ok && erred(
            h,
            code,
            message,
        ).bind_fail_count == h.bind_fail_count,
        erred(h, code, message).bind_fail_count >= h.bind_fail_count,
        !erred(h, code, message).healthy,
        erred(h, code, message).last_success_ms == h.last_success_ms,
{
}

/// A success makes the shortcut healthy: it listens and is bound. An error makes it unhealthy, with
/// its code and message; only one of the keyboard listener ends the listening, and only one that
/// speaks of the binding or of a permission unbinds the shortcut, which is counted.
pub proof fn law_errors_and_successes_are_told(
    h: HealthView,
    code: Seq<char>,
    message: Seq<char>,
    now_ms: u64,
)
    ensures
        ({
            let ok = succeeded(h, message, now_ms);
            &&& ok.healthy && ok.listener_session_ok && ok.shortcut_bound
            &&& ok.code == "ok"@ && ok.message == message && ok.last_success_ms == now_ms
            &&& ok.bind_fail_count == h.bind_fail_count && ok.current_state == h.current_state
        }),
        ({
            let bad = erred(h, code, message);
            let of_listener = code.len() >= 6 && code.take(6) == "evdev_"@;
            let of_binding = of_listener && (text::occurs_in(code, "bind"@) || text::occurs_in(
                code,
                "permission"@,
            ));
            &&& !bad.healthy && bad.code == code && bad.message == message
            &&& of_listener ==> !bad.listener_session_ok
            &&& !of_listener ==> bad.listener_session_ok == h.listener_session_ok
            &&& of_binding ==> !bad.shortcut_bound && (h.bind_fail_count < u64::MAX
                ==> bad.bind_fail_count == h.bind_fail_count + 1)
            &&& !of_binding ==> bad.shortcut_bound == h.shortcut_bound && bad.bind_fail_count
                == h.bind_fail_count
            &&& bad.last_success_ms == h.last_success_ms && bad.current_state == h.current_state
        }),
{
    reveal_strlit("evdev_");
    if code.len() >= 6 {
        assert(code.subrange(0, 6) =~= code.take(6));
    }
}

/// A failure is notified whenever the last notification was at least eight seconds ago, and not
/// sooner. A final text has been waited for since its session was stopped, where one is.
pub proof fn law_notifications_come_every_eight_seconds(h: HealthView, now_ms: u64)
    ensures
        notification_due(h, now_ms) <==> now_ms - h.last_notification_ms >= 8000,
        h.pending_commit_session_id == 0 ==> pending_age(h, now_ms) == 0,
        h.pending_commit_session_id != 0 && now_ms >= h.pending_commit_mark_ms ==> pending_age(
            h,
            now_ms,
        ) == now_ms - h.pending_commit_mark_ms,
{
}

/// A health that cannot be read is told as such, and as not healthy. Before anything has happened
/// nothing is counted, nothing has failed and nothing is waited for.
pub proof fn law_unreadable_health_is_not_healthy()
    ensures
        !unreadable_health().healthy,
        unreadable_health().code == "lock_poisoned"@,
        !unreadable_health().listener_session_ok,
        !unreadable_health().shortcut_bound,
        !initial_health().healthy,
        ({
            let h = initial_health();
            let u = unreadable_health();
            &&& h.bind_fail_count == 0 && h.press_while_dikt_count == 0
                && h.stop_timeout_fallback_count == 0
            &&& h.last_success_ms == 0 && h.last_notification_ms == 0 && h.last_start_failure_ms == 0
                && h.last_stop_failure_ms == 0 && h.last_dbus_error_ms == 0
            &&& h.last_switch_attempt_ms == 0 && h.last_switch_confirm_latency_ms == 0
            &&& h.focused_engine_id == 0 && h.engine_last_change_ms == 0
                && h.pending_commit_session_id == 0 && h.pending_commit_mark_ms == 0
            &&& h.last_start_failure_message.len() == 0 && h.last_stop_failure_message.len() == 0
                && h.last_switch_failure_message.len() == 0 && h.last_dbus_error.len() == 0
            &&& h.current_state == "idle"@ && u.current_state == "unknown"@
            &&& u.last_start_failure_message == u.message && u.last_dbus_error
                == "health_state lock poisoned"@
            &&& u.bind_fail_count == 0 && u.pending_commit_session_id == 0 && u.focused_engine_id
                == 0
        }),
{
}

/// What is reported is the health as it is, with how many events are remembered; where it cannot be
/// read, that it cannot. Which session's text is waited for, and for how long, is part of it.
pub proof fn law_health_is_reported(
    health: &ToggleRuntimeHealth,
    events: &ToggleEvents,
    now_ms: u64,
)
    ensures
        ({
            let f = reported_fields(Some(health), Some(events), now_ms);
            let h = health@;
            &&& f.contains(("recent_event_count"@, JsonView::Unsigned(events@.len() as u64)))
            &&& f.contains(("component"@, JsonView::Text(h.component)))
            &&& f.contains(
                ("pending_commit_session_id"@, JsonView::Unsigned(h.pending_commit_session_id)),
            )
            &&& f.contains(("last_switch_attempt_ms"@, JsonView::Unsigned(h.last_switch_attempt_ms)))
            &&& h.pending_commit_session_id != 0 && now_ms >= h.pending_commit_mark_ms
                ==> f.contains(
                (
                    "pending_commit_age_ms"@,
                    JsonView::Unsigned((now_ms - h.pending_commit_mark_ms) as u64),
                ),
            )
            &&& f.contains(("engine_active"@, JsonView::Bool(h.focused_engine_id != 0)))
        }),
        ({
            let f = reported_fields(Some(health), None, now_ms);
            &&& f.contains(("recent_event_count"@, JsonView::Unsigned(0)))
            &&& f.contains(("code"@, JsonView::Text(health@.code)))
        }),
        ({
            let f = reported_fields(None, Some(events), now_ms);
            &&& f.contains(("recent_event_count"@, JsonView::Unsigned(0)))
            &&& f.contains(("code"@, JsonView::Text("lock_poisoned"@)))
            &&& f.contains(("healthy"@, JsonView::Bool(false)))
        }),
        succeeded(health@, health@.message, now_ms).component == "global_shortcuts"@,
{
    let f = reported_fields(Some(health), Some(events), now_ms);
    assert(f[27].0 == "recent_event_count"@ && f[1].0 == "component"@ && f[17].0
        == "pending_commit_session_id"@ && f[18].0 == "pending_commit_age_ms"@ && f[19].0
        == "engine_active"@ && f[22].0 == "last_switch_attempt_ms"@);
    let g = reported_fields(Some(health), None, now_ms);
    assert(g[27].0 == "recent_event_count"@ && g[2].0 == "code"@);
    let u = reported_fields(None, Some(events), now_ms);
    assert(u[27].0 == "recent_event_count"@ && u[2].0 == "code"@ && u[0].0 == "healthy"@);
}

/// Sixty events are remembered, the latest; up to then every one is.
pub proof fn law_sixty_events_are_remembered(events: Seq<Seq<char>>, line: Seq<char>)
    ensures
        remembered(events, line).last() == line,
        events.len() < 60 ==> remembered(events, line).drop_last() == events,
        events.len() == 60 ==> remembered(events, line).drop_last() == events.skip(1),
{
    let all = remembered(events, line);
    if events.len() < 60 {
        assert(all.drop_last() =~= events);
    }
    if events.len() == 60 {
        assert(all.drop_last() =~= events.skip(1));
    }
}

} // verus!
