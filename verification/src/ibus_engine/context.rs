//! What the input-method engine knows of itself.
//!
//! An engine is known by its number, 0 where there is none. The calls to the service and to the
//! input method are the caller's.

use super::listener;
use super::listener::{ClaimView, SessionClaim};
use crate::text;
use crate::text::trim;
use vstd::prelude::*;
use vstd::string::*;

verus! {

/// How long the main loop waits between two looks at the commands, in milliseconds.
pub const COMMAND_POLL_INTERVAL_MS: u32 = 60;

/// How long an engine that is being disabled waits for its session's text, in milliseconds.
pub const DISABLE_PENDING_COMMIT_TIMEOUT_MS: u64 = 80;

/// What the context holds.
pub struct ContextView {
    pub is_focused: bool,
    pub is_enabled: bool,
    pub notification_shown: bool,
    pub listening: bool,
    pub engine_id: Option<u64>,
    pub claim: Option<ClaimView>,
}

/// The engine's own state.
pub struct DiktContext {
    is_focused: bool,
    is_enabled: bool,
    notification_shown: bool,
    listening: bool,
    current_engine_id: Option<u64>,
    last_session_claim: Option<SessionClaim>,
}

impl View for DiktContext {
    type V = ContextView;

    closed spec fn view(&self) -> ContextView {
        ContextView {
            is_focused: self.is_focused,
            is_enabled: self.is_enabled,
            notification_shown: self.notification_shown,
            listening: self.listening,
            engine_id: self.current_engine_id,
            claim: listener::claim_view(self.last_session_claim),
        }
    }
}

/// What a new context holds.
pub open spec fn idle() -> ContextView {
    ContextView {
        is_focused: false,
        is_enabled: false,
        notification_shown: false,
        listening: false,
        engine_id: None,
        claim: None,
    }
}

/// The context once an engine has been enabled; without a connection the listener and the question
/// about the service's state wait.
pub open spec fn enabled(s: ContextView, engine_id: u64, connected: bool) -> ContextView {
    ContextView {
        is_enabled: true,
        engine_id: Some(engine_id),
        listening: s.listening || connected,
        notification_shown: s.notification_shown || connected,
        ..s
    }
}

/// The context once the disabling of its engine has begun.
pub open spec fn disable_begun(s: ContextView) -> ContextView {
    ContextView { listening: false, ..s }
}

/// The context once the disabling of its engine has ended.
pub open spec fn disable_ended(s: ContextView) -> ContextView {
    ContextView { listening: s.listening, ..idle() }
}

/// What the service is told of an engine's focus: nothing where there is no engine.
pub open spec fn focus_report(engine_id: u64, focused: bool) -> Option<(u64, bool)> {
    if engine_id == 0 {
        None
    } else {
        Some((engine_id, focused))
    }
}

fn report_focus(engine_id: u64, focused: bool) -> (r: Option<(u64, bool)>)
    ensures
        r == focus_report(engine_id, focused),
{
    if engine_id == 0 {
        None
    } else {
        Some((engine_id, focused))
    }
}

/// What happens to the listener of an engine.
#[derive(Clone, Copy, Debug, PartialEq, Eq, Structural)]
pub enum ListenerPlan {
    /// The running listener goes on.
    Keep,
    /// The running listener is told to stop, and a new one starts.
    Replace,
    /// A new one starts.
    Start,
}

/// What happens to the listener when an engine needs one.
pub open spec fn listener_plan(s: ContextView, engine_id: u64) -> ListenerPlan {
    if !s.listening {
        ListenerPlan::Start
    } else if s.engine_id == Some(engine_id) {
        ListenerPlan::Keep
    } else {
        ListenerPlan::Replace
    }
}

/// What enabling an engine leads to.
pub struct EnablePlan {
    /// What the service is told of the focus.
    pub focus: Option<(u64, bool)>,
    pub listener: ListenerPlan,
    /// Whether the service is asked if it is ready to work.
    pub ask_state: bool,
}

/// A notice for the user.
#[derive(Clone, Copy, Debug, PartialEq, Eq, Structural)]
pub enum StateNotice {
    /// No speech model is configured.
    NoModel,
    /// The service is not running.
    NoService,
}

/// The notice that an answer about the service's state calls for: the answer is missing where the
/// call failed, and empty where it could not be read.
pub fn state_notice(has_model: Option<Option<bool>>) -> (r: Option<StateNotice>)
    ensures
        r == (match has_model {
            None => Some(StateNotice::NoService),
            Some(Some(false)) => Some(StateNotice::NoModel),
            _ => None,
        }),
{
    match has_model {
        None => Some(StateNotice::NoService),
        Some(Some(has)) => if has {
            None
        } else {
            Some(StateNotice::NoModel)
        },
        Some(None) => None,
    }
}

/// A notice's text.
pub fn notice_body(notice: StateNotice) -> (r: &'static str)
    ensures
        r@ == (match notice {
            StateNotice::NoModel => "No speech model configured. Click to open preferences."@,
            StateNotice::NoService => {
                "Dikt service is not running. Click to open preferences and start it."@
            },
        }),
{
    match notice {
        StateNotice::NoModel => "No speech model configured. Click to open preferences.",
        StateNotice::NoService => {
            "Dikt service is not running. Click to open preferences and start it."
        },
    }
}

/// The text that is committed from an answer about a session's finished text, if there is any. The
/// answer is missing where it did not come in time.
pub fn pending_text(reply: Option<(bool, String)>) -> (r: Option<String>)
    ensures
        text::opt_view(r) == (match reply {
            Some((has_text, t)) => if listener::shows(has_text, t@) {
                Some(text::trimmed(t@))
            } else {
                None
            },
            None => None,
        }),
{
    match reply {
        Some((has_text, t)) => {
            if !has_text {
                return None;
            }
            let trimmed = trim(t.as_str());
            if trimmed.as_str().is_empty() {
                None
            } else {
                Some(trimmed)
            }
        },
        None => None,
    }
}

impl DiktContext {
    /// A context without an engine.
    pub fn new() -> (r: DiktContext)
        ensures
            r@ == idle(),
    {
        DiktContext {
            is_focused: false,
            is_enabled: false,
            notification_shown: false,
            listening: false,
            current_engine_id: None,
            last_session_claim: None,
        }
    }

    /// The engine has got the focus: what the service is told.
    pub fn focus_in(&mut self, engine_id: u64) -> (r: Option<(u64, bool)>)
        ensures
            final(self)@ == (ContextView { is_focused: true, ..old(self)@ }),
            r == focus_report(engine_id, true),
    {
        self.is_focused = true;
        report_focus(engine_id, true)
    }

    /// The engine has lost the focus: what the service is told. Its preedit goes away.
    pub fn focus_out(&mut self, engine_id: u64) -> (r: Option<(u64, bool)>)
        ensures
            final(self)@ == (ContextView { is_focused: false, ..old(self)@ }),
            r == focus_report(engine_id, false),
    {
        self.is_focused = false;
        report_focus(engine_id, false)
    }

    /// What happens to the listener when an engine needs one.
    pub fn ensure_pending_commit_listener(&mut self, engine_id: u64) -> (r: ListenerPlan)
        ensures
            r == listener_plan(old(self)@, engine_id),
            final(self)@ == (ContextView { listening: true, ..old(self)@ }),
    {
        if self.listening {
            if let Some(id) = self.current_engine_id {
                if id == engine_id {
                    return ListenerPlan::Keep;
                }
            }
            return ListenerPlan::Replace;
        }
        self.listening = true;
        ListenerPlan::Start
    }

    /// Enables an engine. Without a connection to the bus nothing more happens.
    pub fn enable(&mut self, engine_id: u64, connected: bool) -> (r: Option<EnablePlan>)
        ensures
            final(self)@ == enabled(old(self)@, engine_id, connected),
            match r {
                Some(plan) => {
                    &&& connected
                    &&& plan.focus == focus_report(engine_id, old(self)@.is_focused)
                    &&& plan.listener == (if old(self)@.listening {
                        ListenerPlan::Keep
                    } else {
                        ListenerPlan::Start
                    })
                    &&& plan.ask_state == !old(self)@.notification_shown
                },
                None => !connected,
            },
    {
        self.is_enabled = true;
        self.current_engine_id = Some(engine_id);
        if !connected {
            return None;
        }
        let focus = report_focus(engine_id, self.is_focused);
        let plan = self.ensure_pending_commit_listener(engine_id);
        let ask_state = !self.notification_shown;
        self.notification_shown = true;
        Some(EnablePlan { focus, listener: plan, ask_state })
    }

    /// Begins to disable an engine: what the service is told of the focus, and the claim by which
    /// the session's text is still fetched. The listener is told to stop.
    pub fn begin_disable(&mut self, engine_id: u64) -> (r: (
        Option<(u64, bool)>,
        Option<SessionClaim>,
    ))
        ensures
            r.0 == focus_report(engine_id, false),
            listener::claim_view(r.1) == old(self)@.claim,
            final(self)@ == disable_begun(old(self)@),
    {
        self.listening = false;
        let claim = match &self.last_session_claim {
            Some(c) => Some(
                SessionClaim { session_id: c.session_id, claim_token: c.claim_token.clone() },
            ),
            None => None,
        };
        (report_focus(engine_id, false), claim)
    }

    /// Ends the disabling of an engine.
    pub fn end_disable(&mut self)
        ensures
            final(self)@ == disable_ended(old(self)@),
    {
        self.is_enabled = false;
        self.is_focused = false;
        self.notification_shown = false;
        self.current_engine_id = None;
        self.last_session_claim = None;
    }

    /// Takes note of the claim that the listener has got.
    pub fn set_claim(&mut self, claim: Option<SessionClaim>)
        ensures
            final(self)@ == (ContextView { claim: listener::claim_view(claim), ..old(self)@ }),
    {
        self.last_session_claim = claim;
    }

    /// Whether the engine has the focus.
    pub fn is_focused(&self) -> (r: bool)
        ensures
            r == self@.is_focused,
    {
        self.is_focused
    }

    /// Whether the engine is enabled.
    pub fn is_enabled(&self) -> (r: bool)
        ensures
            r == self@.is_enabled,
    {
        self.is_enabled
    }

    /// Whether a key is kept from the application: none ever is.
    pub fn process_key_event(&self, _keyval: u32, _keycode: u32, _modifiers: u32) -> (handled: bool)
        ensures
            !handled,
    {
        false
    }
}

/// An engine that is disabled leaves no trace, whatever it went through: the context is as new.
pub proof fn law_disabled_engine_leaves_no_trace(s: ContextView)
    ensures
        disable_ended(disable_begun(s)) == idle(),
{
}

/// The service is asked for its state once until the engine is disabled, and after an engine with a
/// connection is enabled a listener runs: a new one, or the one that ran before, for whichever
/// engine that was. Enabling twice leaves what enabling the second time alone leaves.
pub proof fn law_enabling_leaves_a_listener(s: ContextView, first: u64, second: u64)
    ensures
        enabled(s, first, true).listening,
        enabled(s, first, true).notification_shown,
        enabled(enabled(s, first, true), second, true) == enabled(s, second, true),
{
}

/// An engine that is enabled is the current one. With a connection a listener runs afterwards and
/// the service's state has been asked for; without one both are as they were. The focus stays.
pub proof fn law_enabled_engine_is_current(s: ContextView, engine_id: u64)
    ensures
        ({
            let on = enabled(s, engine_id, true);
            let off = enabled(s, engine_id, false);
            &&& on.is_enabled && on.engine_id == Some(engine_id) && on.listening
                && on.notification_shown
            &&& off.is_enabled && off.engine_id == Some(engine_id) && off.listening == s.listening
                && off.notification_shown == s.notification_shown
            &&& on.is_focused == s.is_focused && off.is_focused == s.is_focused
            &&& on.claim == s.claim && off.claim == s.claim
        }),
{
}

/// An engine that needs a listener gets one: a new one where none runs or where the running one is
/// another engine's, and its own goes on.
pub proof fn law_listener_is_the_engines_own(s: ContextView, engine_id: u64)
    ensures
        !s.listening ==> listener_plan(s, engine_id) == ListenerPlan::Start,
        s.listening && s.engine_id == Some(engine_id) ==> listener_plan(s, engine_id)
            == ListenerPlan::Keep,
        s.listening && s.engine_id != Some(engine_id) ==> listener_plan(s, engine_id)
            == ListenerPlan::Replace,
{
}

/// The service is told of every engine's focus, gained or lost, but not of engine 0. When a disabling
/// begins the listener stops and the rest stays until it ends; then nothing is left.
pub proof fn law_focus_is_reported_and_disabling_clears(
    s: ContextView,
    engine_id: u64,
    focused: bool,
)
    ensures
        engine_id != 0 ==> focus_report(engine_id, focused) == Some((engine_id, focused)),
        engine_id == 0 ==> focus_report(engine_id, focused) is None,
        !disable_begun(s).listening,
        disable_begun(s).claim == s.claim && disable_begun(s).engine_id == s.engine_id,
        !disable_ended(s).is_enabled && !disable_ended(s).is_focused && !disable_ended(
            s,
        ).notification_shown,
        disable_ended(s).engine_id is None && disable_ended(s).claim is None,
        disable_ended(s).listening == s.listening,
{
}

} // verus!
