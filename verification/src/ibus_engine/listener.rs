//! The listener of an enabled engine.
//!
//! It asks the service, again and again, which session the engine may show, shows that session's
//! live text as preedit, and commits its finished text. The calls to the service, the naps between
//! them and the queue of commands are its caller's.

use super::commands;
use super::commands::{CommandView, EngineCommand};
use crate::counter;
use crate::counter::{saturating_next, wrapping_next};
use crate::dbus::pending_commit;
use crate::dbus::sessions;
use crate::dbus::sessions::StateView;
use crate::text;
use crate::text::{chars_of, contains, same_text, trim};
use vstd::prelude::*;
use vstd::string::*;

verus! {

/// How long the listener sleeps between two rounds, in milliseconds.
pub const PENDING_COMMIT_POLL_MS: u64 = 60;

/// After so many failures in a row the connection is made anew.
pub const PENDING_COMMIT_FAILURE_RECONNECT_THRESHOLD: u64 = 5;

/// The live text is asked for once in so many rounds.
pub const LIVE_PREEDIT_POLL_TICKS: u64 = 4;

/// The same live text is shown anew once it has been read so many times.
pub const LIVE_PREEDIT_REFRESH_TICKS: u64 = 5;

/// A session, with the token that gives access to it.
pub struct SessionClaim {
    pub session_id: u64,
    pub claim_token: String,
}

/// What a claim holds.
pub struct ClaimView {
    pub session_id: u64,
    pub claim_token: Seq<char>,
}

impl View for SessionClaim {
    type V = ClaimView;

    open spec fn view(&self) -> ClaimView {
        ClaimView { session_id: self.session_id, claim_token: self.claim_token@ }
    }
}

/// What a claim, if there is one, holds.
pub open spec fn claim_view(c: Option<SessionClaim>) -> Option<ClaimView> {
    match c {
        Some(c) => Some(c@),
        None => None,
    }
}

/// What the service said of the engine's session.
pub enum ActiveReply {
    Answer { session_id: u64, claim_token: String, allow_preedit: bool },
    /// The answer could not be read.
    Invalid,
    /// The call failed.
    Failed,
}

/// What the service said of the session's live text.
pub enum LiveReply {
    Answer { revision: u64, visible: bool, text: String },
    /// The answer could not be read.
    Invalid,
    /// The call failed, for this reason.
    Failed { detail: String },
}

/// What the service said of the session's finished text.
pub enum TakeReply {
    Answer { has_text: bool, text: String },
    /// The answer could not be read.
    Invalid,
    /// The call failed.
    Failed,
}

/// What the listener does next.
#[derive(Clone, Copy, Debug, PartialEq, Eq, Structural)]
pub enum ListenerStep {
    /// The round is over.
    Sleep,
    /// Make the connection anew; the round is over.
    Reconnect,
    /// Ask for the session's live text.
    AskLive,
    /// Ask for the session's finished text.
    AskPending,
    /// The listener ends.
    Stop,
}

/// What the listener remembers.
pub struct ListenerView {
    pub engine_id: u64,
    pub failure_streak: u64,
    pub poll_tick: u64,
    pub live_supported: bool,
    pub last_revision: u64,
    pub last_visible: bool,
    pub last_text: Seq<char>,
    pub refresh_tick: u64,
    pub session_id: u64,
    pub claim_token: Seq<char>,
}

/// The listener of an engine.
pub struct PendingCommitListener {
    engine_id: u64,
    failure_streak: u64,
    poll_tick: u64,
    live_preedit_supported: bool,
    last_live_revision: u64,
    last_live_visible: bool,
    last_live_text: String,
    live_refresh_tick: u64,
    active_session_id: u64,
    active_claim_token: String,
}

impl View for PendingCommitListener {
    type V = ListenerView;

    closed spec fn view(&self) -> ListenerView {
        ListenerView {
            engine_id: self.engine_id,
            failure_streak: self.failure_streak,
            poll_tick: self.poll_tick,
            live_supported: self.live_preedit_supported,
            last_revision: self.last_live_revision,
            last_visible: self.last_live_visible,
            last_text: self.last_live_text@,
            refresh_tick: self.live_refresh_tick,
            session_id: self.active_session_id,
            claim_token: self.active_claim_token@,
        }
    }
}

/// What a new listener remembers.
pub open spec fn fresh(engine_id: u64) -> ListenerView {
    ListenerView {
        engine_id,
        failure_streak: 0,
        poll_tick: 0,
        live_supported: true,
        last_revision: 0,
        last_visible: false,
        last_text: Seq::empty(),
        refresh_tick: 0,
        session_id: 0,
        claim_token: Seq::empty(),
    }
}

/// The listener after a failed call.
pub open spec fn after_failure(s: ListenerView) -> ListenerView {
    ListenerView { failure_streak: counter::saturated_next(s.failure_streak), ..s }
}

/// What follows a failed call.
pub open spec fn failure_step(s: ListenerView) -> ListenerStep {
    if after_failure(s).failure_streak >= PENDING_COMMIT_FAILURE_RECONNECT_THRESHOLD {
        ListenerStep::Reconnect
    } else {
        ListenerStep::Sleep
    }
}

/// The session and its token are both there.
pub open spec fn has_claim(s: ListenerView) -> bool {
    s.session_id != 0 && s.claim_token.len() > 0
}

/// The listener once its session may have changed.
pub open spec fn with_session(s: ListenerView, session_id: u64, token: Seq<char>) -> ListenerView {
    if session_id != s.session_id || token != s.claim_token {
        ListenerView {
            failure_streak: 0,
            last_revision: 0,
            last_visible: false,
            last_text: Seq::empty(),
            refresh_tick: 0,
            session_id,
            claim_token: token,
            ..s
        }
    } else {
        ListenerView { failure_streak: 0, ..s }
    }
}

/// What follows once the session is known.
pub open spec fn session_step(s: ListenerView, allow_preedit: bool) -> ListenerStep {
    if !has_claim(s) {
        ListenerStep::Sleep
    } else if s.live_supported && allow_preedit && s.poll_tick % LIVE_PREEDIT_POLL_TICKS == 0 {
        ListenerStep::AskLive
    } else {
        ListenerStep::AskPending
    }
}

/// Preedit is shown that the session no longer allows.
pub open spec fn must_hide(s: ListenerView, allow_preedit: bool) -> bool {
    has_claim(s) && !allow_preedit && s.last_visible
}

/// The listener after the service has named the engine's session.
pub open spec fn after_session(
    s: ListenerView,
    session_id: u64,
    token: Seq<char>,
    allow_preedit: bool,
) -> ListenerView {
    let n = with_session(s, session_id, token);
    if must_hide(n, allow_preedit) {
        ListenerView { last_visible: false, last_text: Seq::empty(), refresh_tick: 0, ..n }
    } else {
        n
    }
}

/// The preedit goes away when the service names the engine's session.
pub open spec fn session_hides(
    s: ListenerView,
    session_id: u64,
    token: Seq<char>,
    allow_preedit: bool,
) -> bool {
    let n = with_session(s, session_id, token);
    (s.last_visible && !n.last_visible) || must_hide(n, allow_preedit)
}

/// The live text is to be shown.
pub open spec fn shows(visible: bool, t: Seq<char>) -> bool {
    visible && !text::blank(t)
}

/// The preedit is given the live text: it is newer, other, not shown yet or due to be shown anew.
pub open spec fn applies(s: ListenerView, revision: u64, visible: bool, t: Seq<char>) -> bool {
    shows(visible, t) && (revision > s.last_revision || !s.last_visible || text::trimmed(t)
        != s.last_text || s.refresh_tick >= LIVE_PREEDIT_REFRESH_TICKS)
}

/// The preedit is taken away: there is nothing to show any more.
pub open spec fn live_hides(s: ListenerView, revision: u64, visible: bool, t: Seq<char>) -> bool {
    !shows(visible, t) && (s.last_visible || revision > s.last_revision)
}

/// The command that a live text leads to.
pub open spec fn live_command(
    s: ListenerView,
    revision: u64,
    visible: bool,
    t: Seq<char>,
) -> Option<CommandView> {
    if applies(s, revision, visible, t) {
        Some(
            CommandView::UpdatePreedit {
                engine_id: s.engine_id,
                text: text::trimmed(t),
                cursor_pos: (text::trimmed(t).len() % 0x1_0000_0000) as u32,
            },
        )
    } else if live_hides(s, revision, visible, t) {
        Some(CommandView::HidePreedit { engine_id: s.engine_id })
    } else {
        None
    }
}

/// The listener after it has read a live text.
pub open spec fn after_live(
    s: ListenerView,
    revision: u64,
    visible: bool,
    t: Seq<char>,
) -> ListenerView {
    ListenerView {
        refresh_tick: if live_command(s, revision, visible, t) is Some {
            0
        } else {
            counter::saturated_next(s.refresh_tick)
        },
        last_revision: if revision > s.last_revision {
            revision
        } else {
            s.last_revision
        },
        last_visible: shows(visible, t),
        last_text: if shows(visible, t) {
            text::trimmed(t)
        } else {
            Seq::empty()
        },
        ..s
    }
}

/// The command that a session's finished text leads to, none for a blank one.
pub open spec fn pending_command(s: ListenerView, has_text: bool, t: Seq<char>) -> Option<
    CommandView,
> {
    if shows(has_text, t) {
        Some(CommandView::CommitText { engine_id: s.engine_id, text: text::trimmed(t) })
    } else {
        None
    }
}

/// What a command, if there is one, holds.
pub open spec fn command_view(c: Option<EngineCommand>) -> Option<CommandView> {
    match c {
        Some(c) => Some(c@),
        None => None,
    }
}

/// What the listener does once the service has named the engine's session.
pub struct SessionStep {
    pub command: Option<EngineCommand>,
    /// The engine's claim changes to this, if the service has named one.
    pub claim: Option<Option<SessionClaim>>,
    pub next: ListenerStep,
}

/// The claim that a listener holds.
pub open spec fn held_claim(s: ListenerView) -> Option<ClaimView> {
    if has_claim(s) {
        Some(ClaimView { session_id: s.session_id, claim_token: s.claim_token })
    } else {
        None
    }
}

fn text_len_u32(s: &str) -> (n: u32)
    ensures
        n == (s@.len() % 0x1_0000_0000) as u32,
{
    let v = chars_of(s);
    (v.len() as u64 % 0x1_0000_0000u64) as u32
}

impl PendingCommitListener {
    /// A listener that knows of no session yet.
    pub fn new(engine_id: u64) -> (r: PendingCommitListener)
        ensures
            r@ == fresh(engine_id),
    {
        let r = PendingCommitListener {
            engine_id,
            failure_streak: 0,
            poll_tick: 0,
            live_preedit_supported: true,
            last_live_revision: 0,
            last_live_visible: false,
            last_live_text: String::new(),
            live_refresh_tick: 0,
            active_session_id: 0,
            active_claim_token: String::new(),
        };
        assert(r.last_live_text@ =~= Seq::<char>::empty());
        assert(r.active_claim_token@ =~= Seq::<char>::empty());
        r
    }

    /// The session and the token to ask with.
    pub fn claim(&self) -> (r: SessionClaim)
        ensures
            r@ == (ClaimView { session_id: self@.session_id, claim_token: self@.claim_token }),
    {
        SessionClaim {
            session_id: self.active_session_id,
            claim_token: self.active_claim_token.clone(),
        }
    }

    /// Begins a round.
    pub fn begin_round(&mut self)
        ensures
            final(self)@ == (ListenerView {
                poll_tick: counter::wrapped_next(old(self)@.poll_tick),
                ..old(self)@
            }),
    {
        self.poll_tick = wrapping_next(self.poll_tick);
    }

    fn call_failed(&mut self) -> (step: ListenerStep)
        ensures
            final(self)@ == after_failure(old(self)@),
            step == failure_step(old(self)@),
    {
        self.failure_streak = saturating_next(self.failure_streak);
        if self.failure_streak >= PENDING_COMMIT_FAILURE_RECONNECT_THRESHOLD {
            ListenerStep::Reconnect
        } else {
            ListenerStep::Sleep
        }
    }

    /// Takes note of whether the connection could be made anew.
    pub fn reconnected(&mut self, ok: bool)
        ensures
            final(self)@ == (if ok {
                ListenerView { failure_streak: 0, ..old(self)@ }
            } else {
                old(self)@
            }),
    {
        if ok {
            self.failure_streak = 0;
        }
    }

    /// Takes note of what the service said of the engine's session.
    pub fn on_active_reply(&mut self, reply: ActiveReply) -> (r: SessionStep)
        ensures
            match reply {
                ActiveReply::Answer { session_id, claim_token, allow_preedit } => {
                    &&& final(self)@ == after_session(
                        old(self)@,
                        session_id,
                        claim_token@,
                        allow_preedit,
                    )
                    &&& r.next == session_step(final(self)@, allow_preedit)
                    &&& command_view(r.command) == (if session_hides(
                        old(self)@,
                        session_id,
                        claim_token@,
                        allow_preedit,
                    ) {
                        Some(CommandView::HidePreedit { engine_id: old(self)@.engine_id })
                    } else {
                        None
                    })
                    &&& r.claim is Some
                    &&& claim_view(r.claim->0) == held_claim(final(self)@)
                },
                ActiveReply::Invalid => final(self)@ == old(self)@ && r.next == ListenerStep::Sleep
                    && r.command is None && r.claim is None,
                ActiveReply::Failed => final(self)@ == after_failure(old(self)@) && r.next
                    == failure_step(old(self)@) && r.command is None && r.claim is None,
            },
    {
        match reply {
            ActiveReply::Invalid => SessionStep {
                command: None,
                claim: None,
                next: ListenerStep::Sleep,
            },
            ActiveReply::Failed => {
                let next = self.call_failed();
                SessionStep { command: None, claim: None, next }
            },
            ActiveReply::Answer { session_id, claim_token, allow_preedit } => {
                let mut command: Option<EngineCommand> = None;
                self.failure_streak = 0;
                if session_id != self.active_session_id || !same_text(
                    claim_token.as_str(),
                    self.active_claim_token.as_str(),
                ) {
                    if self.last_live_visible {
                        command = Some(EngineCommand::HidePreedit { engine_id: self.engine_id });
                        self.last_live_visible = false;
                    }
                    self.last_live_revision = 0;
                    self.last_live_text = String::new();
                    self.live_refresh_tick = 0;
                    assert(self.last_live_text@ =~= Seq::<char>::empty());
                }
                self.active_session_id = session_id;
                self.active_claim_token = claim_token;
                assert(self@ == with_session(old(self)@, session_id, claim_token@));
                if self.active_session_id == 0 || self.active_claim_token.as_str().is_empty() {
                    return SessionStep {
                        command,
                        claim: Some(None),
                        next: ListenerStep::Sleep,
                    };
                }
                let claim = self.claim();
                let mut next = ListenerStep::AskPending;
                if self.live_preedit_supported && allow_preedit && self.poll_tick
                    % LIVE_PREEDIT_POLL_TICKS == 0 {
                    next = ListenerStep::AskLive;
                } else if !allow_preedit && self.last_live_visible {
                    command = Some(EngineCommand::HidePreedit { engine_id: self.engine_id });
                    self.last_live_visible = false;
                    self.last_live_text = String::new();
                    self.live_refresh_tick = 0;
                    assert(self.last_live_text@ =~= Seq::<char>::empty());
                }
                SessionStep { command, claim: Some(Some(claim)), next }
            },
        }
    }

    /// Takes note of what the service said of the session's live text. A listener that has been
    /// told to stop in the meantime stops where it would act on an answer.
    pub fn on_live_reply(&mut self, reply: LiveReply, cancelled: bool) -> (r: (
        Option<EngineCommand>,
        ListenerStep,
    ))
        ensures
            match reply {
                LiveReply::Answer { revision, visible, text } => if cancelled {
                    final(self)@ == old(self)@ && r.0 is None && r.1 == ListenerStep::Stop
                } else {
                    final(self)@ == after_live(old(self)@, revision, visible, text@)
                        && command_view(r.0) == live_command(
                        old(self)@,
                        revision,
                        visible,
                        text@,
                    ) && r.1 == ListenerStep::AskPending
                },
                LiveReply::Invalid => final(self)@ == old(self)@ && r.0 is None && r.1
                    == ListenerStep::AskPending,
                LiveReply::Failed { detail } => final(self)@ == (ListenerView {
                    live_supported: old(self)@.live_supported && !text::occurs_in(
                        detail@,
                        "UnknownMethod"@,
                    ),
                    ..old(self)@
                }) && r.0 is None && r.1 == ListenerStep::AskPending,
            },
    {
        match reply {
            LiveReply::Invalid => (None, ListenerStep::AskPending),
            LiveReply::Failed { detail } => {
                if contains(detail.as_str(), "UnknownMethod") {
                    self.live_preedit_supported = false;
                }
                (None, ListenerStep::AskPending)
            },
            LiveReply::Answer { revision, visible, text } => {
                if cancelled {
                    return (None, ListenerStep::Stop);
                }
                let preedit = trim(text.as_str());
                let should_show = visible && !preedit.as_str().is_empty();
                let mut command: Option<EngineCommand> = None;
                if should_show && (revision > self.last_live_revision || !self.last_live_visible
                    || !same_text(preedit.as_str(), self.last_live_text.as_str())
                    || self.live_refresh_tick >= LIVE_PREEDIT_REFRESH_TICKS) {
                    command = Some(
                        EngineCommand::UpdatePreedit {
                            engine_id: self.engine_id,
                            text: preedit.clone(),
                            cursor_pos: text_len_u32(preedit.as_str()),
                        },
                    );
                    self.live_refresh_tick = 0;
                } else if !should_show && (self.last_live_visible || revision
                    > self.last_live_revision) {
                    command = Some(EngineCommand::HidePreedit { engine_id: self.engine_id });
                    self.live_refresh_tick = 0;
                } else {
                    self.live_refresh_tick = saturating_next(self.live_refresh_tick);
                }
                if revision > self.last_live_revision {
                    self.last_live_revision = revision;
                }
                self.last_live_visible = should_show;
                if should_show {
                    self.last_live_text = preedit;
                } else {
                    self.last_live_text = String::new();
                    assert(self.last_live_text@ =~= Seq::<char>::empty());
                }
                (command, ListenerStep::AskPending)
            },
        }
    }

    /// Takes note of what the service said of the session's finished text. A listener that has
    /// been told to stop in the meantime stops where it would commit a text.
    pub fn on_pending_reply(&mut self, reply: TakeReply, cancelled: bool) -> (r: (
        Option<EngineCommand>,
        ListenerStep,
    ))
        ensures
            match reply {
                TakeReply::Failed => final(self)@ == after_failure(old(self)@) && r.0 is None
                    && r.1 == failure_step(old(self)@),
                TakeReply::Invalid => final(self)@ == (ListenerView {
                    failure_streak: 0,
                    ..old(self)@
                }) && r.0 is None && r.1 == ListenerStep::Sleep,
                TakeReply::Answer { has_text, text } => {
                    &&& final(self)@ == (ListenerView { failure_streak: 0, ..old(self)@ })
                    &&& if cancelled && pending_command(old(self)@, has_text, text@) is Some {
                        r.0 is None && r.1 == ListenerStep::Stop
                    } else {
                        r.1 == ListenerStep::Sleep && command_view(r.0) == pending_command(
                            old(self)@,
                            has_text,
                            text@,
                        )
                    }
                },
            },
    {
        match reply {
            TakeReply::Failed => {
                let next = self.call_failed();
                (None, next)
            },
            TakeReply::Invalid => {
                self.failure_streak = 0;
                (None, ListenerStep::Sleep)
            },
            TakeReply::Answer { has_text, text } => {
                self.failure_streak = 0;
                if !has_text {
                    return (None, ListenerStep::Sleep);
                }
                let final_text = trim(text.as_str());
                if final_text.as_str().is_empty() {
                    return (None, ListenerStep::Sleep);
                }
                if cancelled {
                    return (None, ListenerStep::Stop);
                }
                (
                    Some(EngineCommand::CommitText { engine_id: self.engine_id, text: final_text }),
                    ListenerStep::Sleep,
                )
            },
        }
    }
}

/// A preview that has been taken away in the listener's memory has been taken away on the screen
/// too: whenever a session's answer makes it forget the preview, it sends the command to hide it.
pub proof fn law_no_preview_is_left_over(
    s: ListenerView,
    session_id: u64,
    token: Seq<char>,
    allow_preedit: bool,
)
    ensures
        s.last_visible && !after_session(s, session_id, token, allow_preedit).last_visible
            <==> session_hides(s, session_id, token, allow_preedit),
{
}

/// Another session, or another token, starts with no preview and from the first revision.
pub proof fn law_new_session_starts_clean(
    s: ListenerView,
    session_id: u64,
    token: Seq<char>,
    allow_preedit: bool,
)
    requires
        session_id != s.session_id || token != s.claim_token,
    ensures
        !after_session(s, session_id, token, allow_preedit).last_visible,
        after_session(s, session_id, token, allow_preedit).last_revision == 0,
        after_session(s, session_id, token, allow_preedit).last_text.len() == 0,
{
}

/// After a live text has been read the preedit shows exactly that text, or nothing.
pub proof fn law_preedit_follows_the_live_text(
    s: ListenerView,
    revision: u64,
    visible: bool,
    t: Seq<char>,
)
    ensures
        after_live(s, revision, visible, t).last_visible == shows(visible, t),
        shows(visible, t) && live_command(s, revision, visible, t) is None ==> s.last_visible
            && s.last_text == text::trimmed(t),
        !shows(visible, t) && live_command(s, revision, visible, t) is None ==> !s.last_visible,
        after_live(s, revision, visible, t).last_revision >= s.last_revision,
{
}

/// A text read once is not sent again right away: reading it a second time sends no command.
pub proof fn law_same_live_text_is_sent_once(
    s: ListenerView,
    revision: u64,
    visible: bool,
    t: Seq<char>,
)
    ensures
        live_command(s, revision, visible, t) is Some ==> live_command(
            after_live(s, revision, visible, t),
            revision,
            visible,
            t,
        ) is None,
{
}

/// What was dictated reaches the application: the finished text of a session, once the service has
/// stored it, is what the listener with the session's claim gets, and it is committed to the
/// listener's engine after all that was committed before.
pub proof fn law_finished_text_reaches_the_application(
    service: StateView,
    l: ListenerView,
    queue: Seq<CommandView>,
    t: Seq<char>,
    now_ms: u64,
)
    requires
        sessions::consistent(service),
        has_claim(l),
        service.claims.contains_key(l.session_id),
        service.claims[l.session_id] == l.claim_token,
        pending_commit::none_claimed(service.pending.entries, l.session_id, l.claim_token),
        !text::blank(t),
    ensures
        ({
            let stored = sessions::with_pending(service, l.session_id, t, now_ms);
            let answer = pending_commit::taken(stored.pending, l.session_id, l.claim_token);
            let command = pending_command(l, answer.1, answer.2);
            &&& command is Some
            &&& commands::committed(commands::calls_for(queue.push(command->0), l.engine_id))
                == commands::commits_for(queue, l.engine_id).push(text::trimmed(t))
        }),
{
    sessions::law_text_goes_to_its_claim(service, l.session_id, t, now_ms);
    let command = CommandView::CommitText { engine_id: l.engine_id, text: text::trimmed(t) };
    commands::law_every_text_is_committed(queue.push(command), l.engine_id);
    assert(queue.push(command).drop_last() =~= queue);
}

/// The fifth failure in a row, and any after it, has the connection made anew; fewer only end the
/// round.
pub proof fn law_fifth_failure_reconnects(s: ListenerView)
    ensures
        s.failure_streak >= 4 ==> failure_step(s) == ListenerStep::Reconnect,
        s.failure_streak < 4 ==> failure_step(s) == ListenerStep::Sleep,
        s.failure_streak < u64::MAX ==> after_failure(s).failure_streak == s.failure_streak + 1,
        after_failure(s).session_id == s.session_id && after_failure(s).claim_token == s.claim_token
            && after_failure(s).last_visible == s.last_visible,
{
}

/// The listener takes on whatever session the service names, with its token. With both it goes on to
/// ask for texts: in every fourth round for the live text, where the session allows a preview and
/// the service has one to give, and otherwise for the finished one. Without a session or a token it
/// sleeps and holds no claim.
pub proof fn law_named_session_is_followed(
    s: ListenerView,
    session_id: u64,
    token: Seq<char>,
    allow_preedit: bool,
)
    ensures
        ({
            let n = after_session(s, session_id, token, allow_preedit);
            let step = session_step(n, allow_preedit);
            &&& n.session_id == session_id && n.claim_token == token && n.failure_streak == 0
            &&& n.engine_id == s.engine_id && n.poll_tick == s.poll_tick && n.live_supported
                == s.live_supported
            &&& session_id == 0 || token.len() == 0 ==> step == ListenerStep::Sleep && held_claim(n)
                is None
            &&& session_id != 0 && token.len() > 0 ==> held_claim(n) == Some(
                ClaimView { session_id, claim_token: token },
            )
            &&& session_id != 0 && token.len() > 0 && s.live_supported && allow_preedit && s.poll_tick
                % 4 == 0 ==> step == ListenerStep::AskLive
            &&& session_id != 0 && token.len() > 0 && !(s.live_supported && allow_preedit
                && s.poll_tick % 4 == 0) ==> step == ListenerStep::AskPending
            &&& session_id == s.session_id && token == s.claim_token && (allow_preedit || session_id
                == 0 || token.len() == 0) ==> n.last_visible == s.last_visible && n.last_text
                == s.last_text && n.last_revision == s.last_revision && n.refresh_tick
                == s.refresh_tick
            &&& session_id != 0 && token.len() > 0 && !allow_preedit ==> !n.last_visible
        }),
{
}

/// The preview is hidden when another session or token comes, or when its session no longer allows
/// one; and only if it was shown.
pub proof fn law_preview_is_hidden_with_its_session(
    s: ListenerView,
    session_id: u64,
    token: Seq<char>,
    allow_preedit: bool,
)
    ensures
        session_hides(s, session_id, token, allow_preedit) <==> s.last_visible && (session_id
            != s.session_id || token != s.claim_token || (!allow_preedit && session_id != 0
            && token.len() > 0)),
{
}

/// A visible live text that is new in any way is shown, trimmed, with the cursor behind its last
/// character: one of a later revision, one that differs from what is shown, and one that is the same
/// but has been read five times since. Nothing else is shown.
pub proof fn law_new_live_text_is_shown(s: ListenerView, revision: u64, t: Seq<char>)
    requires
        text::trimmed(t).len() > 0,
    ensures
        ({
            let command = live_command(s, revision, true, t);
            let due = revision > s.last_revision || !s.last_visible || text::trimmed(t)
                != s.last_text || s.refresh_tick >= 5;
            &&& due && text::trimmed(t).len() <= 0xFFFF_FFFF ==> command == Some(
                CommandView::UpdatePreedit {
                    engine_id: s.engine_id,
                    text: text::trimmed(t),
                    cursor_pos: text::trimmed(t).len() as u32,
                },
            )
            &&& !due ==> command is None
            &&& after_live(s, revision, true, t).last_text == text::trimmed(t)
            &&& after_live(s, revision, true, t).last_visible
        }),
{
}

/// A live text that is hidden or blank takes the preview away where one is shown, or where the news
/// is newer; otherwise nothing is done.
pub proof fn law_hidden_live_text_takes_the_preview_away(
    s: ListenerView,
    revision: u64,
    visible: bool,
    t: Seq<char>,
)
    requires
        !visible || text::trimmed(t).len() == 0,
    ensures
        s.last_visible || revision > s.last_revision ==> live_command(s, revision, visible, t)
            == Some(CommandView::HidePreedit { engine_id: s.engine_id }),
        !s.last_visible && revision <= s.last_revision ==> live_command(s, revision, visible, t)
            is None,
        !after_live(s, revision, visible, t).last_visible,
        after_live(s, revision, visible, t).last_text.len() == 0,
{
}

/// The listener remembers the latest revision that it has read, and counts the readings since the
/// preview was last touched.
pub proof fn law_latest_revision_is_remembered(
    s: ListenerView,
    revision: u64,
    visible: bool,
    t: Seq<char>,
)
    ensures
        ({
            let n = after_live(s, revision, visible, t);
            &&& n.last_revision >= revision && n.last_revision >= s.last_revision
            &&& n.last_revision == revision || n.last_revision == s.last_revision
            &&& live_command(s, revision, visible, t) is Some ==> n.refresh_tick == 0
            &&& live_command(s, revision, visible, t) is None && s.refresh_tick < u64::MAX
                ==> n.refresh_tick == s.refresh_tick + 1
            &&& n.session_id == s.session_id && n.claim_token == s.claim_token && n.poll_tick
                == s.poll_tick && n.failure_streak == s.failure_streak
        }),
{
}

/// A finished text that is there and not blank is committed to the listener's engine, trimmed;
/// nothing else is.
pub proof fn law_finished_text_is_committed(s: ListenerView, has_text: bool, t: Seq<char>)
    ensures
        has_text && text::trimmed(t).len() > 0 ==> pending_command(s, has_text, t) == Some(
            CommandView::CommitText { engine_id: s.engine_id, text: text::trimmed(t) },
        ),
        !has_text || text::trimmed(t).len() == 0 ==> pending_command(s, has_text, t) is None,
{
}

/// A preview that is taken away because previews are no longer wanted leaves nothing behind: no text
/// is shown and none is due to be shown again. The session stays the one that was named.
pub proof fn law_hidden_preview_leaves_nothing(
    s: ListenerView,
    session_id: u64,
    token: Seq<char>,
    allow_preedit: bool,
)
    requires
        session_hides(s, session_id, token, allow_preedit),
    ensures
        ({
            let after = after_session(s, session_id, token, allow_preedit);
            &&& !after.last_visible && after.last_text.len() == 0 && after.refresh_tick == 0
            &&& after.session_id == session_id && after.claim_token == token
            &&& after.failure_streak == 0 && after.engine_id == s.engine_id
        }),
{
}

/// While the session stays the same and previews are wanted, naming it again changes nothing that is
/// shown.
pub proof fn law_same_session_keeps_its_preview(s: ListenerView)
    ensures
        ({
            let after = after_session(s, s.session_id, s.claim_token, true);
            &&& after.last_visible == s.last_visible && after.last_text == s.last_text
            &&& after.refresh_tick == s.refresh_tick && after.last_revision == s.last_revision
            &&& after.failure_streak == 0
        }),
{
}

/// A listener that has just started follows no session, shows nothing and has not failed.
pub proof fn law_listener_starts_with_nothing(engine_id: u64)
    ensures
        ({
            let s = fresh(engine_id);
            &&& s.engine_id == engine_id && s.live_supported
            &&& s.session_id == 0 && s.claim_token.len() == 0
            &&& !s.last_visible && s.last_text.len() == 0 && s.last_revision == 0
            &&& s.failure_streak == 0 && s.poll_tick == 0 && s.refresh_tick == 0
        }),
{
}

} // verus!
