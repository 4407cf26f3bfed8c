//! The state behind the bus interface: sessions, their claims and their status.

use super::live_preedit;
use super::live_preedit::{LivePreeditStore, PreeditView};
use super::pending_commit;
use super::pending_commit::{CommitView, PendingCommitStore, QueueView};
use crate::clock::now_millis;
use crate::counter;
use crate::counter::wrapping_next;
use crate::json;
use crate::maps;
use crate::maps::keys_of;
use crate::text;
use crate::text::{decimal, hex_padded, same_text};
use std::collections::{HashMap, HashSet};
use vstd::prelude::*;
use vstd::string::*;

verus! {

broadcast use vstd::std_specs::hash::group_hash_axioms;

/// How long a session that has ended is remembered, in milliseconds.
pub const SESSION_TTL_MS: u64 = 300_000;

/// Where a session stands, and since when.
pub struct SessionStatusEntry {
    pub state: String,
    pub message: String,
    pub updated_ms: u64,
}

/// What a `SessionStatusEntry` holds.
pub struct StatusView {
    pub state: Seq<char>,
    pub message: Seq<char>,
    pub updated_ms: u64,
}

impl View for SessionStatusEntry {
    type V = StatusView;

    open spec fn view(&self) -> StatusView {
        StatusView { state: self.state@, message: self.message@, updated_ms: self.updated_ms }
    }
}

impl SessionStatusEntry {
    /// A status as of the given time.
    pub fn new_at(state: &str, message: &str, now_ms: u64) -> (s: Self)
        ensures
            s@ == (StatusView { state: state@, message: message@, updated_ms: now_ms }),
    {
        SessionStatusEntry {
            state: state.to_owned(),
            message: message.to_owned(),
            updated_ms: now_ms,
        }
    }

    /// A status as of now.
    pub fn new(state: &str, message: &str) -> (s: Self)
        ensures
            s@.state == state@,
            s@.message == message@,
    {
        Self::new_at(state, message, now_millis())
    }

    fn copy(&self) -> (s: Self)
        ensures
            s@ == self@,
    {
        Self::new_at(self.state.as_str(), self.message.as_str(), self.updated_ms)
    }
}

/// What the service's state holds: among the rest the session that the recorder runs for, and
/// whether the ids of sessions and the revisions of previews have begun anew after the greatest one.
pub struct StateView {
    pub language: Seq<char>,
    pub recording_session: Option<u64>,
    pub stopping: Set<u64>,
    pub next_session: u64,
    pub sessions_ran_out: bool,
    pub next_claim: u64,
    pub pending: QueueView,
    pub previews: Map<u64, PreeditView>,
    pub next_revision: u64,
    pub revisions_ran_out: bool,
    pub focused_engine: u64,
    pub focus_changed_ms: u64,
    pub bindings: Map<u64, u64>,
    pub claims: Map<u64, Seq<char>>,
    pub statuses: Map<u64, StatusView>,
}

/// The state that the bus interface works on.
pub struct DiktState {
    selected_language: String,
    recording_session: Option<u64>,
    stopping_sessions: HashSet<u64>,
    session_counter: u64,
    sessions_ran_out: bool,
    claim_counter: u64,
    pending_commit: PendingCommitStore,
    live_preedit: LivePreeditStore,
    live_preedit_revision: u64,
    revisions_ran_out: bool,
    focused_engine_id: u64,
    focused_engine_last_change_ms: u64,
    session_bindings: HashMap<u64, u64>,
    session_claim_tokens: HashMap<u64, String>,
    session_statuses: HashMap<u64, SessionStatusEntry>,
}

impl View for DiktState {
    type V = StateView;

    closed spec fn view(&self) -> StateView {
        StateView {
            language: self.selected_language@,
            recording_session: self.recording_session,
            stopping: self.stopping_sessions@,
            next_session: self.session_counter,
            sessions_ran_out: self.sessions_ran_out,
            next_claim: self.claim_counter,
            pending: self.pending_commit@,
            previews: self.live_preedit@,
            next_revision: self.live_preedit_revision,
            revisions_ran_out: self.revisions_ran_out,
            focused_engine: self.focused_engine_id,
            focus_changed_ms: self.focused_engine_last_change_ms,
            bindings: self.session_bindings@,
            claims: self.session_claim_tokens@.map_values(|t: String| t@),
            statuses: self.session_statuses@.map_values(|s: SessionStatusEntry| s@),
        }
    }
}

/// Every preview has a revision from before the next one.
pub open spec fn revisions_fresh(s: StateView) -> bool {
    forall|id: u64| #[trigger]
        s.previews.contains_key(id) ==> s.previews[id].revision < s.next_revision
}

/// The id was given out: it is not one of those still to come, unless ids have run out.
pub open spec fn session_given_out(s: StateView, session_id: u64) -> bool {
    s.sessions_ran_out || session_id < s.next_session
}

/// Every session that is known in any way has an id from before the next one.
pub open spec fn sessions_fresh(s: StateView) -> bool {
    &&& s.next_session > 0
    &&& forall|id: u64| #[trigger] s.claims.contains_key(id) ==> id < s.next_session
    &&& forall|id: u64| #[trigger] s.statuses.contains_key(id) ==> id < s.next_session
    &&& forall|id: u64| #[trigger] s.stopping.contains(id) ==> id < s.next_session
    &&& forall|k: int|
        0 <= k < s.pending.entries.len() ==> (#[trigger] s.pending.entries[k]).session_id
            < s.next_session
}

/// The token's middle digits name the session.
pub open spec fn token_names(token: Seq<char>, session_id: u64) -> bool {
    token.len() == 48 && token.subrange(16, 32) == text::hex(session_id as nat, 16)
}

/// A session is bound to an engine exactly if it has a claim token, which names it; session 0 has no
/// status, no preview and is never stopping; known sessions and previews are older than the next
/// ones as long as ids and revisions have not run out; and the queue of texts keeps to its room.
pub open spec fn consistent(s: StateView) -> bool {
    &&& s.bindings.dom() == s.claims.dom()
    &&& forall|id: u64| #[trigger]
        s.claims.contains_key(id) ==> token_names(s.claims[id], id)
    &&& !s.sessions_ran_out ==> sessions_fresh(s)
    &&& !s.statuses.contains_key(0)
    &&& !s.stopping.contains(0)
    &&& !s.previews.contains_key(0)
    &&& !s.revisions_ran_out ==> revisions_fresh(s)
    &&& s.pending.entries.len() <= pending_commit::MAX_PENDING_COMMIT_QUEUE
}

/// The recorder runs.
pub open spec fn is_recording(s: StateView) -> bool {
    s.recording_session is Some
}

/// The state of a service that has just started.
pub open spec fn fresh(language: Seq<char>, now_ms: u64) -> StateView {
    StateView {
        language,
        recording_session: None,
        stopping: Set::empty(),
        next_session: 1,
        sessions_ran_out: false,
        next_claim: 1,
        pending: QueueView { entries: Seq::empty(), dropped: 0 },
        previews: Map::empty(),
        next_revision: 1,
        revisions_ran_out: false,
        focused_engine: 0,
        focus_changed_ms: now_ms,
        bindings: Map::empty(),
        claims: Map::empty(),
        statuses: Map::empty(),
    }
}

/// A session's claim token: the time, the session and a nonce, in sixteen hexadecimal digits each.
pub open spec fn token_of(now_ms: u64, session_id: u64, nonce: u64) -> Seq<char> {
    text::hex(now_ms as nat, 16) + text::hex(session_id as nat, 16) + text::hex(nonce as nat, 16)
}

proof fn lemma_token_names(now_ms: u64, session_id: u64, nonce: u64)
    ensures
        token_names(token_of(now_ms, session_id, nonce), session_id),
{
    text::lemma_hex_len(now_ms as nat, 16);
    text::lemma_hex_len(session_id as nat, 16);
    text::lemma_hex_len(nonce as nat, 16);
    let token = token_of(now_ms, session_id, nonce);
    assert(token.subrange(16, 32) =~= text::hex(session_id as nat, 16));
}

/// The state with the next id given out.
pub open spec fn with_session_id_used(s: StateView) -> StateView {
    StateView {
        next_session: counter::wrapped_next(s.next_session),
        sessions_ran_out: s.sessions_ran_out || s.next_session == u64::MAX,
        ..s
    }
}

/// The state with a session's status set; session 0 has none.
pub open spec fn with_status(
    s: StateView,
    session_id: u64,
    state: Seq<char>,
    message: Seq<char>,
    now_ms: u64,
) -> StateView {
    if session_id == 0 {
        s
    } else {
        StateView {
            statuses: s.statuses.insert(session_id, StatusView { state, message, updated_ms: now_ms }),
            ..s
        }
    }
}

/// The state with a new session for an engine.
pub open spec fn with_session(s: StateView, target_engine_id: u64, now_ms: u64) -> StateView {
    let id = s.next_session;
    with_status(
        StateView {
            next_claim: counter::wrapped_next(s.next_claim),
            bindings: s.bindings.insert(id, target_engine_id),
            claims: s.claims.insert(id, token_of(now_ms, id, s.next_claim)),
            ..with_session_id_used(s)
        },
        id,
        "created"@,
        "Session created"@,
        now_ms,
    )
}

/// The state without a session.
pub open spec fn without_session(s: StateView, session_id: u64) -> StateView {
    StateView {
        bindings: s.bindings.remove(session_id),
        claims: s.claims.remove(session_id),
        statuses: s.statuses.remove(session_id),
        stopping: s.stopping.remove(session_id),
        ..s
    }
}

/// A session in this state has ended.
pub open spec fn is_terminal(state: Seq<char>) -> bool {
    state == "ready"@ || state == "failed"@ || state == "cancelled"@ || state == "committed"@
}

/// The session has ended longer ago than it is remembered.
pub open spec fn is_expired(s: StateView, session_id: u64, now_ms: u64) -> bool {
    &&& s.statuses.contains_key(session_id)
    &&& is_terminal(s.statuses[session_id].state)
    &&& counter::minus(now_ms, s.statuses[session_id].updated_ms) > SESSION_TTL_MS
}

/// The state without the sessions that have expired.
pub open spec fn cleaned(s: StateView, now_ms: u64) -> StateView {
    let gone = Set::new(|id: u64| is_expired(s, id, now_ms));
    StateView {
        bindings: s.bindings.remove_keys(gone),
        claims: s.claims.remove_keys(gone),
        statuses: s.statuses.remove_keys(gone),
        stopping: s.stopping.difference(gone),
        ..s
    }
}

/// How much a state counts when an engine asks for its session: a recording one comes first.
pub open spec fn priority(state: Seq<char>) -> int {
    if state == "recording"@ {
        3
    } else if state == "finalizing"@ {
        2
    } else if state == "ready"@ {
        1
    } else {
        0
    }
}

/// The session is the engine's and can be handed to it.
pub open spec fn is_candidate(s: StateView, engine_id: u64, session_id: u64) -> bool {
    &&& s.bindings.contains_key(session_id)
    &&& s.bindings[session_id] == engine_id
    &&& s.statuses.contains_key(session_id)
    &&& s.claims.contains_key(session_id)
    &&& priority(s.statuses[session_id].state) > 0
}

/// Session `b` counts at least as much as `a`: by priority, then by the later update, then by the
/// greater id.
pub open spec fn ranks_below(s: StateView, a: u64, b: u64) -> bool {
    let (pa, pb) = (priority(s.statuses[a].state), priority(s.statuses[b].state));
    let (ua, ub) = (s.statuses[a].updated_ms, s.statuses[b].updated_ms);
    pa < pb || (pa == pb && (ua < ub || (ua == ub && a <= b)))
}

/// What an engine is told of its session: the id, the claim token, and whether previews are wanted.
pub open spec fn is_active_session(
    s: StateView,
    engine_id: u64,
    session_id: u64,
    claim_token: Seq<char>,
    allow_preedit: bool,
) -> bool {
    if exists|c: u64| is_candidate(s, engine_id, c) {
        &&& is_candidate(s, engine_id, session_id)
        &&& forall|c: u64| is_candidate(s, engine_id, c) ==> ranks_below(s, c, session_id)
        &&& claim_token == s.claims[session_id]
        &&& allow_preedit == (s.statuses[session_id].state == "recording"@)
    } else {
        session_id == 0 && claim_token.len() == 0 && !allow_preedit
    }
}

/// The session's token is this one.
pub open spec fn claim_holds(s: StateView, session_id: u64, claim_token: Seq<char>) -> bool {
    s.claims.contains_key(session_id) && s.claims[session_id] == claim_token
}

/// The engine that has the focus after an engine reports on its own.
pub open spec fn next_focus(current: u64, engine_id: u64, focused: bool) -> u64 {
    if focused {
        engine_id
    } else if current == engine_id {
        0
    } else {
        current
    }
}

/// The state after an engine reports that it has or has not the focus.
pub open spec fn with_focus(s: StateView, engine_id: u64, focused: bool, now_ms: u64) -> StateView {
    let next = next_focus(s.focused_engine, engine_id, focused);
    if next != s.focused_engine {
        StateView { focused_engine: next, focus_changed_ms: now_ms, ..s }
    } else {
        s
    }
}

/// The id under which the recorder knows a session.
pub open spec fn binding_name(session_id: u64) -> Seq<char> {
    "session-"@ + text::dec(session_id as nat)
}

/// The id under which the recorder knows a session.
pub fn binding_id_for_session(session_id: u64) -> (r: String)
    ensures
        r@ == binding_name(session_id),
{
    let mut r = "session-".to_owned();
    r.append(decimal(session_id).as_str());
    r
}

impl DiktState {
    /// The state is consistent.
    pub open spec fn wf(&self) -> bool {
        consistent(self@)
    }

    /// The state of a service that starts at the given time.
    pub fn new_at(selected_language: String, now_ms: u64) -> (s: Self)
        ensures
            s.wf(),
            s@ == fresh(selected_language@, now_ms),
    {
        let s = DiktState {
            selected_language,
            recording_session: None,
            stopping_sessions: HashSet::new(),
            session_counter: 1,
            sessions_ran_out: false,
            claim_counter: 1,
            pending_commit: PendingCommitStore::default(),
            live_preedit: LivePreeditStore::default(),
            live_preedit_revision: 1,
            revisions_ran_out: false,
            focused_engine_id: 0,
            focused_engine_last_change_ms: now_ms,
            session_bindings: HashMap::new(),
            session_claim_tokens: HashMap::new(),
            session_statuses: HashMap::new(),
        };
        assert(s@.claims =~= Map::<u64, Seq<char>>::empty());
        assert(s@.statuses =~= Map::<u64, StatusView>::empty());
        assert(s@.bindings.dom() =~= s@.claims.dom());
        s
    }

    /// The state of a service that starts now.
    pub fn new(selected_language: String) -> (s: Self)
        ensures
            s.wf(),
            exists|now_ms: u64| s@ == fresh(selected_language@, now_ms),
    {
        let now_ms: u64 = now_millis();
        Self::new_at(selected_language, now_ms)
    }

    /// The id of the next session.
    pub fn next_session_id(&mut self) -> (id: u64)
        ensures
            id == old(self)@.next_session,
            final(self)@ == with_session_id_used(old(self)@),
            session_given_out(final(self)@, id),
            old(self).wf() ==> final(self).wf(),
    {
        let id: u64 = self.session_counter;
        self.session_counter = wrapping_next(id);
        if id == u64::MAX {
            self.sessions_ran_out = true;
        }
        id
    }

    /// A claim token for the session as of the given time.
    pub fn next_claim_token_at(&mut self, session_id: u64, now_ms: u64) -> (t: String)
        ensures
            t@ == token_of(now_ms, session_id, old(self)@.next_claim),
            final(self)@ == (StateView {
                next_claim: counter::wrapped_next(old(self)@.next_claim),
                ..old(self)@
            }),
    {
        let nonce: u64 = self.claim_counter;
        self.claim_counter = wrapping_next(nonce);
        let mut t = hex_padded(now_ms, 16);
        t.append(hex_padded(session_id, 16).as_str());
        t.append(hex_padded(nonce, 16).as_str());
        t
    }

    /// A claim token for the session.
    pub fn next_claim_token(&mut self, session_id: u64) -> (t: String)
        ensures
            exists|now_ms: u64| t@ == token_of(now_ms, session_id, old(self)@.next_claim),
            final(self)@ == (StateView {
                next_claim: counter::wrapped_next(old(self)@.next_claim),
                ..old(self)@
            }),
    {
        let now_ms: u64 = now_millis();
        self.next_claim_token_at(session_id, now_ms)
    }

    /// Creates a session for an engine at the given time: its id and its claim token.
    pub fn create_session_at(&mut self, target_engine_id: u64, now_ms: u64) -> (r: (u64, String))
        requires
            old(self).wf(),
        ensures
            final(self).wf(),
            final(self)@ == with_session(old(self)@, target_engine_id, now_ms),
            r.0 == old(self)@.next_session,
            r.1@ == token_of(now_ms, r.0, old(self)@.next_claim),
    {
        let session_id: u64 = self.next_session_id();
        let claim_token = self.next_claim_token_at(session_id, now_ms);
        self.session_bindings.insert(session_id, target_engine_id);
        self.session_claim_tokens.insert(session_id, claim_token.clone());
        assert(self@.claims =~= old(self)@.claims.insert(session_id, claim_token@));
        assert(self@.bindings.dom() =~= self@.claims.dom());
        proof {
            lemma_token_names(now_ms, session_id, old(self)@.next_claim);
        }
        self.set_session_status_at(session_id, "created", "Session created", now_ms);
        (session_id, claim_token)
    }

    /// Creates a session for an engine: its id and its claim token.
    pub fn create_session(&mut self, target_engine_id: u64) -> (r: (u64, String))
        requires
            old(self).wf(),
        ensures
            final(self).wf(),
            exists|now_ms: u64|
                {
                    &&& final(self)@ == #[trigger] with_session(old(self)@, target_engine_id, now_ms)
                    &&& r.1@ == token_of(now_ms, r.0, old(self)@.next_claim)
                },
            r.0 == old(self)@.next_session,
    {
        let now_ms: u64 = now_millis();
        let r = self.create_session_at(target_engine_id, now_ms);
        assert(self@ == with_session(old(self)@, target_engine_id, now_ms));
        r
    }

    /// The engine that a session is bound to.
    pub fn session_binding(&self, session_id: u64) -> (r: Option<u64>)
        ensures
            r == (if self@.bindings.contains_key(session_id) {
                Some(self@.bindings[session_id])
            } else {
                None
            }),
    {
        match self.session_bindings.get(&session_id) {
            Some(engine_id) => Some(*engine_id),
            None => None,
        }
    }

    /// The session's claim token.
    pub fn session_claim_token(&self, session_id: u64) -> (r: Option<String>)
        ensures
            match r {
                Some(t) => self@.claims.contains_key(session_id) && t@ == self@.claims[session_id],
                None => !self@.claims.contains_key(session_id),
            },
    {
        match self.session_claim_tokens.get(&session_id) {
            Some(token) => Some(token.clone()),
            None => None,
        }
    }

    /// Whether the token is the session's.
    pub fn validate_session_claim(&self, session_id: u64, claim_token: &str) -> (r: bool)
        ensures
            r == claim_holds(self@, session_id, claim_token@),
    {
        match self.session_claim_tokens.get(&session_id) {
            Some(token) => same_text(token.as_str(), claim_token),
            None => false,
        }
    }

    /// Sets the session's status as of the given time; session 0 has none.
    pub fn set_session_status_at(
        &mut self,
        session_id: u64,
        state: &str,
        message: &str,
        now_ms: u64,
    )
        requires
            old(self).wf(),
            session_given_out(old(self)@, session_id),
        ensures
            final(self).wf(),
            final(self)@ == with_status(old(self)@, session_id, state@, message@, now_ms),
    {
        if session_id == 0 {
            return;
        }
        let entry = SessionStatusEntry::new_at(state, message, now_ms);
        self.session_statuses.insert(session_id, entry);
        assert(self@.statuses =~= old(self)@.statuses.insert(session_id, entry@));
    }

    /// Sets the session's status; session 0 has none.
    pub fn set_session_status(&mut self, session_id: u64, state: &str, message: &str)
        requires
            old(self).wf(),
            session_given_out(old(self)@, session_id),
        ensures
            final(self).wf(),
            exists|now_ms: u64|
                final(self)@ == with_status(old(self)@, session_id, state@, message@, now_ms),
    {
        let now_ms: u64 = now_millis();
        self.set_session_status_at(session_id, state, message, now_ms);
    }

    /// The session's status.
    pub fn session_status(&self, session_id: u64) -> (r: Option<SessionStatusEntry>)
        ensures
            match r {
                Some(s) => self@.statuses.contains_key(session_id) && s@
                    == self@.statuses[session_id],
                None => !self@.statuses.contains_key(session_id),
            },
    {
        match self.session_statuses.get(&session_id) {
            Some(entry) => Some(entry.copy()),
            None => None,
        }
    }

    /// Forgets a session.
    pub fn remove_session(&mut self, session_id: u64)
        requires
            old(self).wf(),
        ensures
            final(self).wf(),
            final(self)@ == without_session(old(self)@, session_id),
    {
        self.session_bindings.remove(&session_id);
        self.session_claim_tokens.remove(&session_id);
        self.session_statuses.remove(&session_id);
        assert(self@.claims =~= old(self)@.claims.remove(session_id));
        assert(self@.statuses =~= old(self)@.statuses.remove(session_id));
        assert(self@.bindings.dom() =~= self@.claims.dom());
        self.clear_session_stopping(session_id);
        assert(self@.stopping =~= old(self)@.stopping.remove(session_id));
    }

    fn expired_at(&self, now_ms: u64) -> (ids: Vec<u64>)
        ensures
            forall|id: u64| #![auto] ids@.contains(id) <==> is_expired(self@, id, now_ms),
    {
        let all = keys_of(&self.session_statuses);
        let mut ids: Vec<u64> = Vec::new();
        let mut i: usize = 0;
        while i < all.len()
            invariant
                i <= all@.len(),
                forall|id: u64| #![auto] self.session_statuses@.contains_key(id) <==> all@.contains(id),
                forall|id: u64| #![auto] ids@.contains(id) ==> is_expired(self@, id, now_ms),
                forall|k: int|
                    0 <= k < i && is_expired(self@, #[trigger] all@[k], now_ms) ==> ids@.contains(
                        all@[k],
                    ),
            decreases all@.len() - i,
        {
            let id: u64 = all[i];
            assert(all@.contains(id));
            let ghost before = ids@;
            if let Some(status) = self.session_statuses.get(&id) {
                let state = status.state.as_str();
                let terminal: bool = same_text(state, "ready") || same_text(state, "failed")
                    || same_text(state, "cancelled") || same_text(state, "committed");
                if terminal && now_ms.saturating_sub(status.updated_ms) > SESSION_TTL_MS {
                    ids.push(id);
                    proof {
                        maps::lemma_push_set(before, id);
                    }
                }
            }
            i += 1;
        }
        proof {
            assert forall|id: u64| #![auto] is_expired(self@, id, now_ms) implies ids@.contains(id) by {
                assert(self.session_statuses@.contains_key(id));
                assert(all@.contains(id));
                let k = choose|k: int| 0 <= k < all@.len() && all@[k] == id;
                assert(all@[k] == id);
            }
        }
        ids
    }

    /// Forgets the sessions that have ended longer ago, at the given time, than they are
    /// remembered.
    pub fn cleanup_expired_sessions_at(&mut self, now_ms: u64)
        requires
            old(self).wf(),
        ensures
            final(self).wf(),
            final(self)@ == cleaned(old(self)@, now_ms),
    {
        let ids = self.expired_at(now_ms);
        let ghost s0 = self@;
        let ghost gone = Set::new(|id: u64| is_expired(s0, id, now_ms));
        let mut i: usize = 0;
        while i < ids.len()
            invariant
                i <= ids@.len(),
                consistent(self@),
                self@.bindings == s0.bindings.remove_keys(ids@.take(i as int).to_set()),
                self@.claims == s0.claims.remove_keys(ids@.take(i as int).to_set()),
                self@.statuses == s0.statuses.remove_keys(ids@.take(i as int).to_set()),
                self@.stopping == s0.stopping.difference(ids@.take(i as int).to_set()),
                self@ == (StateView {
                    bindings: self@.bindings,
                    claims: self@.claims,
                    statuses: self@.statuses,
                    stopping: self@.stopping,
                    ..s0
                }),
            decreases ids@.len() - i,
        {
            let ghost done = ids@.take(i as int).to_set();
            self.remove_session(ids[i]);
            i += 1;
            proof {
                let next = ids@.take(i as int).to_set();
                assert(ids@.take(i as int) =~= ids@.take(i - 1).push(ids@[i - 1]));
                maps::lemma_push_set(ids@.take(i - 1), ids@[i - 1]);
                assert(next == done.insert(ids@[i - 1]));
                assert(self@.bindings =~= s0.bindings.remove_keys(next));
                assert(self@.claims =~= s0.claims.remove_keys(next));
                assert(self@.statuses =~= s0.statuses.remove_keys(next));
                assert(self@.stopping =~= s0.stopping.difference(next));
            }
        }
        proof {
            assert(ids@.take(ids@.len() as int) =~= ids@);
            assert(ids@.to_set() =~= gone);
        }
    }

    /// Forgets the sessions that have ended longer ago than they are remembered.
    pub fn cleanup_expired_sessions(&mut self)
        requires
            old(self).wf(),
        ensures
            final(self).wf(),
            exists|now_ms: u64| final(self)@ == cleaned(old(self)@, now_ms),
    {
        let now_ms: u64 = now_millis();
        self.cleanup_expired_sessions_at(now_ms);
    }

    /// Marks the session as stopping; session 0 never is.
    pub fn mark_session_stopping(&mut self, session_id: u64)
        requires
            old(self).wf(),
            session_given_out(old(self)@, session_id),
        ensures
            final(self).wf(),
            final(self)@ == (if session_id == 0 {
                old(self)@
            } else {
                StateView { stopping: old(self)@.stopping.insert(session_id), ..old(self)@ }
            }),
    {
        if session_id == 0 {
            return;
        }
        self.stopping_sessions.insert(session_id);
    }

    /// The session is no longer stopping.
    pub fn clear_session_stopping(&mut self, session_id: u64)
        requires
            old(self).wf(),
        ensures
            final(self).wf(),
            final(self)@ == (StateView {
                stopping: old(self)@.stopping.remove(session_id),
                ..old(self)@
            }),
    {
        if session_id == 0 {
            assert(self@.stopping.remove(0) =~= self@.stopping);
            return;
        }
        self.stopping_sessions.remove(&session_id);
        assert(self@.stopping =~= old(self)@.stopping.remove(session_id));
    }

    /// Whether the session is stopping.
    pub fn session_is_stopping(&self, session_id: u64) -> (r: bool)
        requires
            self.wf(),
        ensures
            r == self@.stopping.contains(session_id),
    {
        if session_id == 0 {
            return false;
        }
        self.stopping_sessions.contains(&session_id)
    }
}

/// The state with a text stored for the session's claim; without a claim token it is dropped.
pub open spec fn with_pending(
    s: StateView,
    session_id: u64,
    text: Seq<char>,
    now_ms: u64,
) -> StateView {
    if s.claims.contains_key(session_id) {
        StateView {
            pending: pending_commit::stored(
                s.pending,
                session_id,
                s.claims[session_id],
                text,
                now_ms,
            ),
            ..s
        }
    } else {
        s
    }
}

proof fn lemma_store_keeps_consistency(
    s: StateView,
    session_id: u64,
    text: Seq<char>,
    now_ms: u64,
)
    requires
        consistent(s),
    ensures
        consistent(with_pending(s, session_id, text, now_ms)),
{
    let after = with_pending(s, session_id, text, now_ms);
    if s.claims.contains_key(session_id) {
        let full = s.pending.entries.len() >= pending_commit::MAX_PENDING_COMMIT_QUEUE;
        let shift: int = if full { 1 } else { 0 };
        assert forall|k: int| 0 <= k < after.pending.entries.len() - 1 implies (
        #[trigger] after.pending.entries[k]) == s.pending.entries[k + shift] by {}
    }
}

proof fn lemma_take_keeps_consistency(s: StateView, session_id: u64, claim_token: Seq<char>)
    requires
        consistent(s),
    ensures
        ({
            let t = pending_commit::taken(s.pending, session_id, claim_token);
            &&& consistent(StateView { pending: t.0, ..s })
            &&& t.1 ==> session_given_out(s, session_id)
        }),
{
    let t = pending_commit::taken(s.pending, session_id, claim_token);
    if pending_commit::none_claimed(s.pending.entries, session_id, claim_token) {
        pending_commit::law_wrong_claim_changes_nothing(s.pending, session_id, claim_token);
    } else {
        pending_commit::law_take_is_oldest_and_keeps_others(s.pending, session_id, claim_token);
        let entries = s.pending.entries;
        let i = choose|i: int|
            0 <= i < entries.len() && pending_commit::claims(
                #[trigger] entries[i],
                session_id,
                claim_token,
            ) && t.0.entries == entries.remove(i);
        assert forall|k: int| 0 <= k < t.0.entries.len() implies (#[trigger] t.0.entries[k]) == (
        if k < i {
            entries[k]
        } else {
            entries[k + 1]
        }) by {}
    }
}

/// The state after a claim for the session's text.
pub open spec fn after_take(
    s: StateView,
    session_id: u64,
    claim_token: Seq<char>,
    now_ms: u64,
) -> StateView {
    let t = pending_commit::taken(s.pending, session_id, claim_token);
    let s2 = StateView { pending: t.0, ..s };
    if t.1 {
        with_status(s2, session_id, "committed"@, "Final commit delivered"@, now_ms)
    } else {
        s2
    }
}

/// The state with a preview update; session 0 has no preview.
pub open spec fn with_preview(s: StateView, session_id: u64, entry: PreeditView) -> StateView {
    if session_id == 0 {
        s
    } else {
        StateView { previews: live_preedit::updated(s.previews, session_id, entry), ..s }
    }
}

/// The state with the next revision given out.
pub open spec fn with_revision_used(s: StateView) -> StateView {
    StateView {
        next_revision: counter::wrapped_next(s.next_revision),
        revisions_ran_out: s.revisions_ran_out || s.next_revision == u64::MAX,
        ..s
    }
}

/// The revision was given out: those still to come are greater, unless revisions have run out.
pub open spec fn revision_given_out(s: StateView, revision: u64) -> bool {
    s.revisions_ran_out || revision < s.next_revision
}

/// The state with the session's preview taken back under a fresh revision.
pub open spec fn with_preview_cleared(s: StateView, session_id: u64) -> StateView {
    with_preview(
        with_revision_used(s),
        session_id,
        live_preedit::hidden(s.next_revision),
    )
}

/// The state with a text shown for the session under a fresh revision.
pub open spec fn with_preview_shown(s: StateView, session_id: u64, text: Seq<char>) -> StateView {
    with_preview(
        with_revision_used(s),
        session_id,
        live_preedit::shown(s.next_revision, text),
    )
}

/// What a reader with a claim token sees of the session's preview.
pub open spec fn preview_read(
    s: StateView,
    session_id: u64,
    claim_token: Seq<char>,
) -> PreeditView {
    if claim_holds(s, session_id, claim_token) {
        live_preedit::read(s.previews, session_id)
    } else {
        live_preedit::hidden(0)
    }
}

/// What is told of a session's status.
pub open spec fn status_report(s: StateView, session_id: u64) -> StatusView {
    if s.statuses.contains_key(session_id) {
        s.statuses[session_id]
    } else {
        StatusView { state: "missing"@, message: "Session not found"@, updated_ms: 0 }
    }
}

/// The session has no preview that anyone sees.
pub open spec fn preview_hidden(s: StateView, session_id: u64) -> bool {
    let p = live_preedit::read(s.previews, session_id);
    !p.visible && p.text.len() == 0
}

/// The state without a recording of the session; one of another session goes on.
pub open spec fn without_recording(s: StateView, session_id: u64) -> StateView {
    StateView {
        recording_session: if s.recording_session == Some(session_id) {
            None
        } else {
            s.recording_session
        },
        ..s
    }
}

/// The state after a session is cancelled.
pub open spec fn after_cancel(s: StateView, session_id: u64, now_ms: u64) -> StateView {
    let c = cleaned(s, now_ms);
    if c.claims.contains_key(session_id) {
        let p = with_preview_cleared(
            with_status(c, session_id, "cancelled"@, "Session cancelled"@, now_ms),
            session_id,
        );
        without_recording(StateView { stopping: p.stopping.remove(session_id), ..p }, session_id)
    } else {
        c
    }
}

impl DiktState {
    /// How much the session's state counts, where the session is the engine's and can be handed
    /// to it.
    fn candidate_rank(&self, engine_id: u64, session_id: u64) -> (r: Option<(u8, u64)>)
        ensures
            match r {
                Some(p) => is_candidate(self@, engine_id, session_id) && p.0 == priority(
                    self@.statuses[session_id].state,
                ) && p.1 == self@.statuses[session_id].updated_ms,
                None => !is_candidate(self@, engine_id, session_id),
            },
    {
        match self.session_bindings.get(&session_id) {
            Some(bound) => {
                if *bound != engine_id {
                    return None;
                }
            },
            None => {
                return None;
            },
        }
        if !self.session_claim_tokens.contains_key(&session_id) {
            return None;
        }
        match self.session_statuses.get(&session_id) {
            Some(status) => {
                let state = status.state.as_str();
                let rank: u8 = if same_text(state, "recording") {
                    3
                } else if same_text(state, "finalizing") {
                    2
                } else if same_text(state, "ready") {
                    1
                } else {
                    0
                };
                if rank == 0 {
                    None
                } else {
                    Some((rank, status.updated_ms))
                }
            },
            None => None,
        }
    }

    fn best_candidate(&self, engine_id: u64) -> (r: Option<(u8, u64, u64)>)
        ensures
            match r {
                Some(b) => {
                    &&& is_candidate(self@, engine_id, b.2)
                    &&& b.0 == priority(self@.statuses[b.2].state)
                    &&& forall|c: u64| is_candidate(self@, engine_id, c) ==> ranks_below(self@, c, b.2)
                },
                None => forall|c: u64| !is_candidate(self@, engine_id, c),
            },
    {
        let ids = keys_of(&self.session_bindings);
        let mut best: Option<(u8, u64, u64)> = None;
        let mut i: usize = 0;
        while i < ids.len()
            invariant
                i <= ids@.len(),
                match best {
                    Some(b) => {
                        &&& is_candidate(self@, engine_id, b.2)
                        &&& b.0 == priority(self@.statuses[b.2].state)
                        &&& b.1 == self@.statuses[b.2].updated_ms
                        &&& forall|k: int|
                            0 <= k < i && is_candidate(self@, engine_id, #[trigger] ids@[k])
                                ==> ranks_below(self@, ids@[k], b.2)
                    },
                    None => forall|k: int|
                        0 <= k < i ==> !is_candidate(self@, engine_id, #[trigger] ids@[k]),
                },
            decreases ids@.len() - i,
        {
            let id: u64 = ids[i];
            if let Some((rank, updated)) = self.candidate_rank(engine_id, id) {
                let better: bool = match best {
                    Some(b) => rank > b.0 || (rank == b.0 && updated > b.1) || (rank == b.0
                        && updated == b.1 && id > b.2),
                    None => true,
                };
                if better {
                    best = Some((rank, updated, id));
                }
            }
            i += 1;
        }
        proof {
            assert forall|c: u64| is_candidate(self@, engine_id, c) implies exists|k: int|
                0 <= k < ids@.len() && #[trigger] ids@[k] == c by {
                assert(self.session_bindings@.contains_key(c));
                assert(ids@.contains(c));
            }
        }
        best
    }

    /// The session that an engine works on at the given time: the one that counts most among those
    /// bound to it, with its claim token and whether previews are wanted. Engine 0 has none.
    pub fn active_session_for_engine_at(&mut self, engine_id: u64, now_ms: u64) -> (r: (
        u64,
        String,
        bool,
    ))
        requires
            old(self).wf(),
        ensures
            final(self).wf(),
            engine_id == 0 ==> final(self)@ == old(self)@ && r.0 == 0 && r.1@.len() == 0 && !r.2,
            engine_id != 0 ==> final(self)@ == cleaned(old(self)@, now_ms) && is_active_session(
                final(self)@,
                engine_id,
                r.0,
                r.1@,
                r.2,
            ),
    {
        if engine_id == 0 {
            return (0, String::new(), false);
        }
        self.cleanup_expired_sessions_at(now_ms);
        match self.best_candidate(engine_id) {
            Some(b) => {
                let id: u64 = b.2;
                let token = match self.session_claim_token(id) {
                    Some(t) => t,
                    None => String::new(),
                };
                (id, token, b.0 == 3)
            },
            None => (0, String::new(), false),
        }
    }

    /// The session that an engine works on now.
    pub fn active_session_for_engine(&mut self, engine_id: u64) -> (r: (u64, String, bool))
        requires
            old(self).wf(),
        ensures
            final(self).wf(),
            engine_id == 0 ==> final(self)@ == old(self)@ && r.0 == 0 && r.1@.len() == 0 && !r.2,
            engine_id != 0 ==> (exists|now_ms: u64| final(self)@ == cleaned(old(self)@, now_ms))
                && is_active_session(final(self)@, engine_id, r.0, r.1@, r.2),
    {
        let now_ms: u64 = now_millis();
        self.active_session_for_engine_at(engine_id, now_ms)
    }

    /// Stores a final text for the session's claim at the given time; the text of a session
    /// without a claim token is dropped.
    pub fn store_pending_commit_at(&mut self, session_id: u64, text: String, now_ms: u64)
        requires
            old(self).wf(),
        ensures
            final(self).wf(),
            final(self)@ == with_pending(old(self)@, session_id, text@, now_ms),
    {
        if let Some(claim_token) = self.session_claim_token(session_id) {
            proof {
                lemma_store_keeps_consistency(self@, session_id, text@, now_ms);
            }
            self.pending_commit.store_at(session_id, claim_token, text, now_ms);
        }
    }

    /// Stores a final text for the session's claim.
    pub fn store_pending_commit(&mut self, session_id: u64, text: String)
        requires
            old(self).wf(),
        ensures
            final(self).wf(),
            exists|now_ms: u64| final(self)@ == with_pending(old(self)@, session_id, text@, now_ms),
    {
        let now_ms: u64 = now_millis();
        self.store_pending_commit_at(session_id, text, now_ms);
    }

    /// Hands the session's final text out to its claim token at the given time.
    pub fn take_pending_commit_for_session_at(
        &mut self,
        session_id: u64,
        claim_token: &str,
        now_ms: u64,
    ) -> (r: (bool, String))
        requires
            old(self).wf(),
        ensures
            final(self).wf(),
            final(self)@ == after_take(old(self)@, session_id, claim_token@, now_ms),
            r.0 == pending_commit::taken(old(self)@.pending, session_id, claim_token@).1,
            r.1@ == pending_commit::taken(old(self)@.pending, session_id, claim_token@).2,
    {
        let r = self.pending_commit.take_for_session(session_id, claim_token);
        proof {
            lemma_take_keeps_consistency(old(self)@, session_id, claim_token@);
        }
        if r.0 {
            self.set_session_status_at(session_id, "committed", "Final commit delivered", now_ms);
        }
        r
    }

    /// Hands the session's final text out to its claim token.
    pub fn take_pending_commit_for_session(&mut self, session_id: u64, claim_token: &str) -> (r: (
        bool,
        String,
    ))
        requires
            old(self).wf(),
        ensures
            final(self).wf(),
            exists|now_ms: u64|
                final(self)@ == after_take(old(self)@, session_id, claim_token@, now_ms),
            r.0 == pending_commit::taken(old(self)@.pending, session_id, claim_token@).1,
            r.1@ == pending_commit::taken(old(self)@.pending, session_id, claim_token@).2,
    {
        let now_ms: u64 = now_millis();
        self.take_pending_commit_for_session_at(session_id, claim_token, now_ms)
    }

    /// The statistics of the queue of final texts at the given time, as JSON.
    pub fn pending_commit_stats_json_at(&self, now_ms: u64) -> (r: String)
        requires
            self.wf(),
        ensures
            r@ == json::object_text(pending_commit::stats_fields(self@.pending, now_ms)),
            json::all_read_back(r@, pending_commit::stats_fields(self@.pending, now_ms)),
    {
        self.pending_commit.stats_json_at(now_ms)
    }

    /// The statistics of the queue of final texts, as JSON.
    pub fn pending_commit_stats_json(&self) -> (r: String)
        requires
            self.wf(),
        ensures
            exists|now_ms: u64|
                r@ == json::object_text(
                    #[trigger] pending_commit::stats_fields(self@.pending, now_ms),
                ) && json::all_read_back(
                    r@,
                    pending_commit::stats_fields(self@.pending, now_ms),
                ),
    {
        self.pending_commit.stats_json()
    }

    /// How many final texts the full queue has dropped.
    pub fn pending_commit_dropped_count(&self) -> (n: u64)
        ensures
            n == self@.pending.dropped,
    {
        self.pending_commit.dropped_count()
    }

    /// A fresh revision for a preview.
    pub fn next_live_preedit_revision(&mut self) -> (r: u64)
        requires
            old(self).wf(),
        ensures
            final(self).wf(),
            r == old(self)@.next_revision,
            revision_given_out(final(self)@, r),
            final(self)@ == with_revision_used(old(self)@),
    {
        let r: u64 = self.live_preedit_revision;
        self.live_preedit_revision = wrapping_next(r);
        if r == u64::MAX {
            self.revisions_ran_out = true;
        }
        r
    }

    /// Shows a preview for the session under a revision that was given out; session 0 has none.
    pub fn set_live_preedit(&mut self, session_id: u64, revision: u64, text: String)
        requires
            old(self).wf(),
            revision_given_out(old(self)@, revision),
        ensures
            final(self).wf(),
            final(self)@ == with_preview(
                old(self)@,
                session_id,
                live_preedit::shown(revision, text@),
            ),
    {
        if session_id == 0 {
            return;
        }
        self.live_preedit.set(session_id, revision, text);
    }

    /// Takes the session's preview back under a revision that was given out; session 0 has none.
    pub fn clear_live_preedit(&mut self, session_id: u64, revision: u64)
        requires
            old(self).wf(),
            revision_given_out(old(self)@, revision),
        ensures
            final(self).wf(),
            final(self)@ == with_preview(old(self)@, session_id, live_preedit::hidden(revision)),
    {
        if session_id == 0 {
            return;
        }
        self.live_preedit.clear(session_id, revision);
    }

    /// The session's preview, for a reader that holds its claim token.
    pub fn get_live_preedit_for_session(&self, session_id: u64, claim_token: &str) -> (r: (
        u64,
        bool,
        String,
    ))
        ensures
            (PreeditView { revision: r.0, visible: r.1, text: r.2@ }) == preview_read(
                self@,
                session_id,
                claim_token@,
            ),
    {
        if !self.validate_session_claim(session_id, claim_token) {
            return (0, false, String::new());
        }
        self.live_preedit.get_for_session(session_id)
    }

    /// An engine reports at the given time that it has or has not the focus.
    pub fn set_focused_engine_at(&mut self, engine_id: u64, focused: bool, now_ms: u64)
        ensures
            final(self)@ == with_focus(old(self)@, engine_id, focused, now_ms),
    {
        let current: u64 = self.focused_engine_id;
        let next: u64 = if focused {
            engine_id
        } else if current == engine_id {
            0
        } else {
            current
        };
        if next != current {
            self.focused_engine_id = next;
            self.focused_engine_last_change_ms = now_ms;
        }
    }

    /// An engine reports that it has or has not the focus.
    pub fn set_focused_engine(&mut self, engine_id: u64, focused: bool)
        ensures
            exists|now_ms: u64|
                final(self)@ == with_focus(old(self)@, engine_id, focused, now_ms),
    {
        let now_ms: u64 = now_millis();
        self.set_focused_engine_at(engine_id, focused, now_ms);
    }

    /// The engine that has the focus, and since when.
    pub fn focused_engine_status(&self) -> (r: (u64, u64))
        ensures
            r == (self@.focused_engine, self@.focus_changed_ms),
    {
        (self.focused_engine_id, self.focused_engine_last_change_ms)
    }

    /// What is told of the session's status at the given time: state, message and last update.
    pub fn session_report_at(&mut self, session_id: u64, now_ms: u64) -> (r: (String, String, u64))
        requires
            old(self).wf(),
        ensures
            final(self).wf(),
            final(self)@ == cleaned(old(self)@, now_ms),
            (StatusView { state: r.0@, message: r.1@, updated_ms: r.2 }) == status_report(
                final(self)@,
                session_id,
            ),
    {
        self.cleanup_expired_sessions_at(now_ms);
        match self.session_status(session_id) {
            Some(entry) => (entry.state, entry.message, entry.updated_ms),
            None => ("missing".to_owned(), "Session not found".to_owned(), 0),
        }
    }

    /// Cancels a session at the given time: whether it was known, and whether the recorder was
    /// running for it and has to be cancelled. A recording of another session goes on.
    pub fn cancel_session_at(&mut self, session_id: u64, now_ms: u64) -> (r: (bool, bool))
        requires
            old(self).wf(),
        ensures
            final(self).wf(),
            final(self)@ == after_cancel(old(self)@, session_id, now_ms),
            r.0 == cleaned(old(self)@, now_ms).claims.contains_key(session_id),
            r.1 == (r.0 && old(self)@.recording_session == Some(session_id)),
            is_recording(final(self)@) == (is_recording(old(self)@) && !r.1),
            r.0 && !old(self)@.revisions_ran_out ==> preview_hidden(final(self)@, session_id),
    {
        self.cleanup_expired_sessions_at(now_ms);
        if self.session_claim_token(session_id).is_none() {
            return (false, false);
        }
        self.set_session_status_at(session_id, "cancelled", "Session cancelled", now_ms);
        let revision: u64 = self.next_live_preedit_revision();
        self.clear_live_preedit(session_id, revision);
        self.clear_session_stopping(session_id);
        (true, self.end_recording_of(session_id))
    }

    /// Whether the recorder runs.
    pub fn is_recording(&self) -> (r: bool)
        ensures
            r == is_recording(self@),
    {
        self.recording_session.is_some()
    }

    /// The recorder runs for this session.
    pub(crate) fn begin_recording_of(&mut self, session_id: u64)
        ensures
            final(self)@ == (StateView { recording_session: Some(session_id), ..old(self)@ }),
    {
        self.recording_session = Some(session_id);
    }

    /// The recorder no longer runs for this session: whether it did.
    pub(crate) fn end_recording_of(&mut self, session_id: u64) -> (was: bool)
        ensures
            was == (old(self)@.recording_session == Some(session_id)),
            final(self)@ == without_recording(old(self)@, session_id),
    {
        match self.recording_session {
            Some(id) => {
                if id == session_id {
                    self.recording_session = None;
                    true
                } else {
                    false
                }
            },
            None => false,
        }
    }

    /// The language that is selected.
    pub fn selected_language(&self) -> (r: String)
        ensures
            r@ == self@.language,
    {
        self.selected_language.clone()
    }

    /// Selects a language.
    pub fn set_selected_language(&mut self, language: String)
        ensures
            final(self)@ == (StateView { language: language@, ..old(self)@ }),
    {
        self.selected_language = language;
    }
}

/// Cleaning up removes exactly the sessions that have ended longer ago than they are remembered:
/// any other session keeps its engine, token, status and mark, and a second clean-up at the same
/// time changes nothing.
pub proof fn law_cleanup_removes_exactly_the_expired(s: StateView, now_ms: u64, id: u64)
    requires
        consistent(s),
    ensures
        consistent(cleaned(s, now_ms)),
        is_expired(s, id, now_ms) ==> {
            let c = cleaned(s, now_ms);
            !c.bindings.contains_key(id) && !c.claims.contains_key(id) && !c.statuses.contains_key(
                id,
            ) && !c.stopping.contains(id)
        },
        !is_expired(s, id, now_ms) ==> {
            let c = cleaned(s, now_ms);
            &&& c.bindings.contains_key(id) == s.bindings.contains_key(id)
            &&& s.bindings.contains_key(id) ==> c.bindings[id] == s.bindings[id]
            &&& c.claims.contains_key(id) == s.claims.contains_key(id)
            &&& s.claims.contains_key(id) ==> c.claims[id] == s.claims[id]
            &&& c.statuses.contains_key(id) == s.statuses.contains_key(id)
            &&& s.statuses.contains_key(id) ==> c.statuses[id] == s.statuses[id]
            &&& c.stopping.contains(id) == s.stopping.contains(id)
        },
        cleaned(cleaned(s, now_ms), now_ms) == cleaned(s, now_ms),
{
    let c = cleaned(s, now_ms);
    assert(c.bindings.dom() =~= c.claims.dom());
    let cc = cleaned(c, now_ms);
    assert(cc.bindings =~= c.bindings);
    assert(cc.claims =~= c.claims);
    assert(cc.statuses =~= c.statuses);
    assert(cc.stopping =~= c.stopping);
}

/// A session that is not at an end, or has ended within the time that sessions are remembered,
/// survives a clean-up.
pub proof fn law_live_sessions_survive_cleanup(s: StateView, now_ms: u64, id: u64)
    requires
        s.statuses.contains_key(id),
        !is_terminal(s.statuses[id].state) || now_ms <= s.statuses[id].updated_ms + SESSION_TTL_MS,
    ensures
        cleaned(s, now_ms).statuses.contains_key(id),
        cleaned(s, now_ms).statuses[id] == s.statuses[id],
{
}

/// The session has the same status, claim token, engine, mark and preview in both states, and is
/// recorded in both or in neither.
pub open spec fn session_kept(before: StateView, after: StateView, id: u64) -> bool {
    &&& after.statuses.contains_key(id) == before.statuses.contains_key(id)
    &&& before.statuses.contains_key(id) ==> after.statuses[id] == before.statuses[id]
    &&& after.claims.contains_key(id) == before.claims.contains_key(id)
    &&& before.claims.contains_key(id) ==> after.claims[id] == before.claims[id]
    &&& after.bindings.contains_key(id) == before.bindings.contains_key(id)
    &&& before.bindings.contains_key(id) ==> after.bindings[id] == before.bindings[id]
    &&& after.stopping.contains(id) == before.stopping.contains(id)
    &&& live_preedit::read(after.previews, id) == live_preedit::read(before.previews, id)
    &&& after.recording_session == Some(id) <==> before.recording_session == Some(id)
}

/// As long as ids have not run out, a session that is created is a new one: nothing was known under
/// its id, no text waits for it, and no other session has its token. Every other session stays as it
/// was.
pub proof fn law_created_session_is_new(
    s: StateView,
    target_engine_id: u64,
    now_ms: u64,
    other: u64,
)
    requires
        consistent(s),
        !s.sessions_ran_out,
        other != s.next_session,
    ensures
        ({
            let id = s.next_session;
            let after = with_session(s, target_engine_id, now_ms);
            &&& consistent(after)
            &&& !s.claims.contains_key(id) && !s.bindings.contains_key(id)
            &&& !s.statuses.contains_key(id) && !s.stopping.contains(id)
            &&& pending_commit::entries_of(s.pending.entries, id) == 0
            &&& claim_holds(after, id, token_of(now_ms, id, s.next_claim))
            &&& !claim_holds(after, other, token_of(now_ms, id, s.next_claim))
            &&& session_kept(s, after, other)
        }),
{
    let id = s.next_session;
    let after = with_session(s, target_engine_id, now_ms);
    lemma_token_names(now_ms, id, s.next_claim);
    assert(s.bindings.dom().contains(id) == s.claims.dom().contains(id));
    assert(after.bindings.dom() =~= after.claims.dom());
    lemma_none_of(s.pending.entries, id);
    if s.claims.contains_key(other) {
        lemma_names_differ(s.claims[other], other, token_of(now_ms, id, s.next_claim), id);
    }
}

proof fn lemma_none_of(entries: Seq<CommitView>, id: u64)
    requires
        forall|k: int| 0 <= k < entries.len() ==> (#[trigger] entries[k]).session_id < id,
    ensures
        pending_commit::entries_of(entries, id) == 0,
    decreases entries.len(),
{
    if entries.len() > 0 {
        assert forall|k: int| 0 <= k < entries.drop_last().len() implies (
        #[trigger] entries.drop_last()[k]).session_id < id by {
            assert(entries[k].session_id < id);
        }
        lemma_none_of(entries.drop_last(), id);
        assert(entries[entries.len() - 1].session_id < id);
    }
}

proof fn lemma_names_differ(a: Seq<char>, a_id: u64, b: Seq<char>, b_id: u64)
    requires
        token_names(a, a_id),
        token_names(b, b_id),
        a_id != b_id,
    ensures
        a != b,
{
    if a == b {
        text::lemma_u64_fits_hex(a_id);
        text::lemma_u64_fits_hex(b_id);
        text::lemma_hex_injective(a_id as nat, b_id as nat, 16);
    }
}

/// No token opens two sessions.
pub proof fn law_token_opens_one_session(s: StateView, a: u64, b: u64, token: Seq<char>)
    requires
        consistent(s),
        claim_holds(s, a, token),
        claim_holds(s, b, token),
    ensures
        a == b,
{
    if a != b {
        lemma_names_differ(s.claims[a], a, s.claims[b], b);
    }
}

/// To cancel a session is no matter of any other: one that is not forgotten for having ended long
/// ago keeps its status, token, engine and mark, and every other session keeps its preview and its
/// recording.
pub proof fn law_cancel_leaves_other_sessions(
    s: StateView,
    session_id: u64,
    now_ms: u64,
    other: u64,
)
    requires
        consistent(s),
        other != session_id,
    ensures
        ({
            let after = after_cancel(s, session_id, now_ms);
            &&& session_kept(cleaned(s, now_ms), after, other)
            &&& !is_expired(s, other, now_ms) ==> session_kept(s, after, other)
            &&& live_preedit::read(after.previews, other) == live_preedit::read(s.previews, other)
            &&& s.recording_session == Some(other) ==> after.recording_session == Some(other)
        }),
{
}

/// A session that is cancelled is cancelled as a whole: it counts as ended, is not stopping, is not
/// recorded, and as long as revisions have not run out nobody sees a preview of it.
pub proof fn law_cancelled_session_is_silent(
    s: StateView,
    session_id: u64,
    now_ms: u64,
    token: Seq<char>,
)
    requires
        consistent(s),
        cleaned(s, now_ms).claims.contains_key(session_id),
    ensures
        ({
            let after = after_cancel(s, session_id, now_ms);
            &&& consistent(after)
            &&& session_id != 0 ==> after.statuses.contains_key(session_id)
                && after.statuses[session_id].state == "cancelled"@
            &&& !after.stopping.contains(session_id)
            &&& after.recording_session != Some(session_id)
            &&& !s.revisions_ran_out ==> preview_hidden(after, session_id)
            &&& !s.revisions_ran_out ==> !preview_read(after, session_id, token).visible
                && preview_read(after, session_id, token).text.len() == 0
        }),
{
    law_cleanup_removes_exactly_the_expired(s, now_ms, session_id);
    let after = after_cancel(s, session_id, now_ms);
    assert(after.bindings.dom() =~= after.claims.dom());
}

/// Two sessions cannot both be the one that counts most for an engine: the answer is unique.
pub proof fn law_active_session_is_unique(
    s: StateView,
    engine_id: u64,
    a: (u64, Seq<char>, bool),
    b: (u64, Seq<char>, bool),
)
    requires
        is_active_session(s, engine_id, a.0, a.1, a.2),
        is_active_session(s, engine_id, b.0, b.1, b.2),
    ensures
        a.0 == b.0,
        a.1 =~= b.1,
        a.2 == b.2,
{
    if exists|c: u64| is_candidate(s, engine_id, c) {
        assert(is_candidate(s, engine_id, a.0));
        assert(is_candidate(s, engine_id, b.0));
        assert(ranks_below(s, a.0, b.0));
        assert(ranks_below(s, b.0, a.0));
    }
}

/// A session that records is handed to its engine before one that only waits to be fetched.
pub proof fn law_recording_session_comes_first(
    s: StateView,
    engine_id: u64,
    r: (u64, Seq<char>, bool),
    recording: u64,
)
    requires
        is_active_session(s, engine_id, r.0, r.1, r.2),
        is_candidate(s, engine_id, recording),
        s.statuses[recording].state == "recording"@,
    ensures
        s.statuses[r.0].state == "recording"@,
        r.2,
{
    assert(ranks_below(s, recording, r.0));
}

/// The focus moves only to an engine that reports it, and is given up only by the engine that
/// has it: another engine's loss of focus changes nothing.
pub proof fn law_focus_is_given_up_only_by_its_holder(s: StateView, engine_id: u64, now_ms: u64)
    ensures
        engine_id != s.focused_engine ==> with_focus(s, engine_id, false, now_ms) == s,
        with_focus(s, s.focused_engine, false, now_ms).focused_engine == 0,
        with_focus(s, engine_id, true, now_ms).focused_engine == engine_id,
        with_focus(s, s.focused_engine, true, now_ms) == s,
{
}

/// A final text stored for a session is delivered to the session's own token and to no other, and
/// the session then counts as committed.
pub proof fn law_text_goes_to_its_claim(s: StateView, session_id: u64, text: Seq<char>, now_ms: u64)
    requires
        consistent(s),
        session_id != 0,
        s.claims.contains_key(session_id),
        pending_commit::none_claimed(s.pending.entries, session_id, s.claims[session_id]),
    ensures
        ({
            let stored = with_pending(s, session_id, text, now_ms);
            let t = pending_commit::taken(stored.pending, session_id, s.claims[session_id]);
            let after = after_take(stored, session_id, s.claims[session_id], now_ms);
            &&& t.1 && t.2 == text
            &&& after.statuses[session_id].state == "committed"@
            &&& pending_commit::none_claimed(after.pending.entries, session_id, s.claims[session_id])
        }),
        forall|other: Seq<char>|
            pending_commit::none_claimed(s.pending.entries, session_id, other) && other
                != s.claims[session_id] ==> !(#[trigger] pending_commit::taken(
                with_pending(s, session_id, text, now_ms).pending,
                session_id,
                other,
            )).1,
{
    let token = s.claims[session_id];
    pending_commit::law_stored_text_is_taken_once(s.pending, session_id, token, text, now_ms);
    let stored = with_pending(s, session_id, text, now_ms).pending;
    let t = pending_commit::taken(stored, session_id, token);
    assert(t.0.entries == stored.entries.drop_last());
    assert forall|k: int| 0 <= k < t.0.entries.len() implies !pending_commit::claims(
        #[trigger] t.0.entries[k],
        session_id,
        token,
    ) by {
        let shift: int = if s.pending.entries.len() >= pending_commit::MAX_PENDING_COMMIT_QUEUE {
            1
        } else {
            0
        };
        assert(t.0.entries[k] == s.pending.entries[k + shift]);
    }
    assert forall|other: Seq<char>|
        pending_commit::none_claimed(s.pending.entries, session_id, other) && other
            != token implies !(#[trigger] pending_commit::taken(stored, session_id, other)).1 by {
        assert forall|k: int| 0 <= k < stored.entries.len() implies !pending_commit::claims(
            #[trigger] stored.entries[k],
            session_id,
            other,
        ) by {
            let shift: int = if s.pending.entries.len() >= pending_commit::MAX_PENDING_COMMIT_QUEUE {
                1
            } else {
                0
            };
            if k < stored.entries.len() - 1 {
                assert(stored.entries[k] == s.pending.entries[k + shift]);
            }
        }
        pending_commit::law_wrong_claim_changes_nothing(stored, session_id, other);
    }
}

/// A session is forgotten exactly if it came to one of the four ends more than five minutes ago. One
/// that records, starts or finalizes is never forgotten, however long that takes.
pub proof fn law_ended_sessions_are_kept_five_minutes(s: StateView, id: u64, now_ms: u64)
    requires
        s.statuses.contains_key(id),
    ensures
        ({
            let state = s.statuses[id].state;
            let ended = state == "ready"@ || state == "failed"@ || state == "cancelled"@ || state
                == "committed"@;
            let c = cleaned(s, now_ms);
            &&& ended && now_ms - s.statuses[id].updated_ms > 300_000 ==> !c.statuses.contains_key(id)
                && !c.claims.contains_key(id) && !c.bindings.contains_key(id)
                && !c.stopping.contains(id)
            &&& !ended || now_ms - s.statuses[id].updated_ms <= 300_000 ==> c.statuses.contains_key(
                id,
            ) && c.statuses[id] == s.statuses[id] && c.claims.contains_key(id)
                == s.claims.contains_key(id) && c.bindings.contains_key(id)
                == s.bindings.contains_key(id) && c.stopping.contains(id) == s.stopping.contains(id)
        }),
{
}

/// A clean-up touches nothing but sessions: the waiting texts, the previews, the recording, the
/// focus and the counters stay.
pub proof fn law_cleanup_touches_sessions_only(s: StateView, now_ms: u64)
    ensures
        ({
            let c = cleaned(s, now_ms);
            &&& c.pending == s.pending && c.previews == s.previews
            &&& c.recording_session == s.recording_session && c.language == s.language
            &&& c.next_session == s.next_session && c.next_claim == s.next_claim
            &&& c.next_revision == s.next_revision && c.focused_engine == s.focused_engine
            &&& c.focus_changed_ms == s.focus_changed_ms
        }),
{
}


proof fn lemma_states_differ()
    ensures
        "recording"@ != "finalizing"@,
        "recording"@ != "ready"@,
        "finalizing"@ != "ready"@,
        "recording"@ != "created"@,
        "recording"@ != "starting"@,
        "created"@ != "starting"@,
{
    reveal_strlit("recording");
    reveal_strlit("finalizing");
    reveal_strlit("ready");
    reveal_strlit("created");
    reveal_strlit("starting");
    assert("recording"@.len() == 9 && "finalizing"@.len() == 10 && "ready"@.len() == 5
        && "created"@.len() == 7 && "starting"@.len() == 8);
}

/// An engine works on a session of its own that records, finalizes or is ready, with that session's
/// token: none of its sessions counts more, none that counts as much was updated later, and none of
/// those updated at the same time has a greater id. Previews are wanted exactly while it records. An
/// engine without such a session is told of none.
pub proof fn law_engine_works_on_its_most_urgent_session(
    s: StateView,
    engine_id: u64,
    r: (u64, Seq<char>, bool),
    other: u64,
)
    requires
        is_active_session(s, engine_id, r.0, r.1, r.2),
        s.bindings.contains_key(other),
        s.bindings[other] == engine_id,
        s.statuses.contains_key(other),
        s.claims.contains_key(other),
        s.statuses[other].state == "recording"@ || s.statuses[other].state == "finalizing"@
            || s.statuses[other].state == "ready"@,
    ensures
        s.bindings.contains_key(r.0) && s.bindings[r.0] == engine_id,
        s.statuses.contains_key(r.0),
        s.claims.contains_key(r.0) && s.claims[r.0] == r.1,
        r.2 <==> s.statuses[r.0].state == "recording"@,
        s.statuses[other].state == "recording"@ ==> s.statuses[r.0].state == "recording"@,
        s.statuses[other].state == "finalizing"@ ==> s.statuses[r.0].state == "recording"@
            || s.statuses[r.0].state == "finalizing"@,
        s.statuses[r.0].state == "recording"@ || s.statuses[r.0].state == "finalizing"@
            || s.statuses[r.0].state == "ready"@,
        s.statuses[other].state == s.statuses[r.0].state ==> s.statuses[other].updated_ms
            <= s.statuses[r.0].updated_ms,
        s.statuses[other].state == s.statuses[r.0].state && s.statuses[other].updated_ms
            == s.statuses[r.0].updated_ms ==> other <= r.0,
{
    lemma_states_differ();
    assert(is_candidate(s, engine_id, other));
    assert(ranks_below(s, other, r.0));
}

/// An engine that has no session that records, finalizes or is ready is told of none.
pub proof fn law_idle_engine_has_no_session(
    s: StateView,
    engine_id: u64,
    r: (u64, Seq<char>, bool),
)
    requires
        is_active_session(s, engine_id, r.0, r.1, r.2),
        forall|id: u64|
            #![trigger s.bindings.contains_key(id)]
            s.bindings.contains_key(id) && s.bindings[id] == engine_id && s.statuses.contains_key(id)
                && s.claims.contains_key(id) ==> s.statuses[id].state != "recording"@
                && s.statuses[id].state != "finalizing"@ && s.statuses[id].state != "ready"@,
    ensures
        r.0 == 0,
        r.1.len() == 0,
        !r.2,
{
    if exists|c: u64| is_candidate(s, engine_id, c) {
        let c = choose|c: u64| is_candidate(s, engine_id, c);
        assert(s.bindings.contains_key(c));
    }
}

/// A status that is set is the one that is told of, with its message and its time; no other session's
/// changes. Session 0 has none, and a session without a status is told to be missing.
pub proof fn law_set_status_is_told(
    s: StateView,
    id: u64,
    state: Seq<char>,
    message: Seq<char>,
    now_ms: u64,
    other: u64,
)
    requires
        other != id,
    ensures
        ({
            let after = with_status(s, id, state, message, now_ms);
            &&& id != 0 ==> status_report(after, id) == (StatusView {
                state,
                message,
                updated_ms: now_ms,
            })
            &&& id == 0 ==> after == s
            &&& status_report(after, other) == status_report(s, other)
            &&& after.claims == s.claims && after.bindings == s.bindings && after.stopping
                == s.stopping && after.pending == s.pending && after.previews == s.previews
                && after.recording_session == s.recording_session
        }),
        !s.statuses.contains_key(other) ==> status_report(s, other).state == "missing"@
            && status_report(s, other).message == "Session not found"@ && status_report(
            s,
            other,
        ).updated_ms == 0,
        s.statuses.contains_key(other) ==> status_report(s, other) == s.statuses[other],
{
}

/// A session that is created is bound to its engine, holds a token made of the time, its id and a
/// number that no earlier token had, and counts as created.
pub proof fn law_created_session_is_complete(s: StateView, engine_id: u64, now_ms: u64)
    requires
        s.next_session != 0,
    ensures
        ({
            let id = s.next_session;
            let after = with_session(s, engine_id, now_ms);
            &&& after.bindings.contains_key(id) && after.bindings[id] == engine_id
            &&& after.claims.contains_key(id) && after.claims[id].len() == 48
            &&& text::hex_value(after.claims[id].subrange(0, 16)) == now_ms
            &&& text::hex_value(after.claims[id].subrange(16, 32)) == id
            &&& text::hex_value(after.claims[id].subrange(32, 48)) == s.next_claim
            &&& status_report(after, id) == (StatusView {
                state: "created"@,
                message: "Session created"@,
                updated_ms: now_ms,
            })
            &&& id < u64::MAX ==> after.next_session == id + 1
            &&& s.next_claim < u64::MAX ==> after.next_claim == s.next_claim + 1
        }),
{
    let id = s.next_session;
    let token = token_of(now_ms, id, s.next_claim);
    text::lemma_u64_fits_hex(now_ms);
    text::lemma_u64_fits_hex(id);
    text::lemma_u64_fits_hex(s.next_claim);
    text::law_hex_digits_stand_for_the_number(now_ms as nat, 16);
    text::law_hex_digits_stand_for_the_number(id as nat, 16);
    text::law_hex_digits_stand_for_the_number(s.next_claim as nat, 16);
    assert(token.subrange(0, 16) =~= text::hex(now_ms as nat, 16));
    assert(token.subrange(16, 32) =~= text::hex(id as nat, 16));
    assert(token.subrange(32, 48) =~= text::hex(s.next_claim as nat, 16));
}

/// A session that is forgotten leaves nothing behind but a text that waits for it, and no other
/// session is touched.
pub proof fn law_forgotten_session_is_gone(s: StateView, id: u64, other: u64)
    requires
        other != id,
    ensures
        ({
            let after = without_session(s, id);
            &&& !after.bindings.contains_key(id) && !after.claims.contains_key(id)
            &&& !after.statuses.contains_key(id) && !after.stopping.contains(id)
            &&& session_kept(s, after, other)
            &&& after.pending == s.pending && after.recording_session == s.recording_session
        }),
{
}

/// A session's token is accepted for that session, and no other text is.
pub proof fn law_only_the_token_is_accepted(s: StateView, id: u64, token: Seq<char>)
    ensures
        s.claims.contains_key(id) ==> (claim_holds(s, id, token) <==> s.claims[id] == token),
        !s.claims.contains_key(id) ==> !claim_holds(s, id, token),
{
}

/// A text of a session with a token waits under that token; the text of one without is dropped. A
/// text that is handed out makes its session committed; a claim that gets nothing leaves the session
/// as it is.
pub proof fn law_text_waits_under_the_token(
    s: StateView,
    id: u64,
    t: Seq<char>,
    token: Seq<char>,
    now_ms: u64,
)
    requires
        id != 0,
        s.pending.entries.len() < 32,
    ensures
        s.claims.contains_key(id) ==> with_pending(s, id, t, now_ms).pending.entries
            == s.pending.entries.push(
            pending_commit::CommitView {
                session_id: id,
                claim_token: s.claims[id],
                text: t,
                created_ms: now_ms,
            },
        ),
        !s.claims.contains_key(id) ==> with_pending(s, id, t, now_ms) == s,
        ({
            let got = pending_commit::taken(s.pending, id, token);
            let after = after_take(s, id, token, now_ms);
            &&& got.1 ==> status_report(after, id) == (StatusView {
                state: "committed"@,
                message: "Final commit delivered"@,
                updated_ms: now_ms,
            })
            &&& !got.1 ==> status_report(after, id) == status_report(s, id)
            &&& after.pending == got.0 && after.claims == s.claims && after.bindings == s.bindings
        }),
{
}

/// A preview is seen by whoever holds the session's token, as it was set last, and by nobody else;
/// an update that is older than what is there is ignored, and session 0 has no preview.
pub proof fn law_latest_preview_is_seen_with_the_token(
    s: StateView,
    id: u64,
    token: Seq<char>,
    entry: PreeditView,
    other: u64,
)
    requires
        id != 0,
        other != id,
    ensures
        ({
            let after = with_preview(s, id, entry);
            let newer = !s.previews.contains_key(id) || s.previews[id].revision < entry.revision;
            &&& s.claims.contains_key(id) && s.claims[id] == token && newer ==> preview_read(
                after,
                id,
                token,
            ) == entry
            &&& !newer ==> after == s
            &&& after.previews.contains_key(other) == s.previews.contains_key(other)
            &&& s.previews.contains_key(other) ==> after.previews[other] == s.previews[other]
            &&& !s.claims.contains_key(id) || s.claims[id] != token ==> preview_read(after, id, token)
                == (PreeditView { revision: 0, visible: false, text: Seq::empty() })
        }),
        s.claims.contains_key(id) && s.claims[id] == token && !s.previews.contains_key(id)
            ==> preview_read(s, id, token) == (PreeditView {
            revision: 0,
            visible: false,
            text: Seq::empty(),
        }),
        with_preview(s, 0, entry) == s,
{
}

/// What is shown or taken back under the next revision carries that revision, and the one after it is
/// greater.
pub proof fn law_previews_carry_growing_revisions(s: StateView, id: u64, t: Seq<char>)
    requires
        consistent(s),
        !s.revisions_ran_out,
        id != 0,
    ensures
        ({
            let shown = with_preview_shown(s, id, t);
            let cleared = with_preview_cleared(s, id);
            &&& shown.previews[id].revision == s.next_revision && shown.previews[id].visible
                && shown.previews[id].text == t
            &&& cleared.previews[id].revision == s.next_revision && !cleared.previews[id].visible
                && cleared.previews[id].text.len() == 0
            &&& s.next_revision < u64::MAX ==> shown.next_revision == s.next_revision + 1
                && cleared.next_revision == s.next_revision + 1
        }),
{
}

/// A cancelled session is told to be cancelled, since the moment it was; a session that is not known
/// is not touched by a cancel.
pub proof fn law_cancel_is_told(s: StateView, id: u64, now_ms: u64)
    requires
        id != 0,
    ensures
        cleaned(s, now_ms).claims.contains_key(id) ==> status_report(after_cancel(s, id, now_ms), id)
            == (StatusView {
            state: "cancelled"@,
            message: "Session cancelled"@,
            updated_ms: now_ms,
        }) && after_cancel(s, id, now_ms).pending == s.pending,
        !cleaned(s, now_ms).claims.contains_key(id) ==> after_cancel(s, id, now_ms) == cleaned(
            s,
            now_ms,
        ),
{
}

/// The recorder knows a session under a name that tells its id, so that no two sessions share one.
pub proof fn law_recordings_are_named_by_their_session(a: u64, b: u64)
    ensures
        binding_name(a).take(8) == "session-"@,
        text::dec_value(binding_name(a).skip(8)) == a,
        binding_name(a) == binding_name(b) ==> a == b,
{
    reveal_strlit("session-");
    text::law_decimal_digits_stand_for_the_number(a as nat);
    text::law_decimal_digits_stand_for_the_number(b as nat);
    assert(binding_name(a).take(8) =~= "session-"@);
    assert(binding_name(a).skip(8) =~= text::dec(a as nat));
    assert(binding_name(b).skip(8) =~= text::dec(b as nat));
}

/// Of any two sessions of an engine one counts at least as much as the other: a recording one as much
/// as any, a finalizing one as much as one that is ready; of two in the same state the one that was
/// updated later, and of two updated at the same time the one with the greater id.
pub proof fn law_any_two_sessions_can_be_ranked(s: StateView, a: u64, b: u64)
    ensures
        ranks_below(s, a, b) || ranks_below(s, b, a),
        ranks_below(s, a, a),
        s.statuses[b].state == "recording"@ && s.statuses[a].state != "recording"@ ==> ranks_below(
            s,
            a,
            b,
        ) && !ranks_below(s, b, a),
        s.statuses[a].state == "ready"@ && s.statuses[b].state == "finalizing"@ ==> ranks_below(
            s,
            a,
            b,
        ) && !ranks_below(s, b, a),
        s.statuses[a].state == s.statuses[b].state && s.statuses[a].updated_ms
            < s.statuses[b].updated_ms ==> ranks_below(s, a, b) && !ranks_below(s, b, a),
        s.statuses[a].state == s.statuses[b].state && s.statuses[a].updated_ms
            == s.statuses[b].updated_ms && a < b ==> ranks_below(s, a, b) && !ranks_below(s, b, a),
{
    lemma_states_differ();
}

/// The time of the last change of the focus is when it last went to another engine or to none, and
/// nothing but the focus changes with it. The recorder runs exactly while it records a session.
pub proof fn law_focus_changes_are_dated(s: StateView, engine_id: u64, focused: bool, now_ms: u64)
    ensures
        ({
            let after = with_focus(s, engine_id, focused, now_ms);
            &&& after.focused_engine != s.focused_engine ==> after.focus_changed_ms == now_ms
            &&& after.focused_engine == s.focused_engine ==> after.focus_changed_ms
                == s.focus_changed_ms
            &&& after.statuses == s.statuses && after.claims == s.claims && after.bindings
                == s.bindings && after.previews == s.previews && after.pending == s.pending
                && after.recording_session == s.recording_session && after.stopping == s.stopping
        }),
        is_recording(s) <==> exists|id: u64| s.recording_session == Some(id),
{
    if s.recording_session is Some {
        assert(s.recording_session == Some(s.recording_session->0));
    }
}

/// A service that has just started knows no session, no text and no engine.
pub proof fn law_service_starts_with_nothing(language: Seq<char>, now_ms: u64, id: u64)
    ensures
        ({
            let s = fresh(language, now_ms);
            &&& s.language == language
            &&& !is_recording(s) && !s.stopping.contains(id)
            &&& !s.statuses.contains_key(id) && !s.claims.contains_key(id)
                && !s.bindings.contains_key(id) && !s.previews.contains_key(id)
            &&& s.pending.entries.len() == 0 && s.pending.dropped == 0
            &&& s.focused_engine == 0 && s.focus_changed_ms == now_ms
            &&& s.next_session == 1 && s.next_claim == 1 && s.next_revision == 1
            &&& !s.sessions_ran_out && !s.revisions_ran_out
        }),
{
}

} // verus!
