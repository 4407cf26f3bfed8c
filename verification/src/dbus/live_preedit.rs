//! The latest live preview of each session.

use std::collections::HashMap;
use vstd::prelude::*;
use vstd::string::*;

verus! {

broadcast use vstd::std_specs::hash::group_hash_axioms;

/// A preview, or the fact that it was taken back, with its revision.
pub struct LivePreeditEntry {
    pub revision: u64,
    pub visible: bool,
    pub text: String,
}

/// What a `LivePreeditEntry` holds.
pub struct PreeditView {
    pub revision: u64,
    pub visible: bool,
    pub text: Seq<char>,
}

impl View for LivePreeditEntry {
    type V = PreeditView;

    open spec fn view(&self) -> PreeditView {
        PreeditView { revision: self.revision, visible: self.visible, text: self.text@ }
    }
}

/// The latest preview of each session.
pub struct LivePreeditStore {
    entries: HashMap<u64, LivePreeditEntry>,
}

impl View for LivePreeditStore {
    type V = Map<u64, PreeditView>;

    closed spec fn view(&self) -> Map<u64, PreeditView> {
        self.entries@.map_values(|e: LivePreeditEntry| e@)
    }
}

/// The previews after an update: one that is not newer than what the session has is ignored.
pub open spec fn updated(
    m: Map<u64, PreeditView>,
    session_id: u64,
    entry: PreeditView,
) -> Map<u64, PreeditView> {
    if m.contains_key(session_id) && m[session_id].revision >= entry.revision {
        m
    } else {
        m.insert(session_id, entry)
    }
}

/// A preview that is shown.
pub open spec fn shown(revision: u64, text: Seq<char>) -> PreeditView {
    PreeditView { revision, visible: true, text }
}

/// A preview that was taken back.
pub open spec fn hidden(revision: u64) -> PreeditView {
    PreeditView { revision, visible: false, text: Seq::empty() }
}

/// What a session's reader sees.
pub open spec fn read(m: Map<u64, PreeditView>, session_id: u64) -> PreeditView {
    if m.contains_key(session_id) {
        m[session_id]
    } else {
        hidden(0)
    }
}

impl Default for LivePreeditStore {
    fn default() -> (s: Self)
        ensures
            s@ == Map::<u64, PreeditView>::empty(),
    {
        let s = LivePreeditStore { entries: HashMap::new() };
        assert(s@ =~= Map::<u64, PreeditView>::empty());
        s
    }
}

impl LivePreeditStore {
    fn update(&mut self, session_id: u64, entry: LivePreeditEntry)
        ensures
            final(self)@ == updated(old(self)@, session_id, entry@),
    {
        if let Some(existing) = self.entries.get(&session_id) {
            if existing.revision >= entry.revision {
                return;
            }
        }
        self.entries.insert(session_id, entry);
        assert(self@ =~= old(self)@.insert(session_id, entry@));
    }

    /// Shows a text, unless the session has a preview of the same or a later revision.
    pub fn set(&mut self, session_id: u64, revision: u64, text: String)
        ensures
            final(self)@ == updated(old(self)@, session_id, shown(revision, text@)),
    {
        self.update(session_id, LivePreeditEntry { revision, visible: true, text });
    }

    /// Takes the preview back, unless the session has one of the same or a later revision.
    pub fn clear(&mut self, session_id: u64, revision: u64)
        ensures
            final(self)@ == updated(old(self)@, session_id, hidden(revision)),
    {
        self.update(session_id, LivePreeditEntry { revision, visible: false, text: String::new() });
    }

    /// The session's preview: its revision, whether it is shown, and its text.
    pub fn get_for_session(&self, session_id: u64) -> (r: (u64, bool, String))
        ensures
            (PreeditView { revision: r.0, visible: r.1, text: r.2@ }) == read(self@, session_id),
    {
        match self.entries.get(&session_id) {
            Some(entry) => (entry.revision, entry.visible, entry.text.clone()),
            None => (0, false, String::new()),
        }
    }
}

/// The latest revision of a session is what its reader sees: a newer update is seen as it is, and
/// an update that is not newer changes nothing.
pub proof fn law_latest_revision_is_read(
    m: Map<u64, PreeditView>,
    session_id: u64,
    entry: PreeditView,
)
    ensures
        !m.contains_key(session_id) || entry.revision > m[session_id].revision ==> read(
            updated(m, session_id, entry),
            session_id,
        ) == entry,
        m.contains_key(session_id) && entry.revision <= m[session_id].revision ==> updated(
            m,
            session_id,
            entry,
        ) == m,
        read(updated(m, session_id, entry), session_id).revision >= read(m, session_id).revision,
{
}

/// An update of one session leaves what every other session's reader sees.
pub proof fn law_sessions_are_isolated(
    m: Map<u64, PreeditView>,
    session_id: u64,
    entry: PreeditView,
    other: u64,
)
    requires
        other != session_id,
    ensures
        read(updated(m, session_id, entry), other) == read(m, other),
{
}

/// A preview that is taken back under a newer revision is hidden and empty, and stays so until a
/// still newer one is set.
pub proof fn law_clear_hides(
    m: Map<u64, PreeditView>,
    session_id: u64,
    revision: u64,
    stale: u64,
    text: Seq<char>,
)
    requires
        m.contains_key(session_id) ==> revision > m[session_id].revision,
        stale <= revision,
    ensures
        read(updated(m, session_id, hidden(revision)), session_id) == hidden(revision),
        read(
            updated(updated(m, session_id, hidden(revision)), session_id, shown(stale, text)),
            session_id,
        ) == hidden(revision),
{
}

} // verus!
