//! The queue of final texts that wait for the engine to claim them.

use crate::clock::now_millis;
use crate::counter;
use crate::json;
use crate::json::{json_field, write_object, JsonField, JsonValue, JsonView};
use crate::text::same_text;
use std::collections::VecDeque;
use vstd::prelude::*;
use vstd::string::*;

verus! {

broadcast use vstd::std_specs::vecdeque::group_vec_dequeue_axioms;

/// The greatest number of texts that wait at one time.
pub const MAX_PENDING_COMMIT_QUEUE: usize = 32;

/// A final text, with the session it belongs to and the token that claims it.
pub struct PendingCommit {
    pub session_id: u64,
    pub claim_token: String,
    pub text: String,
    pub created_ms: u64,
}

/// What a `PendingCommit` holds.
pub struct CommitView {
    pub session_id: u64,
    pub claim_token: Seq<char>,
    pub text: Seq<char>,
    pub created_ms: u64,
}

impl View for PendingCommit {
    type V = CommitView;

    open spec fn view(&self) -> CommitView {
        CommitView {
            session_id: self.session_id,
            claim_token: self.claim_token@,
            text: self.text@,
            created_ms: self.created_ms,
        }
    }
}

/// What the queue holds, oldest first, and how many texts it has dropped.
pub struct QueueView {
    pub entries: Seq<CommitView>,
    pub dropped: u64,
}

/// The queue of texts that wait to be claimed.
pub struct PendingCommitStore {
    queue: VecDeque<PendingCommit>,
    dropped_count: u64,
}

pub open spec fn commit_views(q: Seq<PendingCommit>) -> Seq<CommitView> {
    Seq::new(q.len(), |i: int| q[i]@)
}

impl View for PendingCommitStore {
    type V = QueueView;

    closed spec fn view(&self) -> QueueView {
        QueueView { entries: commit_views(self.queue@), dropped: self.dropped_count }
    }
}

/// The queue with one more text: a full queue loses its oldest one first, and counts it.
pub open spec fn stored(
    q: QueueView,
    session_id: u64,
    claim_token: Seq<char>,
    text: Seq<char>,
    now_ms: u64,
) -> QueueView {
    let full = q.entries.len() >= MAX_PENDING_COMMIT_QUEUE;
    let kept = if full { q.entries.skip(1) } else { q.entries };
    QueueView {
        entries: kept.push(CommitView { session_id, claim_token, text, created_ms: now_ms }),
        dropped: if full { counter::wrapped_next(q.dropped) } else { q.dropped },
    }
}

/// The entry is the session's and the token claims it.
pub open spec fn claims(e: CommitView, session_id: u64, claim_token: Seq<char>) -> bool {
    e.session_id == session_id && e.claim_token == claim_token
}

/// The position of the oldest entry that the token claims, counted from `from`.
pub open spec fn claimed_from(
    entries: Seq<CommitView>,
    session_id: u64,
    claim_token: Seq<char>,
    from: int,
) -> Option<int>
    decreases entries.len() - from,
{
    if from < 0 || from >= entries.len() {
        None
    } else if claims(entries[from], session_id, claim_token) {
        Some(from)
    } else {
        claimed_from(entries, session_id, claim_token, from + 1)
    }
}

/// The position of the oldest entry that the token claims.
pub open spec fn claimed(
    entries: Seq<CommitView>,
    session_id: u64,
    claim_token: Seq<char>,
) -> Option<
    int,
> {
    claimed_from(entries, session_id, claim_token, 0)
}

/// The queue after a claim, whether it was met, and the text.
pub open spec fn taken(q: QueueView, session_id: u64, claim_token: Seq<char>) -> (
    QueueView,
    bool,
    Seq<char>,
) {
    match claimed(q.entries, session_id, claim_token) {
        Some(i) => (
            QueueView { entries: q.entries.remove(i), dropped: q.dropped },
            true,
            q.entries[i].text,
        ),
        None => (q, false, Seq::empty()),
    }
}

/// The number of entries of each session, in the order in which the sessions first appear.
pub open spec fn targets(entries: Seq<CommitView>) -> Seq<(u64, u64)>
    decreases entries.len(),
{
    if entries.len() == 0 {
        Seq::empty()
    } else {
        counted(targets(entries.drop_last()), entries.last().session_id)
    }
}

/// One more for the session in a list of counts.
pub open spec fn counted(counts: Seq<(u64, u64)>, session_id: u64) -> Seq<(u64, u64)> {
    match place(counts, session_id, 0) {
        Some(i) => counts.update(i, (session_id, (counts[i].1 + 1) as u64)),
        None => counts.push((session_id, 1)),
    }
}

/// The place of a session in a list of counts.
pub open spec fn place(counts: Seq<(u64, u64)>, session_id: u64, from: int) -> Option<int>
    decreases counts.len() - from,
{
    if from < 0 || from >= counts.len() {
        None
    } else if counts[from].0 == session_id {
        Some(from)
    } else {
        place(counts, session_id, from + 1)
    }
}

/// The number of entries of a session.
pub open spec fn entries_of(entries: Seq<CommitView>, session_id: u64) -> nat
    decreases entries.len(),
{
    if entries.len() == 0 {
        0
    } else {
        entries_of(entries.drop_last(), session_id) + if entries.last().session_id == session_id {
            1nat
        } else {
            0
        }
    }
}

/// How long the oldest entry has waited, 0 for an empty queue.
pub open spec fn oldest_age(entries: Seq<CommitView>, now_ms: u64) -> u64 {
    if entries.len() > 0 {
        counter::minus(now_ms, entries[0].created_ms)
    } else {
        0
    }
}

/// The fields of the queue's statistics.
pub open spec fn stats_fields(q: QueueView, now_ms: u64) -> Seq<(Seq<char>, JsonView)> {
    seq![
        ("queue_len"@, JsonView::Unsigned(q.entries.len() as u64)),
        ("oldest_age_ms"@, JsonView::Unsigned(oldest_age(q.entries, now_ms))),
        ("dropped_count"@, JsonView::Unsigned(q.dropped)),
        ("targets"@, JsonView::Counts(targets(q.entries))),
    ]
}

/// The fields of the statistics of a queue that cannot be read.
pub open spec fn unreadable_stats_fields(dropped: u64) -> Seq<(Seq<char>, JsonView)> {
    seq![
        ("queue_len"@, JsonView::Unsigned(0)),
        ("oldest_age_ms"@, JsonView::Unsigned(0)),
        ("dropped_count"@, JsonView::Unsigned(dropped)),
        ("targets"@, JsonView::Counts(Seq::empty())),
        ("error"@, JsonView::Text("lock_poisoned"@)),
    ]
}

/// The statistics of a queue that cannot be read.
pub fn unreadable_stats_json(dropped_count: u64) -> (r: String)
    ensures
        r@ == json::object_text(unreadable_stats_fields(dropped_count)),
        json::all_read_back(r@, unreadable_stats_fields(dropped_count)),
{
    let mut fields: Vec<JsonField> = Vec::new();
    fields.push(json_field("queue_len", JsonValue::Unsigned(0)));
    fields.push(json_field("oldest_age_ms", JsonValue::Unsigned(0)));
    fields.push(json_field("dropped_count", JsonValue::Unsigned(dropped_count)));
    fields.push(json_field("targets", JsonValue::Counts(Vec::new())));
    fields.push(json_field("error", JsonValue::Text("lock_poisoned".to_owned())));
    let ghost views = unreadable_stats_fields(dropped_count);
    assert(json::field_views(fields@) =~= views);
    proof {
        reveal_strlit("queue_len");
        reveal_strlit("oldest_age_ms");
        reveal_strlit("dropped_count");
        reveal_strlit("targets");
        reveal_strlit("error");
        assert("queue_len"@.len() == 9);
        assert("oldest_age_ms"@.len() == 13);
        assert("dropped_count"@.len() == 13);
        assert("oldest_age_ms"@[0] != "dropped_count"@[0]);
        assert("targets"@.len() == 7);
        assert("error"@.len() == 5);
        assert(json::plain_keys(views));
    }
    write_object(&fields)
}

proof fn lemma_place(counts: Seq<(u64, u64)>, session_id: u64, from: int)
    requires
        0 <= from,
    ensures
        match place(counts, session_id, from) {
            Some(i) => from <= i < counts.len() && counts[i].0 == session_id,
            None => forall|k: int| from <= k < counts.len() ==> (#[trigger] counts[k]).0 != session_id,
        },
    decreases counts.len() - from,
{
    if from < counts.len() && counts[from].0 != session_id {
        lemma_place(counts, session_id, from + 1);
    }
}

proof fn lemma_claimed(entries: Seq<CommitView>, session_id: u64, claim_token: Seq<char>, from: int)
    requires
        0 <= from,
    ensures
        match claimed_from(entries, session_id, claim_token, from) {
            Some(i) => from <= i < entries.len() && claims(entries[i], session_id, claim_token)
                && forall|k: int| from <= k < i ==> !claims(#[trigger] entries[k], session_id, claim_token),
            None => forall|k: int|
                from <= k < entries.len() ==> !claims(#[trigger] entries[k], session_id, claim_token),
        },
    decreases entries.len() - from,
{
    if from < entries.len() && !claims(entries[from], session_id, claim_token) {
        lemma_claimed(entries, session_id, claim_token, from + 1);
    }
}

/// Nothing that the token claims waits in the queue.
pub open spec fn none_claimed(
    entries: Seq<CommitView>,
    session_id: u64,
    claim_token: Seq<char>,
) -> bool {
    forall|k: int| 0 <= k < entries.len() ==> !claims(#[trigger] entries[k], session_id, claim_token)
}

/// A text that is stored is handed out for its session and token, exactly once, and the rest of
/// the queue stays as it was: where nothing else waits under the token, a claim after the store
/// is met with the text, and the next claim is not met.
pub proof fn law_stored_text_is_taken_once(
    q: QueueView,
    session_id: u64,
    claim_token: Seq<char>,
    text: Seq<char>,
    now_ms: u64,
)
    requires
        none_claimed(q.entries, session_id, claim_token),
    ensures
        ({
            let after = stored(q, session_id, claim_token, text, now_ms);
            let first = taken(after, session_id, claim_token);
            let second = taken(first.0, session_id, claim_token);
            &&& first.1 && first.2 == text
            &&& first.0.entries == after.entries.drop_last()
            &&& first.0.dropped == after.dropped
            &&& !second.1 && second.2 == Seq::<char>::empty()
            &&& second.0 == first.0
        }),
{
    let after = stored(q, session_id, claim_token, text, now_ms);
    let last = after.entries.len() - 1;
    lemma_claimed(after.entries, session_id, claim_token, 0);
    assert(claims(after.entries[last], session_id, claim_token));
    assert forall|k: int| 0 <= k < last implies !claims(
        #[trigger] after.entries[k],
        session_id,
        claim_token,
    ) by {
        let shift: int = if q.entries.len() >= MAX_PENDING_COMMIT_QUEUE { 1 } else { 0 };
        assert(after.entries[k] == q.entries[k + shift]);
    }
    let first = taken(after, session_id, claim_token);
    assert(after.entries.remove(last) =~= after.entries.drop_last());
    lemma_claimed(first.0.entries, session_id, claim_token, 0);
}

/// A claim that nothing in the queue answers to changes nothing and brings no text.
pub proof fn law_wrong_claim_changes_nothing(q: QueueView, session_id: u64, claim_token: Seq<char>)
    requires
        none_claimed(q.entries, session_id, claim_token),
    ensures
        taken(q, session_id, claim_token) == (q, false, Seq::<char>::empty()),
{
    lemma_claimed(q.entries, session_id, claim_token, 0);
}

/// A claim that is met brings the oldest text that it answers to and leaves every other text in
/// the queue, in order.
pub proof fn law_take_is_oldest_and_keeps_others(
    q: QueueView,
    session_id: u64,
    claim_token: Seq<char>,
)
    requires
        !none_claimed(q.entries, session_id, claim_token),
    ensures
        exists|i: int|
            {
                &&& 0 <= i < q.entries.len()
                &&& claims(#[trigger] q.entries[i], session_id, claim_token)
                &&& forall|k: int| 0 <= k < i ==> !claims(q.entries[k], session_id, claim_token)
                &&& taken(q, session_id, claim_token) == (
                    QueueView { entries: q.entries.remove(i), dropped: q.dropped },
                    true,
                    q.entries[i].text,
                )
            },
{
    lemma_claimed(q.entries, session_id, claim_token, 0);
    let i = claimed(q.entries, session_id, claim_token)->0;
    assert(claims(q.entries[i], session_id, claim_token));
}

/// A claim of one session never touches what another session's claim would bring.
pub proof fn law_claims_are_independent(
    q: QueueView,
    session_id: u64,
    claim_token: Seq<char>,
    other_id: u64,
    other_token: Seq<char>,
)
    requires
        other_id != session_id || other_token != claim_token,
    ensures
        taken(taken(q, session_id, claim_token).0, other_id, other_token).1 == taken(
            q,
            other_id,
            other_token,
        ).1,
        taken(taken(q, session_id, claim_token).0, other_id, other_token).2 == taken(
            q,
            other_id,
            other_token,
        ).2,
{
    lemma_claimed(q.entries, session_id, claim_token, 0);
    lemma_claimed(q.entries, other_id, other_token, 0);
    let after = taken(q, session_id, claim_token).0;
    lemma_claimed(after.entries, other_id, other_token, 0);
    if let Some(i) = claimed(q.entries, session_id, claim_token) {
        match claimed(q.entries, other_id, other_token) {
            Some(j) => {
                assert(i != j);
                let j2 = if j < i { j } else { j - 1 };
                assert(after.entries[j2] == q.entries[j]);
                assert(claims(after.entries[j2], other_id, other_token));
                assert forall|k: int| 0 <= k < j2 implies !claims(
                    #[trigger] after.entries[k],
                    other_id,
                    other_token,
                ) by {
                    let k0 = if k < i { k } else { k + 1 };
                    assert(after.entries[k] == q.entries[k0]);
                }
            },
            None => {
                assert forall|k: int| 0 <= k < after.entries.len() implies !claims(
                    #[trigger] after.entries[k],
                    other_id,
                    other_token,
                ) by {
                    let k0 = if k < i { k } else { k + 1 };
                    assert(after.entries[k] == q.entries[k0]);
                }
            },
        }
    }
}

/// The queue never holds more than its room; a store into a full queue drops exactly the oldest
/// text and counts it, and any other store drops none.
pub proof fn law_queue_is_bounded(
    q: QueueView,
    session_id: u64,
    claim_token: Seq<char>,
    text: Seq<char>,
    now_ms: u64,
)
    requires
        q.entries.len() <= MAX_PENDING_COMMIT_QUEUE,
    ensures
        ({
            let after = stored(q, session_id, claim_token, text, now_ms);
            &&& 0 < after.entries.len() <= MAX_PENDING_COMMIT_QUEUE
            &&& after.entries.last() == (CommitView {
                session_id,
                claim_token,
                text,
                created_ms: now_ms,
            })
            &&& q.entries.len() < MAX_PENDING_COMMIT_QUEUE ==> after.entries.drop_last()
                == q.entries && after.dropped == q.dropped
            &&& q.entries.len() == MAX_PENDING_COMMIT_QUEUE ==> after.entries.drop_last()
                == q.entries.skip(1) && after.dropped == counter::wrapped_next(q.dropped)
        }),
{
    let after = stored(q, session_id, claim_token, text, now_ms);
    if q.entries.len() < MAX_PENDING_COMMIT_QUEUE {
        assert(after.entries.drop_last() =~= q.entries);
    } else {
        assert(after.entries.drop_last() =~= q.entries.skip(1));
    }
}

/// The count that the statistics list for a session is the number of its texts in the queue, and
/// a session that they do not list has none.
pub proof fn law_targets_count_entries(entries: Seq<CommitView>, session_id: u64)
    requires
        entries.len() <= MAX_PENDING_COMMIT_QUEUE,
    ensures
        match place(targets(entries), session_id, 0) {
            Some(i) => targets(entries)[i].1 == entries_of(entries, session_id),
            None => entries_of(entries, session_id) == 0,
        },
        entries_of(entries, session_id) <= entries.len(),
        forall|i: int, j: int|
            0 <= i < j < targets(entries).len() ==> (#[trigger] targets(entries)[i]).0 != (
            #[trigger] targets(entries)[j]).0,
    decreases entries.len(),
{
    if entries.len() > 0 {
        let before = targets(entries.drop_last());
        let id = entries.last().session_id;
        law_targets_count_entries(entries.drop_last(), session_id);
        law_targets_count_entries(entries.drop_last(), id);
        lemma_place(before, session_id, 0);
        lemma_place(before, id, 0);
        lemma_place(targets(entries), session_id, 0);
        if let Some(i) = place(before, session_id, 0) {
            assert(targets(entries)[i].0 == session_id);
        }
        if place(before, id, 0) is None {
            assert(targets(entries)[before.len() as int] == (id, 1u64));
        }
    }
}

/// A reader of the statistics finds under each session that has texts in the queue how many there
/// are.
pub proof fn law_stats_tell_each_target(
    stats: Seq<char>,
    q: QueueView,
    now_ms: u64,
    session_id: u64,
)
    requires
        q.entries.len() <= MAX_PENDING_COMMIT_QUEUE,
        json::all_read_back(stats, stats_fields(q, now_ms)),
        entries_of(q.entries, session_id) > 0,
    ensures
        json::unsigned_at(stats, json::count_pointer("targets"@, session_id)) == Some(
            entries_of(q.entries, session_id) as u64,
        ),
{
    let counts = targets(q.entries);
    law_targets_count_entries(q.entries, session_id);
    lemma_place(counts, session_id, 0);
    let i = place(counts, session_id, 0)->0;
    let field = stats_fields(q, now_ms)[3];
    assert(field == ("targets"@, JsonView::Counts(counts)));
    assert(json::reads_back(stats, field));
    assert(json::numbers_differ(counts));
    assert(counts[i].0 == session_id);
}

fn count_one(counts: &mut Vec<(u64, u64)>, id: u64)
    requires
        forall|m: int| 0 <= m < old(counts)@.len() ==> (#[trigger] old(counts)@[m]).1 < u64::MAX,
    ensures
        final(counts)@ == counted(old(counts)@, id),
{
    let mut k: usize = 0;
    while k < counts.len()
        invariant
            k <= counts@.len(),
            *counts == *old(counts),
            place(counts@, id, 0) == place(counts@, id, k as int),
            forall|m: int| 0 <= m < counts@.len() ==> (#[trigger] counts@[m]).1 < u64::MAX,
        decreases counts@.len() - k,
    {
        if counts[k].0 == id {
            let c: u64 = counts[k].1;
            counts.set(k, (id, c + 1));
            return;
        }
        k += 1;
    }
    counts.push((id, 1));
}

impl Default for PendingCommitStore {
    fn default() -> (s: Self)
        ensures
            s.wf(),
            s@ == (QueueView { entries: Seq::empty(), dropped: 0 }),
    {
        let s = PendingCommitStore {
            queue: VecDeque::with_capacity(MAX_PENDING_COMMIT_QUEUE),
            dropped_count: 0,
        };
        assert(s@.entries =~= Seq::<CommitView>::empty());
        s
    }
}

impl PendingCommitStore {
    /// No more texts wait than the queue has room for.
    pub open spec fn wf(&self) -> bool {
        self@.entries.len() <= MAX_PENDING_COMMIT_QUEUE
    }

    /// Stores a text at the given time.
    pub fn store_at(&mut self, session_id: u64, claim_token: String, text: String, now_ms: u64)
        requires
            old(self).wf(),
        ensures
            final(self).wf(),
            final(self)@ == stored(old(self)@, session_id, claim_token@, text@, now_ms),
    {
        let ghost before = self@.entries;
        if self.queue.len() >= MAX_PENDING_COMMIT_QUEUE {
            let ghost q0 = self.queue@;
            let _ = self.queue.pop_front();
            self.dropped_count = counter::wrapping_next(self.dropped_count);
            assert(commit_views(self.queue@) =~= before.skip(1));
        }
        let ghost q1 = self.queue@;
        self.queue.push_back(PendingCommit { session_id, claim_token, text, created_ms: now_ms });
        proof {
            assert(commit_views(self.queue@) =~= commit_views(q1).push(self.queue@.last()@));
        }
    }

    /// Stores a text that waits for the session's claim. A full queue drops its oldest text.
    pub fn store(&mut self, session_id: u64, claim_token: String, text: String)
        requires
            old(self).wf(),
        ensures
            final(self).wf(),
            exists|now_ms: u64|
                final(self)@ == stored(old(self)@, session_id, claim_token@, text@, now_ms),
    {
        let now_ms: u64 = now_millis();
        self.store_at(session_id, claim_token, text, now_ms);
    }

    /// Hands out the oldest text that the session's token claims, and forgets it.
    pub fn take_for_session(&mut self, session_id: u64, claim_token: &str) -> (r: (bool, String))
        requires
            old(self).wf(),
        ensures
            final(self).wf(),
            (final(self)@, r.0, r.1@) == taken(old(self)@, session_id, claim_token@),
    {
        let mut i: usize = 0;
        let n: usize = self.queue.len();
        while i < n
            invariant
                i <= n,
                n == self.queue@.len(),
                *self == *old(self),
                self.wf(),
                claimed(self@.entries, session_id, claim_token@) == claimed_from(
                    self@.entries,
                    session_id,
                    claim_token@,
                    i as int,
                ),
            decreases n - i,
        {
            let entry = &self.queue[i];
            assert(self@.entries[i as int] == entry@);
            if entry.session_id == session_id && same_text(entry.claim_token.as_str(), claim_token) {
                let ghost before = self@.entries;
                return match self.queue.remove(i) {
                    Some(pending) => {
                        assert(commit_views(self.queue@) =~= before.remove(i as int));
                        (true, pending.text)
                    },
                    None => {
                        assert(false);
                        (false, String::new())
                    },
                };
            }
            i += 1;
        }
        (false, String::new())
    }

    fn count_targets(&self) -> (counts: Vec<(u64, u64)>)
        requires
            self.wf(),
        ensures
            counts@ == targets(self@.entries),
    {
        let mut counts: Vec<(u64, u64)> = Vec::new();
        let n: usize = self.queue.len();
        let mut i: usize = 0;
        assert(self@.entries.take(0) =~= Seq::<CommitView>::empty());
        while i < n
            invariant
                i <= n,
                n == self.queue@.len(),
                n <= MAX_PENDING_COMMIT_QUEUE,
                counts@ == targets(self@.entries.take(i as int)),
                forall|k: int| 0 <= k < counts@.len() ==> (#[trigger] counts@[k]).1 <= i,
            decreases n - i,
        {
            let id: u64 = self.queue[i].session_id;
            let ghost e = self@.entries.take(i + 1);
            assert(e.drop_last() =~= self@.entries.take(i as int));
            assert(e.last().session_id == id);
            proof {
                lemma_place(counts@, id, 0);
            }
            count_one(&mut counts, id);
            i += 1;
        }
        assert(self@.entries.take(n as int) =~= self@.entries);
        counts
    }

    /// The queue's statistics at the given time, as JSON.
    pub fn stats_json_at(&self, now_ms: u64) -> (r: String)
        requires
            self.wf(),
        ensures
            r@ == json::object_text(stats_fields(self@, now_ms)),
            json::all_read_back(r@, stats_fields(self@, now_ms)),
    {
        let age: u64 = if self.queue.len() > 0 {
            now_ms.saturating_sub(self.queue[0].created_ms)
        } else {
            0
        };
        let counts = self.count_targets();
        let mut fields: Vec<JsonField> = Vec::new();
        fields.push(json_field("queue_len", JsonValue::Unsigned(self.queue.len() as u64)));
        fields.push(json_field("oldest_age_ms", JsonValue::Unsigned(age)));
        fields.push(json_field("dropped_count", JsonValue::Unsigned(self.dropped_count)));
        fields.push(json_field("targets", JsonValue::Counts(counts)));
        let ghost views = stats_fields(self@, now_ms);
        assert(json::field_views(fields@) =~= views);
        proof {
            reveal_strlit("queue_len");
            reveal_strlit("oldest_age_ms");
            reveal_strlit("dropped_count");
            reveal_strlit("targets");
            assert("queue_len"@.len() == 9);
            assert("oldest_age_ms"@.len() == 13);
            assert("dropped_count"@.len() == 13);
            assert("oldest_age_ms"@[0] != "dropped_count"@[0]);
            assert("targets"@.len() == 7);
            assert(json::plain_keys(views));
        }
        write_object(&fields)
    }

    /// The queue's statistics now, as JSON.
    pub fn stats_json(&self) -> (r: String)
        requires
            self.wf(),
        ensures
            exists|now_ms: u64|
                r@ == json::object_text(#[trigger] stats_fields(self@, now_ms))
                    && json::all_read_back(r@, stats_fields(self@, now_ms)),
    {
        let now_ms: u64 = now_millis();
        self.stats_json_at(now_ms)
    }

    /// How many texts a full queue has dropped.
    pub fn dropped_count(&self) -> (n: u64)
        ensures
            n == self@.dropped,
    {
        self.dropped_count
    }
}

/// A text that was stored for a session under a token goes to that session with that token and to
/// nobody else: the oldest such text comes out, and only it leaves the queue.
pub proof fn law_oldest_text_of_a_claim_comes_out(
    q: QueueView,
    session_id: u64,
    token: Seq<char>,
    i: int,
)
    requires
        0 <= i < q.entries.len(),
        q.entries[i].session_id == session_id,
        q.entries[i].claim_token == token,
        forall|k: int|
            0 <= k < i ==> (#[trigger] q.entries[k]).session_id != session_id
                || q.entries[k].claim_token != token,
    ensures
        taken(q, session_id, token).1,
        taken(q, session_id, token).2 == q.entries[i].text,
        taken(q, session_id, token).0.entries == q.entries.remove(i),
        taken(q, session_id, token).0.dropped == q.dropped,
{
    lemma_claimed(q.entries, session_id, token, 0);
    assert(claims(q.entries[i], session_id, token));
    let j = claimed(q.entries, session_id, token)->0;
    assert(claims(q.entries[j], session_id, token));
    if j < i {
        assert(q.entries[j].session_id != session_id || q.entries[j].claim_token != token);
    }
}

/// Where no text waits for a session under a token, nothing comes out and nothing changes: neither
/// another session's token nor another token of the session opens anything.
pub proof fn law_nobody_else_gets_a_text(q: QueueView, session_id: u64, token: Seq<char>)
    requires
        forall|k: int|
            0 <= k < q.entries.len() ==> (#[trigger] q.entries[k]).session_id != session_id
                || q.entries[k].claim_token != token,
    ensures
        taken(q, session_id, token).0 == q,
        !taken(q, session_id, token).1,
        taken(q, session_id, token).2.len() == 0,
{
    lemma_claimed(q.entries, session_id, token, 0);
    if let Some(j) = claimed(q.entries, session_id, token) {
        assert(claims(q.entries[j], session_id, token));
    }
}

/// Up to thirty-two texts wait, in the order in which they came; one more pushes the oldest out, and
/// that is counted.
pub proof fn law_thirty_two_texts_wait(
    q: QueueView,
    session_id: u64,
    token: Seq<char>,
    text: Seq<char>,
    now_ms: u64,
)
    ensures
        ({
            let after = stored(q, session_id, token, text, now_ms);
            let new = CommitView { session_id, claim_token: token, text, created_ms: now_ms };
            &&& q.entries.len() < 32 ==> after.entries == q.entries.push(new) && after.dropped
                == q.dropped
            &&& q.entries.len() == 32 ==> after.entries == q.entries.skip(1).push(new)
                && after.dropped == (if q.dropped == u64::MAX {
                0
            } else {
                q.dropped + 1
            })
        }),
{
}

/// The age that is told is that of the oldest text, and 0 where none waits.
pub proof fn law_oldest_age_is_told(entries: Seq<CommitView>, now_ms: u64)
    ensures
        entries.len() == 0 ==> oldest_age(entries, now_ms) == 0,
        entries.len() > 0 && now_ms >= entries[0].created_ms ==> oldest_age(entries, now_ms)
            == now_ms - entries[0].created_ms,
        entries.len() > 0 && now_ms < entries[0].created_ms ==> oldest_age(entries, now_ms) == 0,
{
}

/// The statistics of a queue are its length, the age of its oldest text and the number of texts
/// dropped; those of a queue that cannot be read say so and still tell the number dropped.
pub proof fn law_stats_describe_the_queue(q: QueueView, now_ms: u64)
    requires
        q.entries.len() <= 32,
    ensures
        ({
            let f = stats_fields(q, now_ms);
            &&& f.len() == 4
            &&& f[0].0 == "queue_len"@ && f[0].1 is Unsigned
            &&& f[0].1->Unsigned_0 == q.entries.len()
            &&& f[1].0 == "oldest_age_ms"@ && f[1].1 is Unsigned
            &&& q.entries.len() == 0 ==> f[1].1->Unsigned_0 == 0
            &&& q.entries.len() > 0 && now_ms >= q.entries[0].created_ms ==> f[1].1->Unsigned_0
                == now_ms - q.entries[0].created_ms
            &&& f[2] == ("dropped_count"@, JsonView::Unsigned(q.dropped))
            &&& f[3].0 == "targets"@
        }),
        ({
            let u = unreadable_stats_fields(q.dropped);
            &&& u.contains(("queue_len"@, JsonView::Unsigned(0)))
            &&& u.contains(("oldest_age_ms"@, JsonView::Unsigned(0)))
            &&& u.contains(("dropped_count"@, JsonView::Unsigned(q.dropped)))
            &&& u.contains(("error"@, JsonView::Text("lock_poisoned"@)))
        }),
{
    let u = unreadable_stats_fields(q.dropped);
    assert(u[0] == ("queue_len"@, JsonView::Unsigned(0)));
    assert(u[1] == ("oldest_age_ms"@, JsonView::Unsigned(0)));
    assert(u[2] == ("dropped_count"@, JsonView::Unsigned(q.dropped)));
    assert(u[4] == ("error"@, JsonView::Text("lock_poisoned"@)));
}

} // verus!
