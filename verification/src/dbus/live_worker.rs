//! The worker that shows a live preview while a session records.
//!
//! It looks at the recording from time to time, has a window of it transcribed, and shows what has
//! been heard so far. Sleeping, taking snapshots and transcribing is done by its caller.

use super::sessions;
use super::sessions::{DiktState, StateView};
use super::transcript;
use super::transcript::merge_live_transcript;
use crate::counter;
use crate::counter::saturating_next;
use crate::text;
use crate::text::{same_text, trim};
use crate::text_utils;
use crate::text_utils::convert_chinese_variant;
use vstd::prelude::*;
use vstd::string::*;

verus! {

/// How long the worker sleeps between two looks at the recording, in milliseconds.
pub const LIVE_PREEDIT_POLL_MS: u64 = 600;

/// The fewest new samples that are worth another transcription.
pub const LIVE_PREEDIT_MIN_NEW_SAMPLES: usize = 3200;

/// The fewest samples that are worth a transcription.
pub const LIVE_PREEDIT_MIN_TOTAL_SAMPLES: usize = 8000;

/// The most samples that one transcription looks at.
pub const LIVE_PREEDIT_MAX_WINDOW_SAMPLES: usize = 128_000;

/// What the worker remembers.
pub struct WorkerView {
    pub last_snapshot_len: usize,
    pub failure_streak: u64,
    pub published: Seq<char>,
    pub last_window: Seq<char>,
    pub accumulated: Seq<char>,
}

/// The worker of one session.
pub struct LivePreeditWorker {
    session_id: u64,
    target_engine_id: u64,
    last_snapshot_len: usize,
    snapshot_failure_streak: u64,
    published_text: String,
    last_window_text: String,
    accumulated_text: String,
}

impl View for LivePreeditWorker {
    type V = WorkerView;

    closed spec fn view(&self) -> WorkerView {
        WorkerView {
            last_snapshot_len: self.last_snapshot_len,
            failure_streak: self.snapshot_failure_streak,
            published: self.published_text@,
            last_window: self.last_window_text@,
            accumulated: self.accumulated_text@,
        }
    }
}

/// What the worker does after a look at the recording.
#[derive(Clone, Copy, Debug, PartialEq, Eq, Structural)]
pub enum WorkerStep {
    /// Stop working.
    Exit,
    /// Go round again.
    Again,
    /// Have the window transcribed.
    Transcribe,
}

/// The session is the worker's to show: it is bound to the worker's engine.
pub open spec fn still_bound(s: StateView, session_id: u64, engine_id: u64) -> bool {
    s.bindings.contains_key(session_id) && s.bindings[session_id] == engine_id
}

/// The worker goes on: the session stops in good order, or it records for the worker's engine.
pub open spec fn goes_on(s: StateView, session_id: u64, engine_id: u64) -> bool {
    s.stopping.contains(session_id) || (sessions::is_recording(s) && still_bound(s, session_id, engine_id))
}

/// What the worker does with a snapshot of so many samples.
pub open spec fn snapshot_step(
    w: WorkerView,
    s: StateView,
    session_id: u64,
    engine_id: u64,
    samples: Option<usize>,
) -> WorkerStep {
    match samples {
        None => if goes_on(s, session_id, engine_id) {
            WorkerStep::Again
        } else {
            WorkerStep::Exit
        },
        Some(n) => if n < LIVE_PREEDIT_MIN_TOTAL_SAMPLES || (w.last_snapshot_len > 0 && n
            - w.last_snapshot_len < LIVE_PREEDIT_MIN_NEW_SAMPLES) {
            WorkerStep::Again
        } else {
            WorkerStep::Transcribe
        },
    }
}

/// What the worker remembers after a snapshot.
pub open spec fn after_snapshot(
    w: WorkerView,
    step: WorkerStep,
    samples: Option<usize>,
) -> WorkerView {
    match samples {
        None => if step == WorkerStep::Exit {
            w
        } else {
            WorkerView { failure_streak: counter::saturated_next(w.failure_streak), ..w }
        },
        Some(n) => WorkerView {
            failure_streak: 0,
            last_snapshot_len: if step == WorkerStep::Transcribe {
                n
            } else {
                w.last_snapshot_len
            },
            ..w
        },
    }
}

/// What has been heard once a window has been transcribed.
pub open spec fn heard_text(w: WorkerView, live: Seq<char>) -> Seq<char> {
    if w.accumulated.len() == 0 {
        live
    } else {
        transcript::merged(w.accumulated, w.last_window, live)
    }
}

/// What the worker remembers after a window has been transcribed: it shows all that has been heard.
pub open spec fn after_hearing(w: WorkerView, live: Seq<char>) -> WorkerView {
    let all = heard_text(w, live);
    WorkerView { accumulated: all, last_window: live, published: all, ..w }
}

/// The worker's texts fit together: the text heard so far ends with the window heard last, and
/// what is shown is nothing or the text heard so far.
pub open spec fn worker_consistent(w: WorkerView) -> bool {
    &&& w.last_window.is_suffix_of(w.accumulated)
    &&& w.last_window.len() == 0 <==> w.accumulated.len() == 0
    &&& w.published.len() == 0 || w.published == w.accumulated
}

/// The text that a transcription shows: in the language's variant, trimmed.
pub open spec fn live_text(transcription: Seq<char>, language: Seq<char>) -> Seq<char> {
    text::trimmed(text_utils::converted(transcription, language))
}

/// The text that a transcription shows: in the language's variant, trimmed.
pub fn live_text_of(transcription: &str, language: &str) -> (r: String)
    ensures
        r@ == live_text(transcription@, language@),
{
    trim(convert_chinese_variant(transcription, language).as_str())
}

proof fn lemma_hearing_keeps_consistency(w: WorkerView, live: Seq<char>)
    requires
        worker_consistent(w),
        live.len() > 0,
    ensures
        worker_consistent(after_hearing(w, live)),
{
    if w.accumulated.len() > 0 {
        transcript::law_merge_ends_with_next(w.accumulated, w.last_window, live);
    } else {
        assert(live.is_suffix_of(live)) by {
            assert(live.subrange(0, live.len() as int) =~= live);
        }
    }
}

impl LivePreeditWorker {
    /// The worker's texts fit together.
    pub open spec fn wf(&self) -> bool {
        worker_consistent(self@)
    }

    /// The session that the worker shows.
    pub closed spec fn session(&self) -> u64 {
        self.session_id
    }

    /// The engine that the session was bound to when the worker began.
    pub closed spec fn engine(&self) -> u64 {
        self.target_engine_id
    }

    /// A worker for a session of an engine.
    pub fn new(session_id: u64, target_engine_id: u64) -> (w: Self)
        ensures
            w.wf(),
            w.session() == session_id,
            w.engine() == target_engine_id,
            w@ == (WorkerView {
                last_snapshot_len: 0,
                failure_streak: 0,
                published: Seq::empty(),
                last_window: Seq::empty(),
                accumulated: Seq::empty(),
            }),
    {
        let w = LivePreeditWorker {
            session_id,
            target_engine_id,
            last_snapshot_len: 0,
            snapshot_failure_streak: 0,
            published_text: String::new(),
            last_window_text: String::new(),
            accumulated_text: String::new(),
        };
        assert(w@.last_window.is_suffix_of(w@.accumulated)) by {
            assert(Seq::<char>::empty().subrange(0, 0) =~= Seq::<char>::empty());
        }
        w
    }

    fn bound(&self, state: &DiktState) -> (r: bool)
        ensures
            r == still_bound(state@, self.session(), self.engine()),
    {
        match state.session_binding(self.session_id) {
            Some(engine_id) => engine_id == self.target_engine_id,
            None => false,
        }
    }

    /// The look at the session before the worker sleeps. Without the preview feature the preview
    /// is taken back and the worker exits.
    pub fn before_sleep(&mut self, state: &mut DiktState, previews: bool) -> (r: WorkerStep)
        requires
            old(self).wf(),
            old(state).wf(),
        ensures
            final(self).wf(),
            final(state).wf(),
            final(self).session() == old(self).session(),
            final(self).engine() == old(self).engine(),
            r == (if previews && goes_on(old(state)@, old(self).session(), old(self).engine()) {
                WorkerStep::Again
            } else {
                WorkerStep::Exit
            }),
            !previews && old(self)@.published.len() > 0 ==> final(state)@
                == sessions::with_preview_cleared(old(state)@, old(self).session())
                && final(self)@ == (WorkerView { published: Seq::empty(), ..old(self)@ }),
            previews || old(self)@.published.len() == 0 ==> final(state)@ == old(state)@
                && final(self)@ == old(self)@,
    {
        if !previews {
            if !self.published_text.as_str().is_empty() {
                let revision: u64 = state.next_live_preedit_revision();
                state.clear_live_preedit(self.session_id, revision);
                self.published_text = String::new();
            }
            return WorkerStep::Exit;
        }
        let stopping: bool = state.session_is_stopping(self.session_id);
        if !state.is_recording() && !stopping {
            return WorkerStep::Exit;
        }
        if !stopping && !self.bound(state) {
            return WorkerStep::Exit;
        }
        WorkerStep::Again
    }

    /// A snapshot of so many samples was taken, or could not be.
    pub fn snapshot_taken(&mut self, state: &DiktState, samples: Option<usize>) -> (r: WorkerStep)
        requires
            old(self).wf(),
            state.wf(),
        ensures
            final(self).wf(),
            final(self).session() == old(self).session(),
            final(self).engine() == old(self).engine(),
            r == snapshot_step(
                old(self)@,
                state@,
                old(self).session(),
                old(self).engine(),
                samples,
            ),
            final(self)@ == after_snapshot(old(self)@, r, samples),
    {
        match samples {
            None => {
                if !state.session_is_stopping(self.session_id) && (!self.bound(state)
                    || !state.is_recording()) {
                    return WorkerStep::Exit;
                }
                self.snapshot_failure_streak = saturating_next(self.snapshot_failure_streak);
                WorkerStep::Again
            },
            Some(n) => {
                self.snapshot_failure_streak = 0;
                if n < LIVE_PREEDIT_MIN_TOTAL_SAMPLES {
                    return WorkerStep::Again;
                }
                if self.last_snapshot_len > 0 && n.saturating_sub(self.last_snapshot_len)
                    < LIVE_PREEDIT_MIN_NEW_SAMPLES {
                    return WorkerStep::Again;
                }
                self.last_snapshot_len = n;
                WorkerStep::Transcribe
            },
        }
    }

    /// A window was transcribed to this text.
    pub fn text_heard(&mut self, state: &mut DiktState, live: String) -> (r: WorkerStep)
        requires
            old(self).wf(),
            old(state).wf(),
        ensures
            final(self).wf(),
            final(state).wf(),
            final(self).session() == old(self).session(),
            final(self).engine() == old(self).engine(),
            r == (if old(state)@.stopping.contains(old(self).session()) || still_bound(
                old(state)@,
                old(self).session(),
                old(self).engine(),
            ) {
                WorkerStep::Again
            } else {
                WorkerStep::Exit
            }),
            r == WorkerStep::Exit || live@.len() == 0 ==> final(self)@ == old(self)@
                && final(state)@ == old(state)@,
            r == WorkerStep::Again && live@.len() > 0 ==> {
                &&& final(self)@ == after_hearing(old(self)@, live@)
                &&& final(state)@ == (if heard_text(old(self)@, live@) == old(self)@.published {
                    old(state)@
                } else {
                    sessions::with_preview_shown(
                        old(state)@,
                        old(self).session(),
                        heard_text(old(self)@, live@),
                    )
                })
            },
    {
        if !state.session_is_stopping(self.session_id) && !self.bound(state) {
            return WorkerStep::Exit;
        }
        if live.as_str().is_empty() {
            return WorkerStep::Again;
        }
        proof {
            lemma_hearing_keeps_consistency(self@, live@);
        }
        if self.accumulated_text.as_str().is_empty() {
            self.accumulated_text = live.clone();
        } else {
            self.accumulated_text = merge_live_transcript(
                self.accumulated_text.as_str(),
                self.last_window_text.as_str(),
                live.as_str(),
            );
        }
        self.last_window_text = live;
        if !same_text(self.accumulated_text.as_str(), self.published_text.as_str()) {
            let revision: u64 = state.next_live_preedit_revision();
            state.set_live_preedit(self.session_id, revision, self.accumulated_text.clone());
            self.published_text = self.accumulated_text.clone();
        }
        WorkerStep::Again
    }

    /// The worker has left its loop. A preview is taken back, except while the session stops in
    /// good order.
    pub fn finish(&self, state: &mut DiktState)
        requires
            old(state).wf(),
        ensures
            final(state).wf(),
            final(state)@ == (if self@.published.len() > 0 && !old(state)@.stopping.contains(
                self.session(),
            ) {
                sessions::with_preview_cleared(old(state)@, self.session())
            } else {
                old(state)@
            }),
    {
        if !self.published_text.as_str().is_empty() && !state.session_is_stopping(
            self.session_id,
        ) {
            let revision: u64 = state.next_live_preedit_revision();
            state.clear_live_preedit(self.session_id, revision);
        }
    }
}

/// As long as revisions have not run out, what is shown under a fresh revision is what a reader
/// with the claim token sees, and what is taken back is hidden from it; other sessions' previews
/// stay.
pub proof fn law_fresh_revision_is_seen(
    s: StateView,
    session_id: u64,
    token: Seq<char>,
    text: Seq<char>,
    other: u64,
)
    requires
        session_id != 0,
        other != session_id,
        sessions::consistent(s),
        !s.revisions_ran_out,
        sessions::claim_holds(s, session_id, token),
    ensures
        sessions::consistent(sessions::with_preview_shown(s, session_id, text)),
        sessions::consistent(sessions::with_preview_cleared(s, session_id)),
        sessions::preview_read(
            sessions::with_preview_shown(s, session_id, text),
            session_id,
            token,
        ).visible,
        sessions::preview_read(
            sessions::with_preview_shown(s, session_id, text),
            session_id,
            token,
        ).text == text,
        !sessions::preview_read(
            sessions::with_preview_cleared(s, session_id),
            session_id,
            token,
        ).visible,
        sessions::preview_read(
            sessions::with_preview_cleared(s, session_id),
            session_id,
            token,
        ).text.len() == 0,
        sessions::with_preview_shown(s, session_id, text).previews.contains_key(other)
            == s.previews.contains_key(other),
        s.previews.contains_key(other) ==> sessions::with_preview_shown(
            s,
            session_id,
            text,
        ).previews[other] == s.previews[other],
{
}

/// A reader without the session's token sees no preview.
pub proof fn law_preview_needs_the_claim(s: StateView, session_id: u64, token: Seq<char>)
    requires
        !sessions::claim_holds(s, session_id, token),
    ensures
        !sessions::preview_read(s, session_id, token).visible,
        sessions::preview_read(s, session_id, token).text.len() == 0,
{
}

/// Each window that is heard stays at the end of what is shown.
pub proof fn law_shown_text_ends_with_last_window(w: WorkerView, live: Seq<char>)
    requires
        worker_consistent(w),
        live.len() > 0,
    ensures
        worker_consistent(after_hearing(w, live)),
        live.is_suffix_of(after_hearing(w, live).published),
{
    lemma_hearing_keeps_consistency(w, live);
}

/// The worker goes on while its session stops in good order, and otherwise as long as something is
/// recorded and the session is still its engine's.
pub proof fn law_worker_lives_with_its_session(s: StateView, id: u64, engine_id: u64)
    ensures
        s.stopping.contains(id) ==> goes_on(s, id, engine_id),
        s.recording_session is Some && s.bindings.contains_key(id) && s.bindings[id] == engine_id
            ==> goes_on(s, id, engine_id),
        !s.stopping.contains(id) && s.recording_session is None ==> !goes_on(s, id, engine_id),
        !s.stopping.contains(id) && (!s.bindings.contains_key(id) || s.bindings[id] != engine_id)
            ==> !goes_on(s, id, engine_id),
{
}

/// A recording of at least half a second is transcribed the first time it is looked at, and after
/// that whenever at least a fifth of a second has been added, at 16000 samples a second; a shorter
/// one, or one with less new in it, waits. The length that was transcribed is remembered, and a
/// snapshot that succeeds ends a streak of failures.
pub proof fn law_new_speech_is_transcribed(
    w: WorkerView,
    s: StateView,
    id: u64,
    engine_id: u64,
    n: usize,
)
    ensures
        ({
            let step = snapshot_step(w, s, id, engine_id, Some(n));
            let after = after_snapshot(w, step, Some(n));
            &&& n >= 8000 && (w.last_snapshot_len == 0 || n - w.last_snapshot_len >= 3200) ==> step
                == WorkerStep::Transcribe && after.last_snapshot_len == n
            &&& n < 8000 || (w.last_snapshot_len > 0 && n - w.last_snapshot_len < 3200) ==> step
                == WorkerStep::Again && after.last_snapshot_len == w.last_snapshot_len
            &&& after.failure_streak == 0 && after.published == w.published && after.accumulated
                == w.accumulated && after.last_window == w.last_window
        }),
        ({
            let step = snapshot_step(w, s, id, engine_id, None);
            let after = after_snapshot(w, step, None);
            &&& step == WorkerStep::Again <==> goes_on(s, id, engine_id)
            &&& step == WorkerStep::Exit <==> !goes_on(s, id, engine_id)
            &&& step == WorkerStep::Again && w.failure_streak < u64::MAX ==> after.failure_streak
                == w.failure_streak + 1
            &&& step == WorkerStep::Exit ==> after == w
        }),
{
}

/// The first window heard is the text; a later one is merged into what was heard before. What is
/// heard is what is shown from then on.
pub proof fn law_windows_add_up(w: WorkerView, live: Seq<char>)
    ensures
        w.accumulated.len() == 0 ==> after_hearing(w, live).accumulated == live,
        w.accumulated.len() > 0 ==> after_hearing(w, live).accumulated == transcript::merged(
            w.accumulated,
            w.last_window,
            live,
        ),
        after_hearing(w, live).published == after_hearing(w, live).accumulated,
        after_hearing(w, live).last_window == live,
        after_hearing(w, live).last_snapshot_len == w.last_snapshot_len,
{
}

/// A dictation whose windows only grow is shown as its latest window.
pub proof fn law_growing_dictation_is_shown_whole(
    w: WorkerView,
    first: Seq<char>,
    second: Seq<char>,
)
    requires
        w.accumulated.len() == 0,
        first.len() > 0,
        first.len() <= second.len(),
        second.take(first.len() as int) == first,
    ensures
        after_hearing(after_hearing(w, first), second).published == second,
{
    let none = Seq::<char>::empty();
    assert(second.subrange(0, first.len() as int) =~= second.take(first.len() as int));
    assert(second.subrange(0, second.len() as int) =~= second);
    transcript::law_growing_window_is_replaced(none, first, second, second);
    assert(none + first =~= first);
    assert(none + second =~= second);
}

/// What is heard is shown without the space around it; a text that is not in a variant of written
/// Chinese is shown in no other way changed.
pub proof fn law_heard_text_is_shown_trimmed(
    before: Seq<char>,
    middle: Seq<char>,
    after: Seq<char>,
    language: Seq<char>,
)
    requires
        forall|i: int| 0 <= i < before.len() ==> text::is_ws(#[trigger] before[i]),
        forall|i: int| 0 <= i < after.len() ==> text::is_ws(#[trigger] after[i]),
        middle.len() > 0 ==> !text::is_ws(middle[0]) && !text::is_ws(middle.last()),
        language != "zh-Hans"@ && language != "zh-Hant"@,
    ensures
        live_text(before + middle + after, language) == middle,
{
    text_utils::law_only_chinese_is_converted(before + middle + after, language);
    text::law_only_the_space_around_is_trimmed(before, middle, after);
}

} // verus!
