//! The history of transcriptions: how entries are named, and which are cleaned up.

use crate::clock::now_millis;
use crate::settings::RecordingRetentionPeriod;
use crate::text;
use crate::text::{concat2, decimal_signed};
use chrono::TimeZone;
use vstd::prelude::*;
use vstd::string::*;

verus! {

/// A transcription that is remembered.
pub struct HistoryEntry {
    pub id: i64,
    pub file_name: String,
    pub timestamp: i64,
    pub saved: bool,
    pub title: String,
    pub transcription_text: String,
    pub post_processed_text: Option<String>,
    pub post_process_prompt: Option<String>,
}

/// What matters of an entry when the history is cleaned up.
pub struct HistoryRow {
    pub id: i64,
    pub file_name: String,
    pub timestamp: i64,
    pub saved: bool,
}

/// What a `HistoryRow` holds.
pub struct RowView {
    pub id: i64,
    pub file_name: Seq<char>,
    pub timestamp: i64,
    pub saved: bool,
}

impl View for HistoryRow {
    type V = RowView;

    open spec fn view(&self) -> RowView {
        RowView {
            id: self.id,
            file_name: self.file_name@,
            timestamp: self.timestamp,
            saved: self.saved,
        }
    }
}

/// What a list of rows holds.
pub open spec fn row_views(rows: Seq<HistoryRow>) -> Seq<RowView> {
    Seq::new(rows.len(), |i: int| rows[i]@)
}

/// What a list of rows to delete holds: ids and file names.
pub open spec fn doomed_views(rows: Seq<(i64, String)>) -> Seq<(i64, Seq<char>)> {
    Seq::new(rows.len(), |i: int| (rows[i].0, rows[i].1@))
}

/// The rows that the user has not saved, in order.
pub open spec fn unsaved(rows: Seq<RowView>) -> Seq<RowView>
    decreases rows.len(),
{
    if rows.len() == 0 {
        Seq::empty()
    } else if rows.last().saved {
        unsaved(rows.drop_last())
    } else {
        unsaved(rows.drop_last()).push(rows.last())
    }
}

/// The ids and file names of rows.
pub open spec fn named(rows: Seq<RowView>) -> Seq<(i64, Seq<char>)> {
    Seq::new(rows.len(), |i: int| (rows[i].id, rows[i].file_name))
}

/// What has to go of a history, newest first, of which only so many unsaved entries are kept.
pub open spec fn over_limit(rows: Seq<RowView>, limit: nat) -> Seq<(i64, Seq<char>)> {
    let open_rows = unsaved(rows);
    if open_rows.len() > limit {
        named(open_rows).skip(limit as int)
    } else {
        Seq::empty()
    }
}

/// What has to go of a history of which unsaved entries are kept only from a time on.
pub open spec fn older_than(rows: Seq<RowView>, cutoff: i64) -> Seq<(i64, Seq<char>)>
    decreases rows.len(),
{
    if rows.len() == 0 {
        Seq::empty()
    } else {
        let before = older_than(rows.drop_last(), cutoff);
        let r = rows.last();
        if !r.saved && r.timestamp < cutoff {
            before.push((r.id, r.file_name))
        } else {
            before
        }
    }
}

/// How a history is cleaned up.
#[derive(Clone, Copy, Debug, PartialEq, Eq, Structural)]
pub enum CleanupPlan {
    Nothing,
    /// Keep only so many unsaved entries.
    KeepNewest(usize),
    /// Keep unsaved entries only from this time on.
    KeepSince(i64),
}

/// How many seconds entries are kept.
pub open spec fn kept_seconds(period: RecordingRetentionPeriod) -> Option<int> {
    match period {
        RecordingRetentionPeriod::Days3 => Some(259_200),
        RecordingRetentionPeriod::Weeks2 => Some(1_209_600),
        RecordingRetentionPeriod::Months3 => Some(7_776_000),
        _ => None,
    }
}

/// How the history is cleaned up at the given time, in seconds since the epoch.
pub fn cleanup_plan(period: RecordingRetentionPeriod, limit: usize, now: i64) -> (r: CleanupPlan)
    requires
        kept_seconds(period) matches Some(s) ==> now - s >= i64::MIN,
    ensures
        r == (match period {
            RecordingRetentionPeriod::Never => CleanupPlan::Nothing,
            RecordingRetentionPeriod::PreserveLimit => CleanupPlan::KeepNewest(limit),
            _ => CleanupPlan::KeepSince((now - kept_seconds(period)->0) as i64),
        }),
{
    match period {
        RecordingRetentionPeriod::Never => CleanupPlan::Nothing,
        RecordingRetentionPeriod::PreserveLimit => CleanupPlan::KeepNewest(limit),
        RecordingRetentionPeriod::Days3 => CleanupPlan::KeepSince(now - 259_200),
        RecordingRetentionPeriod::Weeks2 => CleanupPlan::KeepSince(now - 1_209_600),
        RecordingRetentionPeriod::Months3 => CleanupPlan::KeepSince(now - 7_776_000),
    }
}

/// What a plan deletes of a history that is given newest first.
pub open spec fn doomed(rows: Seq<RowView>, plan: CleanupPlan) -> Seq<(i64, Seq<char>)> {
    match plan {
        CleanupPlan::Nothing => Seq::empty(),
        CleanupPlan::KeepNewest(limit) => over_limit(rows, limit as nat),
        CleanupPlan::KeepSince(cutoff) => older_than(rows, cutoff),
    }
}

fn rows_over_limit(rows: &Vec<HistoryRow>, limit: usize) -> (r: Vec<(i64, String)>)
    ensures
        doomed_views(r@) == over_limit(row_views(rows@), limit as nat),
{
    let ghost all = row_views(rows@);
    let mut r: Vec<(i64, String)> = Vec::new();
    let mut kept: usize = 0;
    let mut i: usize = 0;
    assert(all.take(0) =~= Seq::<RowView>::empty());
    assert(doomed_views(r@) =~= Seq::<(i64, Seq<char>)>::empty());
    while i < rows.len()
        invariant
            i <= rows@.len(),
            all == row_views(rows@),
            kept <= limit,
            kept <= i,
            unsaved(all.take(i as int)).len() == kept + r@.len(),
            r@.len() > 0 ==> kept == limit,
            doomed_views(r@) == named(unsaved(all.take(i as int))).skip(kept as int),
        decreases rows@.len() - i,
    {
        let ghost before = r@;
        let ghost seen = unsaved(all.take(i as int));
        proof {
            let next = all.take(i + 1);
            assert(next.drop_last() =~= all.take(i as int));
            assert(next.last() == rows@[i as int]@);
        }
        if !rows[i].saved {
            if kept < limit {
                kept += 1;
                assert(doomed_views(r@) =~= named(seen.push(rows@[i as int]@)).skip(kept as int));
            } else {
                r.push((rows[i].id, rows[i].file_name.clone()));
                proof {
                    let one = (rows@[i as int].id, rows@[i as int].file_name@);
                    assert(doomed_views(r@) =~= doomed_views(before).push(one));
                    assert(named(seen.push(rows@[i as int]@)) =~= named(seen).push(one));
                    assert(named(seen).push(one).skip(kept as int) =~= named(seen).skip(
                        kept as int,
                    ).push(one));
                }
            }
        }
        i += 1;
    }
    assert(all.take(i as int) =~= all);
    assert(unsaved(all).len() <= limit ==> doomed_views(r@) =~= Seq::<(i64, Seq<char>)>::empty());
    r
}

fn rows_older_than(rows: &Vec<HistoryRow>, cutoff: i64) -> (r: Vec<(i64, String)>)
    ensures
        doomed_views(r@) == older_than(row_views(rows@), cutoff),
{
    let ghost all = row_views(rows@);
    let mut r: Vec<(i64, String)> = Vec::new();
    let mut i: usize = 0;
    assert(all.take(0) =~= Seq::<RowView>::empty());
    assert(doomed_views(r@) =~= Seq::<(i64, Seq<char>)>::empty());
    while i < rows.len()
        invariant
            i <= rows@.len(),
            all == row_views(rows@),
            doomed_views(r@) == older_than(all.take(i as int), cutoff),
        decreases rows@.len() - i,
    {
        let ghost before = r@;
        proof {
            let next = all.take(i + 1);
            assert(next.drop_last() =~= all.take(i as int));
            assert(next.last() == rows@[i as int]@);
        }
        if !rows[i].saved && rows[i].timestamp < cutoff {
            r.push((rows[i].id, rows[i].file_name.clone()));
            assert(doomed_views(r@) =~= doomed_views(before).push(
                (rows@[i as int].id, rows@[i as int].file_name@),
            ));
        }
        i += 1;
    }
    assert(all.take(i as int) =~= all);
    r
}

/// The entries, with their files, that a plan deletes of a history that is given newest first.
pub fn entries_to_delete(rows: &Vec<HistoryRow>, plan: CleanupPlan) -> (r: Vec<(i64, String)>)
    ensures
        doomed_views(r@) == doomed(row_views(rows@), plan),
{
    match plan {
        CleanupPlan::Nothing => {
            let r: Vec<(i64, String)> = Vec::new();
            assert(doomed_views(r@) =~= Seq::<(i64, Seq<char>)>::empty());
            r
        },
        CleanupPlan::KeepNewest(limit) => rows_over_limit(rows, limit),
        CleanupPlan::KeepSince(cutoff) => rows_older_than(rows, cutoff),
    }
}

/// The recording's file of a transcription.
pub fn recording_file_name(timestamp: i64) -> (r: String)
    ensures
        r@ == "handy-"@ + text::dec_signed(timestamp as int) + ".wav"@,
{
    let mut r = concat2("handy-", decimal_signed(timestamp).as_str());
    r.append(".wav");
    r
}

/// The time of a timestamp, in UTC, as `chrono` writes it with `%Y-%m-%d %H:%M:%S`; nothing where
/// `chrono` cannot hold it.
pub uninterp spec fn utc_time(timestamp: i64) -> Option<Seq<char>>;

/// Calls `Utc.timestamp_opt` and, where it gives a single time, `DateTime::format`. Both are
/// functions of the timestamp: UTC needs no time zone data.
#[verifier::external_body]
fn utc_time_text(timestamp: i64) -> (r: Option<String>)
    ensures
        match r {
            Some(t) => utc_time(timestamp) == Some(t@),
            None => utc_time(timestamp) is None,
        },
{
    let time = chrono::Utc.timestamp_opt(timestamp, 0).single()?;
    Some(time.format("%Y-%m-%d %H:%M:%S").to_string())
}

/// The title of a transcription: its own time, or else the current one.
pub fn title_from(own: Option<String>, current: Option<String>) -> (r: String)
    ensures
        r@ == (match (own, current) {
            (Some(t), _) => t@,
            (None, Some(t)) => t@,
            (None, None) => Seq::empty(),
        }),
{
    match own {
        Some(t) => t,
        None => match current {
            Some(t) => t,
            None => String::new(),
        },
    }
}

/// The title of a transcription: its time in UTC, or else the given time in milliseconds.
pub open spec fn timestamp_title(timestamp: i64, now_ms: u64) -> Seq<char> {
    match (utc_time(timestamp), utc_time((now_ms / 1000) as i64)) {
        (Some(t), _) => t,
        (None, Some(t)) => t,
        (None, None) => Seq::empty(),
    }
}

/// The title of a transcription: its time in UTC. A time that cannot be written stands for the
/// given one.
pub fn format_timestamp_title_at(timestamp: i64, now_ms: u64) -> (r: String)
    ensures
        r@ == timestamp_title(timestamp, now_ms),
{
    title_from(utc_time_text(timestamp), utc_time_text((now_ms / 1000) as i64))
}

/// The title of a transcription: its time in UTC. A time that cannot be written stands for now.
pub fn format_timestamp_title(timestamp: i64) -> (r: String)
    ensures
        exists|now_ms: u64| r@ == #[trigger] timestamp_title(timestamp, now_ms),
        utc_time(timestamp) matches Some(t) ==> r@ == t,
{
    let now_ms: u64 = now_millis();
    format_timestamp_title_at(timestamp, now_ms)
}

proof fn lemma_unsaved(rows: Seq<RowView>, i: int)
    requires
        0 <= i < unsaved(rows).len(),
    ensures
        !unsaved(rows)[i].saved,
        rows.contains(unsaved(rows)[i]),
    decreases rows.len(),
{
    if rows.len() > 0 {
        let u = unsaved(rows.drop_last());
        if rows.last().saved || i < u.len() {
            lemma_unsaved(rows.drop_last(), i);
            let k = choose|k: int| 0 <= k < rows.len() - 1 && rows.drop_last()[k] == u[i];
            assert(rows[k] == unsaved(rows)[i]);
        } else {
            assert(rows[rows.len() - 1] == unsaved(rows)[i]);
        }
    }
}

proof fn lemma_older_than(rows: Seq<RowView>, cutoff: i64, i: int)
    requires
        0 <= i < older_than(rows, cutoff).len(),
    ensures
        exists|k: int|
            0 <= k < rows.len() && !(#[trigger] rows[k]).saved && rows[k].timestamp < cutoff
                && older_than(rows, cutoff)[i] == (rows[k].id, rows[k].file_name),
    decreases rows.len(),
{
    let last = rows.len() - 1;
    let before = older_than(rows.drop_last(), cutoff);
    if i < before.len() {
        lemma_older_than(rows.drop_last(), cutoff, i);
        let k = choose|k: int|
            0 <= k < rows.drop_last().len() && !(#[trigger] rows.drop_last()[k]).saved
                && rows.drop_last()[k].timestamp < cutoff && before[i] == (
                rows.drop_last()[k].id,
                rows.drop_last()[k].file_name,
            );
        assert(!rows[k].saved);
    } else {
        assert(!rows[last].saved);
    }
}

/// Whatever is deleted is in the history and was not saved by the user; and a plan that keeps
/// entries by their age deletes none that is young enough.
pub proof fn law_saved_entries_are_kept(rows: Seq<RowView>, plan: CleanupPlan, i: int)
    requires
        0 <= i < doomed(rows, plan).len(),
    ensures
        exists|k: int|
            0 <= k < rows.len() && !(#[trigger] rows[k]).saved && doomed(rows, plan)[i] == (
                rows[k].id,
                rows[k].file_name,
            ) && (plan matches CleanupPlan::KeepSince(cutoff) ==> rows[k].timestamp < cutoff),
{
    match plan {
        CleanupPlan::KeepNewest(limit) => {
            let u = unsaved(rows);
            lemma_unsaved(rows, i + limit);
            let k = choose|k: int| 0 <= k < rows.len() && rows[k] == u[i + limit];
            assert(!rows[k].saved);
        },
        CleanupPlan::KeepSince(cutoff) => {
            lemma_older_than(rows, cutoff, i);
        },
        CleanupPlan::Nothing => {},
    }
}

/// A limit keeps exactly the newest unsaved entries: what is deleted are all the unsaved entries
/// but the first `limit`.
pub proof fn law_limit_keeps_the_newest(rows: Seq<RowView>, limit: usize)
    ensures
        ({
            let all = named(unsaved(rows));
            let gone = doomed(rows, CleanupPlan::KeepNewest(limit));
            &&& all.len() <= limit ==> gone.len() == 0
            &&& all.len() > limit ==> gone.len() == all.len() - limit && all == all.take(
                limit as int,
            ) + gone
        }),
{
    let all = named(unsaved(rows));
    if all.len() > limit {
        assert(all.take(limit as int) + all.skip(limit as int) =~= all);
    }
}

proof fn lemma_older_are_listed(rows: Seq<RowView>, cutoff: i64, k: int)
    requires
        0 <= k < rows.len(),
        !rows[k].saved,
        rows[k].timestamp < cutoff,
    ensures
        older_than(rows, cutoff).contains((rows[k].id, rows[k].file_name)),
    decreases rows.len(),
{
    let one = (rows[k].id, rows[k].file_name);
    let before = older_than(rows.drop_last(), cutoff);
    let after = older_than(rows, cutoff);
    if k < rows.len() - 1 {
        lemma_older_are_listed(rows.drop_last(), cutoff, k);
        let i = choose|i: int| 0 <= i < before.len() && before[i] == one;
        assert(after[i] == one);
    } else {
        assert(after[before.len() as int] == one);
    }
}

/// A plan that keeps entries from a time on deletes every older one that the user has not saved,
/// however old it is.
pub proof fn law_all_older_entries_are_deleted(rows: Seq<RowView>, cutoff: i64, k: int)
    requires
        0 <= k < rows.len(),
        !rows[k].saved,
        rows[k].timestamp < cutoff,
    ensures
        doomed(rows, CleanupPlan::KeepSince(cutoff)).contains((rows[k].id, rows[k].file_name)),
{
    lemma_older_are_listed(rows, cutoff, k);
}

/// One more row at the end of a history adds at most itself to what a plan by age deletes, behind
/// what goes of the others, and only where it is old enough and not saved. No plan deletes without a
/// reason: nothing of an empty history, and nothing at all where everything is kept.
pub proof fn law_each_row_is_judged_by_itself(rows: Seq<RowView>, row: RowView, cutoff: i64)
    ensures
        doomed(rows.push(row), CleanupPlan::KeepSince(cutoff)) == (if row.saved || row.timestamp
            >= cutoff {
            doomed(rows, CleanupPlan::KeepSince(cutoff))
        } else {
            doomed(rows, CleanupPlan::KeepSince(cutoff)).push((row.id, row.file_name))
        }),
        doomed(Seq::<RowView>::empty(), CleanupPlan::KeepSince(cutoff)).len() == 0,
        doomed(rows, CleanupPlan::Nothing).len() == 0,
{
    assert(rows.push(row).drop_last() =~= rows);
}

/// How many of the first `n` rows the user has not saved.
pub open spec fn unsaved_among(rows: Seq<RowView>, n: int) -> int
    decreases n,
{
    if n <= 0 || n > rows.len() {
        0
    } else {
        unsaved_among(rows, n - 1) + if rows[n - 1].saved {
            0int
        } else {
            1int
        }
    }
}

proof fn lemma_place_among_unsaved(rows: Seq<RowView>, k: int)
    requires
        0 <= k < rows.len(),
        !rows[k].saved,
    ensures
        0 <= unsaved_among(rows, k) < unsaved(rows).len(),
        unsaved(rows)[unsaved_among(rows, k)] == rows[k],
    decreases rows.len(),
{
    let fewer = rows.drop_last();
    if k < rows.len() - 1 {
        lemma_place_among_unsaved(fewer, k);
        lemma_unsaved_among_fewer(rows, k);
    } else {
        lemma_unsaved_count(fewer);
        lemma_unsaved_among_fewer(rows, k);
    }
}

proof fn lemma_unsaved_among_fewer(rows: Seq<RowView>, n: int)
    requires
        rows.len() > 0,
        n <= rows.len() - 1,
    ensures
        unsaved_among(rows, n) == unsaved_among(rows.drop_last(), n),
    decreases n,
{
    if n > 0 {
        lemma_unsaved_among_fewer(rows, n - 1);
    }
}

proof fn lemma_unsaved_count(rows: Seq<RowView>)
    ensures
        unsaved_among(rows, rows.len() as int) == unsaved(rows).len(),
    decreases rows.len(),
{
    if rows.len() > 0 {
        lemma_unsaved_count(rows.drop_last());
        lemma_unsaved_among_fewer(rows, rows.len() - 1);
    }
}

/// A plan that keeps the newest entries deletes every unsaved row before which, in a history given
/// newest first, there are already as many unsaved ones as the limit allows; and the rows that it
/// deletes are as many as there are unsaved ones beyond the limit.
pub proof fn law_all_entries_over_the_limit_are_deleted(
    rows: Seq<RowView>,
    limit: usize,
    k: int,
)
    requires
        0 <= k < rows.len(),
        !rows[k].saved,
        unsaved_among(rows, k) >= limit,
    ensures
        doomed(rows, CleanupPlan::KeepNewest(limit)).contains((rows[k].id, rows[k].file_name)),
        doomed(rows, CleanupPlan::KeepNewest(limit)).len() == unsaved_among(
            rows,
            rows.len() as int,
        ) - limit,
        doomed(rows, CleanupPlan::KeepNewest(limit))[unsaved_among(rows, k) - limit] == (
            rows[k].id,
            rows[k].file_name,
        ),
{
    lemma_place_among_unsaved(rows, k);
    lemma_unsaved_count(rows);
    let gone = doomed(rows, CleanupPlan::KeepNewest(limit));
    let i = unsaved_among(rows, k) - limit;
    assert(gone[i] == (rows[k].id, rows[k].file_name));
}

/// Three days, two weeks and three months of thirty days, in seconds.
pub proof fn law_retention_periods_in_seconds()
    ensures
        kept_seconds(RecordingRetentionPeriod::Days3) == Some(3 * 24 * 60 * 60int),
        kept_seconds(RecordingRetentionPeriod::Weeks2) == Some(2 * 7 * 24 * 60 * 60int),
        kept_seconds(RecordingRetentionPeriod::Months3) == Some(3 * 30 * 24 * 60 * 60int),
        kept_seconds(RecordingRetentionPeriod::Never) is None,
        kept_seconds(RecordingRetentionPeriod::PreserveLimit) is None,
{
}

/// A time that can be written is the title whatever the time is now; one that cannot stands for now.
pub proof fn law_titles_are_times(timestamp: i64, now_ms: u64, later_ms: u64)
    ensures
        utc_time(timestamp) is Some ==> timestamp_title(timestamp, now_ms) == utc_time(timestamp)->0
            && timestamp_title(timestamp, now_ms) == timestamp_title(timestamp, later_ms),
        utc_time(timestamp) is None && utc_time((now_ms / 1000) as i64) is Some ==> timestamp_title(
            timestamp,
            now_ms,
        ) == utc_time((now_ms / 1000) as i64)->0,
{
}

} // verus!
