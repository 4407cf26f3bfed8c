//! The debug page: a recording for trial, and what the processes have logged.

use crate::ibus_engine::listener;
use crate::ibus_engine::listener::{ClaimView, SessionClaim};
use crate::text;
use crate::text::{concat2, is_blank, same_text};
use vstd::prelude::*;
use vstd::string::*;

verus! {

/// How many lines of each log the page shows.
pub const MAX_LOG_LINES: usize = 400;

/// How long the page waits between two looks at a request, in milliseconds.
pub const UI_POLL_INTERVAL_MS: u64 = 80;

/// The engine on whose behalf the page records.
pub const DEBUG_ENGINE_ID: u64 = 0xffff_ffff_ffff_fffe;

/// How long the page waits for a text, in milliseconds.
pub const DEBUG_STOP_WAIT_TIMEOUT_MS: u64 = 35_000;

/// How long the page waits between two looks at a session, in milliseconds.
pub const DEBUG_STATUS_POLL_MS: u64 = 120;

/// What the page knows of its recording.
pub struct RecorderView {
    pub recording: bool,
    pub in_flight: bool,
    pub session: Option<ClaimView>,
}

/// The page's recording.
pub struct DebugRecorder {
    is_recording: bool,
    request_in_flight: bool,
    active_session: Option<SessionClaim>,
}

impl View for DebugRecorder {
    type V = RecorderView;

    closed spec fn view(&self) -> RecorderView {
        RecorderView {
            recording: self.is_recording,
            in_flight: self.request_in_flight,
            session: listener::claim_view(self.active_session),
        }
    }
}

/// The page at rest.
pub open spec fn at_rest() -> RecorderView {
    RecorderView { recording: false, in_flight: false, session: None }
}

/// The text that is shown for one that was heard.
pub open spec fn heard_text(t: Seq<char>) -> Seq<char> {
    if text::blank(t) {
        "No speech detected."@
    } else {
        t
    }
}

fn copy_claim(c: &SessionClaim) -> (r: SessionClaim)
    ensures
        r@ == c@,
{
    SessionClaim { session_id: c.session_id, claim_token: c.claim_token.clone() }
}

impl DebugRecorder {
    /// Nothing is recorded and nothing is asked for.
    pub fn new() -> (r: DebugRecorder)
        ensures
            r@ == at_rest(),
    {
        DebugRecorder { is_recording: false, request_in_flight: false, active_session: None }
    }

    /// Whether a recording can be started, and whether it can be stopped.
    pub fn controls(&self) -> (r: (bool, bool))
        ensures
            r.0 == (!self@.recording && !self@.in_flight),
            r.1 == (self@.recording && !self@.in_flight),
    {
        (
            !self.is_recording && !self.request_in_flight,
            self.is_recording && !self.request_in_flight,
        )
    }

    /// Whether a request can be made; it is then on its way.
    pub fn begin_request(&mut self) -> (r: bool)
        ensures
            r == !old(self)@.in_flight,
            final(self)@ == (RecorderView { in_flight: true, ..old(self)@ }),
    {
        let free = !self.request_in_flight;
        self.request_in_flight = true;
        free
    }

    /// Takes note of what a request to start came to; the status to show.
    pub fn start_over(&mut self, result: Result<SessionClaim, String>) -> (status: String)
        ensures
            match result {
                Ok(claim) => final(self)@ == (RecorderView {
                    recording: true,
                    in_flight: false,
                    session: Some(claim@),
                }) && status@ == "Recording..."@,
                Err(e) => final(self)@ == at_rest() && status@ == "Error: "@ + e@,
            },
    {
        self.request_in_flight = false;
        match result {
            Ok(claim) => {
                self.is_recording = true;
                self.active_session = Some(claim);
                "Recording...".to_owned()
            },
            Err(e) => {
                self.is_recording = false;
                self.active_session = None;
                concat2("Error: ", e.as_str())
            },
        }
    }

    /// Takes note that a request to start got lost; the status to show.
    pub fn start_lost(&mut self) -> (status: &'static str)
        ensures
            final(self)@ == (RecorderView { session: old(self)@.session, ..at_rest() }),
            status@ == "Error: start worker disconnected"@,
    {
        self.request_in_flight = false;
        self.is_recording = false;
        "Error: start worker disconnected"
    }

    /// The session that a request to stop is for.
    pub fn session_to_stop(&self) -> (r: Result<SessionClaim, String>)
        ensures
            match r {
                Ok(claim) => self@.session == Some(claim@),
                Err(e) => self@.session is None && e@ == "No active session for stop"@,
            },
    {
        match &self.active_session {
            Some(claim) => Ok(copy_claim(claim)),
            None => Err("No active session for stop".to_owned()),
        }
    }

    /// Takes note of what a request to stop came to; the text to show, if there is a new one, and
    /// the status.
    pub fn stop_over(&mut self, result: Result<String, String>) -> (r: (Option<String>, String))
        ensures
            final(self)@ == at_rest(),
            match result {
                Ok(t) => text::opt_view(r.0) == Some(heard_text(t@)) && r.1@ == "Idle"@,
                Err(e) => r.0 is None && r.1@ == "Error: "@ + e@,
            },
    {
        self.request_in_flight = false;
        self.is_recording = false;
        self.active_session = None;
        match result {
            Ok(t) => {
                let shown = if is_blank(t.as_str()) {
                    "No speech detected.".to_owned()
                } else {
                    t
                };
                (Some(shown), "Idle".to_owned())
            },
            Err(e) => (None, concat2("Error: ", e.as_str())),
        }
    }

    /// Takes note that a request to stop got lost; the status to show.
    pub fn stop_lost(&mut self) -> (status: &'static str)
        ensures
            final(self)@ == at_rest(),
            status@ == "Error: stop worker disconnected"@,
    {
        self.request_in_flight = false;
        self.is_recording = false;
        self.active_session = None;
        "Error: stop worker disconnected"
    }

    /// Takes note of whether the service records when the page opens; the status to show, if any.
    pub fn found_state(&mut self, recording: Result<bool, String>) -> (status: Option<String>)
        ensures
            match recording {
                Ok(rec) => final(self)@ == (RecorderView { recording: rec, ..old(self)@ })
                    && text::opt_view(status) == (if rec {
                    Some("Recording..."@)
                } else {
                    None
                }),
                Err(e) => final(self)@ == old(self)@ && text::opt_view(status) == Some(
                    "Status unavailable: "@ + e@,
                ),
            },
    {
        match recording {
            Ok(rec) => {
                self.is_recording = rec;
                if rec {
                    Some("Recording...".to_owned())
                } else {
                    None
                }
            },
            Err(e) => Some(concat2("Status unavailable: ", e.as_str())),
        }
    }

    /// The session that is cancelled when the page goes away, if any.
    pub fn session_to_cancel(&self) -> (r: Option<u64>)
        ensures
            r == (match self@.session {
                Some(claim) => if self@.recording {
                    Some(claim.session_id)
                } else {
                    None
                },
                None => None,
            }),
    {
        if !self.is_recording {
            return None;
        }
        match &self.active_session {
            Some(claim) => Some(claim.session_id),
            None => None,
        }
    }
}

/// What waiting for a session's text comes to.
pub enum FinalizeStep {
    /// The text can be fetched.
    Fetch,
    /// Look again a little later.
    Wait,
    /// There will be no text.
    Failed(String),
}

/// What the service's answer to a request to stop comes to.
pub fn stop_acknowledged(acknowledged: bool) -> (r: Result<(), String>)
    ensures
        match r {
            Ok(_) => acknowledged,
            Err(e) => !acknowledged && e@ == "StopRecordingSession returned false"@,
        },
{
    if acknowledged {
        Ok(())
    } else {
        Err("StopRecordingSession returned false".to_owned())
    }
}

/// What to do for a session's text, given the session's state and how long has been waited.
pub fn finalize_step(state: &str, message: &str, waited_ms: u64) -> (r: FinalizeStep)
    ensures
        if state@ == "ready"@ || state@ == "committed"@ {
            r is Fetch
        } else if state@ == "failed"@ {
            r matches FinalizeStep::Failed(e) && e@ == "Session failed: "@ + message@
        } else if state@ == "cancelled"@ {
            r matches FinalizeStep::Failed(e) && e@ == "Session cancelled: "@ + message@
        } else if waited_ms > DEBUG_STOP_WAIT_TIMEOUT_MS {
            r matches FinalizeStep::Failed(e) && e@
                == "Timed out waiting for finalization (last status='"@ + state@ + "' message='"@
                + message@ + "')"@
        } else {
            r is Wait
        },
{
    if same_text(state, "ready") || same_text(state, "committed") {
        FinalizeStep::Fetch
    } else if same_text(state, "failed") {
        FinalizeStep::Failed(concat2("Session failed: ", message))
    } else if same_text(state, "cancelled") {
        FinalizeStep::Failed(concat2("Session cancelled: ", message))
    } else if waited_ms > DEBUG_STOP_WAIT_TIMEOUT_MS {
        let mut e = concat2("Timed out waiting for finalization (last status='", state);
        e.append("' message='");
        e.append(message);
        e.append("')");
        FinalizeStep::Failed(e)
    } else {
        FinalizeStep::Wait
    }
}

/// The text of a session, empty where there is none.
pub fn fetched_text(has_text: bool, t: String) -> (r: String)
    ensures
        r@ == (if has_text {
            t@
        } else {
            Seq::empty()
        }),
{
    if has_text {
        t
    } else {
        let r = String::new();
        assert(r@ =~= Seq::<char>::empty());
        r
    }
}

/// The last `limit` lines of a log.
pub open spec fn last_lines(lines: Seq<Seq<char>>, limit: nat) -> Seq<Seq<char>> {
    if lines.len() > limit {
        lines.skip(lines.len() - limit)
    } else {
        lines
    }
}

/// The last `limit` lines of a log.
pub fn keep_last_lines(lines: &Vec<String>, limit: usize) -> (r: Vec<String>)
    ensures
        text::views(r@) == last_lines(text::views(lines@), limit as nat),
{
    let ghost all = text::views(lines@);
    let start: usize = lines.len().saturating_sub(limit);
    let mut r: Vec<String> = Vec::new();
    let mut i: usize = start;
    assert(text::views(r@) =~= all.subrange(start as int, start as int));
    while i < lines.len()
        invariant
            start <= i <= lines@.len(),
            all == text::views(lines@),
            text::views(r@) == all.subrange(start as int, i as int),
        decreases lines@.len() - i,
    {
        let ghost before = r@;
        r.push(lines[i].clone());
        i += 1;
        assert(text::views(r@) =~= text::views(before).push(all[i - 1]));
        assert(all.subrange(start as int, i as int) =~= all.subrange(start as int, i - 1).push(
            all[i - 1],
        ));
    }
    assert(all.subrange(start as int, all.len() as int) =~= last_lines(all, limit as nat));
    r
}

/// The lines, each on a line of its own behind a mark.
pub open spec fn marked_lines(mark: Seq<char>, lines: Seq<Seq<char>>) -> Seq<char>
    decreases lines.len(),
{
    if lines.len() == 0 {
        Seq::empty()
    } else {
        marked_lines(mark, lines.drop_last()) + mark + lines.last() + "\n"@
    }
}

/// A part of the page: its lines, or that there are none.
pub open spec fn lines_part(mark: Seq<char>, lines: Seq<Seq<char>>, none: Seq<char>) -> Seq<char> {
    if lines.len() == 0 {
        mark + none + "\n"@
    } else {
        marked_lines(mark, lines)
    }
}

/// A part of the page that may not be available.
pub open spec fn fetched_part(
    mark: Seq<char>,
    lines: Result<Seq<Seq<char>>, Seq<char>>,
    none: Seq<char>,
) -> Seq<char> {
    match lines {
        Ok(l) => lines_part(mark, l, none),
        Err(e) => mark + "unavailable: "@ + e + "\n"@,
    }
}

/// What a list that may not be available holds.
pub open spec fn fetched_view(r: Result<Vec<String>, String>) -> Result<Seq<Seq<char>>, Seq<char>> {
    match r {
        Ok(v) => Ok(text::views(v@)),
        Err(e) => Err(e@),
    }
}

fn put_lines(out: &mut String, mark: &str, lines: &Vec<String>, none: &str)
    ensures
        final(out)@ == old(out)@ + lines_part(mark@, text::views(lines@), none@),
{
    let ghost start = out@;
    let ghost all = text::views(lines@);
    if lines.len() == 0 {
        out.append(mark);
        out.append(none);
        out.append("\n");
        assert(out@ =~= start + lines_part(mark@, all, none@));
        return;
    }
    let mut i: usize = 0;
    assert(start + marked_lines(mark@, all.take(0)) =~= start);
    while i < lines.len()
        invariant
            i <= lines@.len(),
            all == text::views(lines@),
            out@ == start + marked_lines(mark@, all.take(i as int)),
        decreases lines@.len() - i,
    {
        out.append(mark);
        out.append(lines[i].as_str());
        out.append("\n");
        proof {
            let next = all.take(i + 1);
            assert(next.drop_last() =~= all.take(i as int));
            assert(next.last() == all[i as int]);
            assert(out@ =~= start + marked_lines(mark@, next));
        }
        i += 1;
    }
    assert(all.take(i as int) =~= all);
}

fn put_fetched(out: &mut String, mark: &str, lines: &Result<Vec<String>, String>, none: &str)
    ensures
        final(out)@ == old(out)@ + fetched_part(mark@, fetched_view(*lines), none@),
{
    let ghost start = out@;
    match lines {
        Ok(l) => put_lines(out, mark, l, none),
        Err(e) => {
            out.append(mark);
            out.append("unavailable: ");
            out.append(e.as_str());
            out.append("\n");
            assert(out@ =~= start + fetched_part(mark@, fetched_view(*lines), none@));
        },
    }
}

/// The shortcut's part of the page.
pub open spec fn summary_part(summary: Result<Seq<char>, Seq<char>>) -> Seq<char> {
    match summary {
        Ok(s) => "[toggle] "@ + s + "\n"@,
        Err(e) => "[toggle] unavailable: "@ + e + "\n"@,
    }
}

/// The page.
pub open spec fn page_text(
    ui_logs: Seq<Seq<char>>,
    daemon_logs: Result<Seq<Seq<char>>, Seq<char>>,
    summary: Result<Seq<char>, Seq<char>>,
    events: Result<Seq<Seq<char>>, Seq<char>>,
) -> Seq<char> {
    "=== Shortcut Diagnostics ===\n"@ + summary_part(summary)
        + "\n=== Shortcut Recent Events ===\n"@ + fetched_part(
        "[toggle-events] "@,
        events,
        "<no events yet>"@,
    ) + "\n=== UI Process Logs ===\n"@ + lines_part("[ui] "@, ui_logs, "<no logs yet>"@)
        + "\n=== Daemon Process Logs ===\n"@ + fetched_part(
        "[daemon] "@,
        daemon_logs,
        "<no logs yet>"@,
    )
}

/// The page: the shortcut's diagnostics and events, and what this process and the service logged.
pub fn render_debug_text(
    ui_logs: &Vec<String>,
    daemon_logs: &Result<Vec<String>, String>,
    toggle_diagnostics: &Result<String, String>,
    toggle_recent_events: &Result<Vec<String>, String>,
) -> (r: String)
    ensures
        r@ == page_text(
            text::views(ui_logs@),
            fetched_view(*daemon_logs),
            match *toggle_diagnostics {
                Ok(s) => Ok(s@),
                Err(e) => Err(e@),
            },
            fetched_view(*toggle_recent_events),
        ),
{
    let mut out = "=== Shortcut Diagnostics ===\n".to_owned();
    let ghost head = out@;
    match toggle_diagnostics {
        Ok(summary) => {
            out.append("[toggle] ");
            out.append(summary.as_str());
            out.append("\n");
            assert(out@ =~= head + summary_part(Ok(summary@)));
        },
        Err(e) => {
            out.append("[toggle] unavailable: ");
            out.append(e.as_str());
            out.append("\n");
            assert(out@ =~= head + summary_part(Err(e@)));
        },
    }
    out.append("\n=== Shortcut Recent Events ===\n");
    put_fetched(&mut out, "[toggle-events] ", toggle_recent_events, "<no events yet>");
    out.append("\n=== UI Process Logs ===\n");
    put_lines(&mut out, "[ui] ", ui_logs, "<no logs yet>");
    out.append("\n=== Daemon Process Logs ===\n");
    put_fetched(&mut out, "[daemon] ", daemon_logs, "<no logs yet>");
    out
}

/// The last lines stay, as many as there is room for, or all where there are fewer.
pub proof fn law_last_lines_stay(lines: Seq<Seq<char>>, limit: nat, i: int)
    ensures
        lines.len() <= limit ==> last_lines(lines, limit) == lines,
        lines.len() > limit ==> last_lines(lines, limit).len() == limit,
        lines.len() > limit && 0 <= i < limit ==> last_lines(lines, limit)[i] == lines[lines.len()
            - limit + i],
{
}

/// Every line is shown behind its mark and on a line of its own, in the order of the lines; where
/// there is none, that is shown, and so is why lines could not be fetched.
pub proof fn law_every_line_is_shown(
    mark: Seq<char>,
    lines: Seq<Seq<char>>,
    line: Seq<char>,
    none: Seq<char>,
)
    ensures
        lines_part(mark, seq![line], none) == mark + line + "\n"@,
        lines.len() > 0 ==> lines_part(mark, lines.push(line), none) == lines_part(mark, lines, none)
            + mark + line + "\n"@,
        lines_part(mark, Seq::empty(), none) == mark + none + "\n"@,
        fetched_part(mark, Ok(lines), none) == lines_part(mark, lines, none),
        fetched_part(mark, Err(line), none) == mark + "unavailable: "@ + line + "\n"@,
{
    assert(lines.push(line).drop_last() =~= lines);
    assert(seq![line].drop_last() =~= Seq::<Seq<char>>::empty());
    assert(marked_lines(mark, Seq::<Seq<char>>::empty()) =~= Seq::<char>::empty());
    assert(lines_part(mark, seq![line], none) =~= mark + line + "\n"@);
}

/// What was heard is shown as it is, unless it is nothing but space: then that nothing was heard.
pub proof fn law_heard_text_is_shown(before: Seq<char>, middle: Seq<char>, after: Seq<char>)
    requires
        forall|i: int| 0 <= i < before.len() ==> text::is_ws(#[trigger] before[i]),
        forall|i: int| 0 <= i < after.len() ==> text::is_ws(#[trigger] after[i]),
        middle.len() > 0 ==> !text::is_ws(middle[0]) && !text::is_ws(middle.last()),
    ensures
        middle.len() > 0 ==> heard_text(before + middle + after) == before + middle + after,
        middle.len() == 0 ==> heard_text(before + middle + after) == "No speech detected."@,
{
    text::law_only_the_space_around_is_trimmed(before, middle, after);
}

/// At rest nothing records, no request is under way and there is no session.
pub proof fn law_rest_is_rest()
    ensures
        !at_rest().recording,
        !at_rest().in_flight,
        at_rest().session is None,
{
}

/// The page shows its four parts in order, each behind its heading: the shortcut's health and events,
/// this program's lines and the service's lines.
pub proof fn law_page_shows_its_parts(
    ui: Seq<Seq<char>>,
    daemon: Result<Seq<Seq<char>>, Seq<char>>,
    summary: Seq<char>,
    events: Result<Seq<Seq<char>>, Seq<char>>,
)
    ensures
        ({
            let page = page_text(ui, daemon, Ok(summary), events);
            let last = fetched_part("[daemon] "@, daemon, "<no logs yet>"@);
            let first = "=== Shortcut Diagnostics ===\n"@ + ("[toggle] "@ + summary + "\n"@);
            &&& page.len() >= first.len() && page.take(first.len() as int) == first
            &&& page.len() >= last.len() && page.skip(page.len() - last.len()) == last
        }),
{
    let page = page_text(ui, daemon, Ok(summary), events);
    let last = fetched_part("[daemon] "@, daemon, "<no logs yet>"@);
    let first = "=== Shortcut Diagnostics ===\n"@ + ("[toggle] "@ + summary + "\n"@);
    assert(page.take(first.len() as int) =~= first);
    assert(page.skip(page.len() - last.len()) =~= last);
}

} // verus!
