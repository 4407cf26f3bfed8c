//! What becomes of calls on the bus: waiting for the focus, and stopping a recording for sure.

use super::health::{HealthView, ToggleRuntimeHealth};
use super::toggle::{StopRecordingOutcome, STOP_RECORDING_TIMEOUT_MS};
use crate::text;
use crate::text::{concat2, decimal};
use vstd::prelude::*;
use vstd::string::*;

verus! {

/// What a wait for the focus comes to.
pub enum FocusStep {
    /// This engine has the focus, since then.
    Found(u64, u64),
    /// Wait and look again.
    Again,
    /// The time is over.
    Failed(String),
}

/// A wait for an engine to get the focus.
pub struct FocusWait {
    pub last_focused_engine_id: u64,
    pub last_change_ms: u64,
}

/// What is said of a look that found no engine.
pub open spec fn unfocused_text(reply: Result<(u64, u64), Seq<char>>) -> Seq<char> {
    match reply {
        Ok(p) => "Focused Dikt engine is unavailable (last_change_ms="@ + text::dec(p.1 as nat)
            + ")"@,
        Err(e) => e,
    }
}

/// What is said when the time is over.
pub open spec fn focus_timeout_text(
    timeout_ms: u64,
    last_id: u64,
    last_change_ms: u64,
    last_error: Seq<char>,
) -> Seq<char> {
    "Dikt engine did not report a focused context within "@ + text::dec(timeout_ms as nat)
        + " ms (last_focused_engine_id="@ + text::dec(last_id as nat) + " last_change_ms="@
        + text::dec(last_change_ms as nat) + " last_error='"@ + last_error + "')"@
}

/// The health with this engine in focus.
pub open spec fn focus_marked(h: HealthView, engine_id: u64, last_change_ms: u64) -> HealthView {
    HealthView { focused_engine_id: engine_id, engine_last_change_ms: last_change_ms, ..h }
}

pub open spec fn reply_view(r: Result<(u64, u64), String>) -> Result<(u64, u64), Seq<char>> {
    match r {
        Ok(p) => Ok(p),
        Err(e) => Err(e@),
    }
}

impl FocusWait {
    /// A wait that has seen nothing yet.
    pub fn new() -> (w: Self)
        ensures
            w == (FocusWait { last_focused_engine_id: 0, last_change_ms: 0 }),
    {
        FocusWait { last_focused_engine_id: 0, last_change_ms: 0 }
    }

    /// The service was asked which engine has the focus.
    pub fn looked(
        &mut self,
        health: &mut ToggleRuntimeHealth,
        reply: Result<(u64, u64), String>,
        elapsed_ms: u64,
        timeout_ms: u64,
    ) -> (r: FocusStep)
        ensures
            ({
                let seen = match reply {
                    Ok(p) => FocusWait { last_focused_engine_id: p.0, last_change_ms: p.1 },
                    Err(_) => *old(self),
                };
                let marked = match reply {
                    Ok(p) => focus_marked(old(health)@, p.0, p.1),
                    Err(_) => old(health)@,
                };
                &&& *final(self) == seen
                &&& if reply is Ok && reply->Ok_0.0 != 0 {
                    r == FocusStep::Found(reply->Ok_0.0, reply->Ok_0.1) && final(health)@ == marked
                } else if elapsed_ms >= timeout_ms {
                    (r matches FocusStep::Failed(e) && e@ == focus_timeout_text(
                        timeout_ms,
                        seen.last_focused_engine_id,
                        seen.last_change_ms,
                        unfocused_text(reply_view(reply)),
                    )) && final(health)@ == focus_marked(marked, 0, seen.last_change_ms)
                } else {
                    r == FocusStep::Again && final(health)@ == marked
                }
            }),
    {
        let error = match reply {
            Ok((engine_id, change_ms)) => {
                self.last_focused_engine_id = engine_id;
                self.last_change_ms = change_ms;
                health.mark_focused_engine_status(engine_id, change_ms);
                if engine_id != 0 {
                    return FocusStep::Found(engine_id, change_ms);
                }
                let mut e = "Focused Dikt engine is unavailable (last_change_ms=".to_owned();
                e.append(decimal(change_ms).as_str());
                e.append(")");
                e
            },
            Err(e) => e,
        };
        if elapsed_ms < timeout_ms {
            return FocusStep::Again;
        }
        health.mark_focused_engine_status(0, self.last_change_ms);
        let mut e = "Dikt engine did not report a focused context within ".to_owned();
        e.append(decimal(timeout_ms).as_str());
        e.append(" ms (last_focused_engine_id=");
        e.append(decimal(self.last_focused_engine_id).as_str());
        e.append(" last_change_ms=");
        e.append(decimal(self.last_change_ms).as_str());
        e.append(" last_error='");
        e.append(error.as_str());
        e.append("')");
        FocusStep::Failed(e)
    }
}

/// Why a call to stop a recording brought no answer.
pub enum StopRecordingCallError {
    TimedOut,
    Disconnected,
    Failed(String),
}

/// What has to be done after a call to stop a recording.
pub enum StopFollowUp {
    /// This is how the stop came out.
    Done(StopRecordingOutcome),
    /// Ask whether the service still records, and go on from there.
    AskState(StopRecordingCallError),
    /// Cancel the session, and go on from there.
    Cancel(CancelReason),
}

/// Why a session is cancelled instead of stopped.
pub enum CancelReason {
    /// The service refused to stop it.
    Refused,
    /// The call failed, with this detail.
    CallFailed(String),
}

/// What to do after the call to stop has returned.
pub fn after_stop_call(result: Result<bool, StopRecordingCallError>) -> (r: StopFollowUp)
    ensures
        match result {
            Ok(true) => r == StopFollowUp::Done(StopRecordingOutcome::Acknowledged),
            Ok(false) => r == StopFollowUp::Cancel(CancelReason::Refused),
            Err(e) => r == StopFollowUp::AskState(e),
        },
{
    match result {
        Ok(granted) => if granted {
            StopFollowUp::Done(StopRecordingOutcome::Acknowledged)
        } else {
            StopFollowUp::Cancel(CancelReason::Refused)
        },
        Err(e) => StopFollowUp::AskState(e),
    }
}

/// Why the text is waited for although the call brought no answer.
pub open spec fn finalizing_reason(e: StopRecordingCallError) -> Seq<char> {
    match e {
        StopRecordingCallError::TimedOut => "Stop call timed out after "@ + text::dec(
            STOP_RECORDING_TIMEOUT_MS as nat,
        ) + " ms, daemon reports recording stopped; waiting for final commit"@,
        StopRecordingCallError::Disconnected =>
            "Stop call worker disconnected, daemon reports recording stopped; waiting for final commit"@,
        StopRecordingCallError::Failed(err) => "Stop call returned error ('"@ + err@
            + "'), daemon reports recording stopped; waiting for final commit"@,
    }
}

/// What is said of a call that brought no answer.
pub open spec fn call_error_text(e: StopRecordingCallError) -> Seq<char> {
    match e {
        StopRecordingCallError::TimedOut => "StopRecordingSession call timed out after "@
            + text::dec(STOP_RECORDING_TIMEOUT_MS as nat) + " ms"@,
        StopRecordingCallError::Disconnected =>
            "StopRecordingSession call worker disconnected before returning"@,
        StopRecordingCallError::Failed(err) => err@,
    }
}

/// What to do once the service was asked whether it still records; no answer counts as yes.
pub fn after_state_call(e: StopRecordingCallError, is_recording: Option<bool>) -> (r: StopFollowUp)
    ensures
        if is_recording == Some(false) {
            r matches StopFollowUp::Done(StopRecordingOutcome::Finalizing { reason, timed_out })
                && reason@ == finalizing_reason(e) && timed_out == (e is TimedOut)
        } else {
            r matches StopFollowUp::Cancel(CancelReason::CallFailed(d)) && d@ == call_error_text(e)
        },
{
    let recording: bool = match is_recording {
        Some(b) => b,
        None => true,
    };
    if !recording {
        let timed_out: bool = match e {
            StopRecordingCallError::TimedOut => true,
            _ => false,
        };
        let reason = match e {
            StopRecordingCallError::TimedOut => {
                let mut m = "Stop call timed out after ".to_owned();
                m.append(decimal(STOP_RECORDING_TIMEOUT_MS).as_str());
                m.append(" ms, daemon reports recording stopped; waiting for final commit");
                m
            },
            StopRecordingCallError::Disconnected =>
                "Stop call worker disconnected, daemon reports recording stopped; waiting for final commit".to_owned(),
            StopRecordingCallError::Failed(err) => {
                let mut m = "Stop call returned error ('".to_owned();
                m.append(err.as_str());
                m.append("'), daemon reports recording stopped; waiting for final commit");
                m
            },
        };
        return StopFollowUp::Done(StopRecordingOutcome::Finalizing { reason, timed_out });
    }
    let detail = match e {
        StopRecordingCallError::TimedOut => {
            let mut m = "StopRecordingSession call timed out after ".to_owned();
            m.append(decimal(STOP_RECORDING_TIMEOUT_MS).as_str());
            m.append(" ms");
            m
        },
        StopRecordingCallError::Disconnected =>
            "StopRecordingSession call worker disconnected before returning".to_owned(),
        StopRecordingCallError::Failed(err) => err,
    };
    StopFollowUp::Cancel(CancelReason::CallFailed(detail))
}

/// How a stop came out that ended in a cancellation.
pub open spec fn cancelled_text(
    reason: CancelReason,
    daemon_session_id: u64,
    cancelled: Result<(), Seq<char>>,
) -> Seq<char> {
    match reason {
        CancelReason::Refused => match cancelled {
            Ok(_) =>
                "StopRecordingSession returned false; fallback CancelRecordingSession succeeded"@,
            Err(e) =>
                "StopRecordingSession returned false; fallback CancelRecordingSession failed: "@ + e,
        },
        CancelReason::CallFailed(detail) => {
            let head = detail@ + "; fallback CancelRecordingSession("@ + text::dec(
                daemon_session_id as nat,
            );
            match cancelled {
                Ok(_) => head + ") succeeded"@,
                Err(e) => head + ") failed: "@ + e,
            }
        },
    }
}

/// How the stop came out once the session was cancelled: always a failure.
pub fn after_cancel_call(
    reason: CancelReason,
    daemon_session_id: u64,
    cancelled: Result<(), String>,
) -> (r: StopRecordingOutcome)
    ensures
        r matches StopRecordingOutcome::Failed(m) && m@ == cancelled_text(
            reason,
            daemon_session_id,
            match cancelled {
                Ok(u) => Ok(u),
                Err(e) => Err(e@),
            },
        ),
{
    let message = match reason {
        CancelReason::Refused => match cancelled {
            Ok(_) =>
                "StopRecordingSession returned false; fallback CancelRecordingSession succeeded".to_owned(),
            Err(e) => {
                let mut m =
                    "StopRecordingSession returned false; fallback CancelRecordingSession failed: ".to_owned();
                m.append(e.as_str());
                m
            },
        },
        CancelReason::CallFailed(detail) => {
            let mut m = detail;
            m.append("; fallback CancelRecordingSession(");
            m.append(decimal(daemon_session_id).as_str());
            match cancelled {
                Ok(_) => {
                    m.append(") succeeded");
                },
                Err(e) => {
                    m.append(") failed: ");
                    m.append(e.as_str());
                },
            }
            m
        },
    };
    StopRecordingOutcome::Failed(message)
}

/// Where a call to the service failed.
#[derive(Clone, Copy, Debug, PartialEq, Eq, Structural)]
pub enum CallStage {
    /// The bus could not be reached.
    Connect,
    /// The call itself failed.
    Call,
    /// The answer could not be read.
    Decode,
}

/// What is said of a call that failed.
pub fn call_failure(method: &str, stage: CallStage, error: &str) -> (r: String)
    ensures
        r@ == (match stage {
            CallStage::Connect => "Failed to open session bus: "@ + error@,
            CallStage::Call => method@ + " call failed: "@ + error@,
            CallStage::Decode => method@ + " decode failed: "@ + error@,
        }),
{
    match stage {
        CallStage::Connect => concat2("Failed to open session bus: ", error),
        CallStage::Call => {
            let mut r = concat2(method, " call failed: ");
            r.append(error);
            r
        },
        CallStage::Decode => {
            let mut r = concat2(method, " decode failed: ");
            r.append(error);
            r
        },
    }
}

/// What a request to cancel a session came to, given the service's answer.
pub fn cancel_call_result(session_id: u64, cancelled: bool) -> (r: Result<(), String>)
    ensures
        match r {
            Ok(()) => cancelled,
            Err(e) => !cancelled && e@ == "CancelRecordingSession returned false for session "@
                + text::dec(session_id as nat),
        },
{
    if cancelled {
        return Ok(());
    }
    let mut e = "CancelRecordingSession returned false for session ".to_owned();
    e.append(decimal(session_id).as_str());
    Err(e)
}

/// The engine that was found to have the focus, and since when, is what the health says; nothing
/// else of it changes.
pub proof fn law_focus_is_remembered(h: HealthView, engine_id: u64, last_change_ms: u64)
    ensures
        ({
            let after = focus_marked(h, engine_id, last_change_ms);
            &&& after.focused_engine_id == engine_id
            &&& after.engine_last_change_ms == last_change_ms
            &&& after.healthy == h.healthy && after.code == h.code && after.current_state
                == h.current_state && after.pending_commit_session_id
                == h.pending_commit_session_id
        }),
{
}

} // verus!
