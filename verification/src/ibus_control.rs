//! Switching the input source to the dictation engine, and making sure that it was switched.

use crate::text;
use crate::text::{decimal, ends_with, is_blank, same_text, trim};
use vstd::prelude::*;
use vstd::string::*;

verus! {

/// How long to wait between two looks at the current engine, in milliseconds.
pub const ENGINE_SWITCH_POLL_MS: u64 = 20;

/// How long to wait before asking for the engine again, in milliseconds.
pub const SET_RETRY_INTERVAL_MS: u64 = 120;

/// The name is one of the dictation engine's.
pub open spec fn names_dikt(name: Seq<char>) -> bool {
    name == "dikt"@ || text::has_suffix(name, ":dikt"@)
}

/// Whether the name is one of the dictation engine's.
pub fn is_dikt_engine(engine_name: &str) -> (r: bool)
    ensures
        r == names_dikt(engine_name@),
{
    same_text(engine_name, "dikt") || ends_with(engine_name, ":dikt")
}

/// The current engine is the one that was asked for; the dictation engine's names all count as one.
pub open spec fn matches_target(current: Seq<char>, target: Seq<char>) -> bool {
    if names_dikt(target) {
        names_dikt(current)
    } else {
        current == target
    }
}

/// Whether the current engine is the one that was asked for.
pub fn engine_matches_target(current: &str, target: &str) -> (r: bool)
    ensures
        r == matches_target(current@, target@),
{
    if is_dikt_engine(target) {
        is_dikt_engine(current)
    } else {
        same_text(current, target)
    }
}

/// The current engine's name from what the input method reports.
pub fn read_engine_name(reported: Option<String>) -> (r: Result<String, String>)
    ensures
        match reported {
            None => r matches Err(e) && e@ == "IBus returned empty global engine"@,
            Some(raw) => if text::blank(raw@) {
                r matches Err(e) && e@ == "IBus returned blank global engine"@
            } else {
                r matches Ok(name) && name@ == text::trimmed(raw@)
            },
        },
{
    match reported {
        None => Err("IBus returned empty global engine".to_owned()),
        Some(raw) => {
            let name = trim(raw.as_str());
            if name.as_str().is_empty() {
                Err("IBus returned blank global engine".to_owned())
            } else {
                Ok(name)
            }
        },
    }
}

/// What becomes of a request to switch to an engine: a blank name is refused before the request is
/// made, and the request itself may be refused.
pub fn engine_request_result(engine_name: &str, accepted: bool) -> (r: Result<(), String>)
    ensures
        if text::blank(engine_name@) {
            r matches Err(e) && e@ == "Target engine name is empty"@
        } else if accepted {
            r is Ok
        } else {
            r matches Err(e) && e@ == "IBus rejected global engine switch to '"@ + engine_name@
                + "'"@
        },
{
    if is_blank(engine_name) {
        return Err("Target engine name is empty".to_owned());
    }
    if accepted {
        Ok(())
    } else {
        let mut e = "IBus rejected global engine switch to '".to_owned();
        e.append(engine_name);
        e.append("'");
        Err(e)
    }
}

/// What to do next to switch to the dictation engine.
pub enum SwitchPlan {
    /// It is the current engine: this name.
    Done(String),
    /// Switch to this name, and report an error if that fails.
    Try(String),
    /// It cannot be switched to.
    Failed(String),
}

/// An engine's name with the error that switching to it gave.
pub open spec fn attempt_text(name: Seq<char>, error: Seq<char>) -> Seq<char> {
    name + " ("@ + error + ")"@
}

fn attempt(name: &str, error: &str) -> (r: String)
    ensures
        r@ == attempt_text(name@, error@),
{
    let mut r = name.to_owned();
    r.append(" (");
    r.append(error);
    r.append(")");
    r
}

/// What to do next to switch to the dictation engine, given the current engine, if it could be
/// read, and the errors of the names tried so far. Its two names are tried in turn.
pub fn switch_to_dikt_engine_verified(current: Option<String>, errors: &Vec<String>) -> (r:
    SwitchPlan)
    ensures
        if errors@.len() == 0 && current is Some && names_dikt(current->0@) {
            r matches SwitchPlan::Done(name) && name@ == current->0@
        } else if errors@.len() == 0 {
            r matches SwitchPlan::Try(name) && name@ == "dikt"@
        } else if errors@.len() == 1 {
            r matches SwitchPlan::Try(name) && name@ == "other:dikt"@
        } else {
            r matches SwitchPlan::Failed(e) && e@
                == "Failed to switch to Dikt input source with confirmation. Tried: "@
                + attempt_text("dikt"@, errors@[0]@) + ", "@ + attempt_text(
                "other:dikt"@,
                errors@[1]@,
            )
        },
{
    if errors.len() == 0 {
        if let Some(engine) = current {
            if is_dikt_engine(engine.as_str()) {
                return SwitchPlan::Done(engine);
            }
        }
        return SwitchPlan::Try("dikt".to_owned());
    }
    if errors.len() == 1 {
        return SwitchPlan::Try("other:dikt".to_owned());
    }
    let mut e = "Failed to switch to Dikt input source with confirmation. Tried: ".to_owned();
    e.append(attempt("dikt", errors[0].as_str()).as_str());
    e.append(", ");
    e.append(attempt("other:dikt", errors[1].as_str()).as_str());
    SwitchPlan::Failed(e)
}

/// What a switch that is under way remembers.
pub struct SwitchView {
    pub target: Seq<char>,
    pub timeout_ms: u64,
    pub set_attempts: u64,
    pub last_set_error: Seq<char>,
    pub last_engine: Seq<char>,
    pub last_error: Seq<char>,
}

/// A switch to an engine that is under way.
pub struct EngineSwitch {
    target: String,
    timeout_ms: u64,
    set_attempts: u64,
    last_set_error: String,
    last_engine: String,
    last_error: String,
}

impl View for EngineSwitch {
    type V = SwitchView;

    closed spec fn view(&self) -> SwitchView {
        SwitchView {
            target: self.target@,
            timeout_ms: self.timeout_ms,
            set_attempts: self.set_attempts,
            last_set_error: self.last_set_error@,
            last_engine: self.last_engine@,
            last_error: self.last_error@,
        }
    }
}

/// The greatest count of requests that is kept.
pub const MAX_SET_ATTEMPTS: u64 = 0xFFFF_FFFF;

/// What is said of a switch that was not confirmed in time.
pub open spec fn unconfirmed_text(s: SwitchView) -> Seq<char> {
    "Switch to '"@ + s.target + "' not confirmed within "@ + text::dec(s.timeout_ms as nat)
        + " ms (set_attempts="@ + text::dec(s.set_attempts as nat) + " last_set_error='"@
        + s.last_set_error + "' last_engine='"@ + s.last_engine + "' last_error='"@ + s.last_error
        + "')"@
}

/// The switch after a look at the current engine.
pub open spec fn looked(s: SwitchView, engine: Result<Seq<char>, Seq<char>>) -> SwitchView {
    match engine {
        Ok(name) => if matches_target(name, s.target) {
            s
        } else {
            SwitchView { last_engine: name, ..s }
        },
        Err(e) => SwitchView { last_error: e, ..s },
    }
}

pub open spec fn result_view(r: Result<String, String>) -> Result<Seq<char>, Seq<char>> {
    match r {
        Ok(a) => Ok(a@),
        Err(e) => Err(e@),
    }
}

impl EngineSwitch {
    /// Begins a switch to an engine. It is over at once where the engine is the current one.
    pub fn begin(target_engine: &str, timeout_ms: u64, current: Option<String>) -> (r: Result<
        Result<String, Self>,
        String,
    >)
        ensures
            if text::blank(target_engine@) {
                r matches Err(e) && e@ == "Target engine name is empty"@
            } else if current is Some && matches_target(current->0@, target_engine@) {
                r matches Ok(Ok(name)) && name@ == current->0@
            } else {
                r matches Ok(Err(s)) && s@ == (SwitchView {
                    target: target_engine@,
                    timeout_ms,
                    set_attempts: 0,
                    last_set_error: Seq::empty(),
                    last_engine: Seq::empty(),
                    last_error: Seq::empty(),
                })
            },
    {
        if is_blank(target_engine) {
            return Err("Target engine name is empty".to_owned());
        }
        if let Some(engine) = current {
            if engine_matches_target(engine.as_str(), target_engine) {
                return Ok(Ok(engine));
            }
        }
        Ok(
            Err(
                EngineSwitch {
                    target: target_engine.to_owned(),
                    timeout_ms,
                    set_attempts: 0,
                    last_set_error: String::new(),
                    last_engine: String::new(),
                    last_error: String::new(),
                },
            ),
        )
    }

    /// Whether the engine is to be asked for now: at first, and then whenever the last request was
    /// made long enough ago.
    pub fn wants_request(&self, since_last_request_ms: Option<u64>) -> (r: bool)
        ensures
            r == match since_last_request_ms {
                Some(ms) => ms >= SET_RETRY_INTERVAL_MS,
                None => true,
            },
    {
        match since_last_request_ms {
            Some(ms) => ms >= SET_RETRY_INTERVAL_MS,
            None => true,
        }
    }

    /// The engine was asked for.
    pub fn requested(&mut self, result: Result<(), String>)
        ensures
            final(self)@ == match result {
                Ok(()) => SwitchView {
                    set_attempts: if old(self)@.set_attempts < MAX_SET_ATTEMPTS {
                        (old(self)@.set_attempts + 1) as u64
                    } else {
                        old(self)@.set_attempts
                    },
                    last_set_error: Seq::empty(),
                    ..old(self)@
                },
                Err(e) => SwitchView { last_set_error: e@, ..old(self)@ },
            },
    {
        match result {
            Ok(()) => {
                if self.set_attempts < MAX_SET_ATTEMPTS {
                    self.set_attempts = self.set_attempts + 1;
                }
                self.last_set_error = String::new();
            },
            Err(e) => {
                self.last_set_error = e;
            },
        }
    }

    /// The current engine was looked at: its name comes back where it is the one asked for.
    pub fn looked_at(&mut self, engine: Result<String, String>) -> (r: Option<String>)
        ensures
            final(self)@ == looked(old(self)@, result_view(engine)),
            match r {
                Some(name) => engine is Ok && name@ == engine->Ok_0@ && matches_target(
                    name@,
                    old(self)@.target,
                ),
                None => engine is Ok ==> !matches_target(engine->Ok_0@, old(self)@.target),
            },
    {
        match engine {
            Ok(name) => {
                if engine_matches_target(name.as_str(), self.target.as_str()) {
                    Some(name)
                } else {
                    self.last_engine = name;
                    None
                }
            },
            Err(e) => {
                self.last_error = e;
                None
            },
        }
    }

    /// What is said if the time is over; a timeout of 0 counts as 1.
    pub fn timed_out(&self, elapsed_ms: u64) -> (r: Option<String>)
        ensures
            match r {
                Some(e) => elapsed_ms >= self@.timeout_ms && elapsed_ms >= 1 && e@
                    == unconfirmed_text(self@),
                None => elapsed_ms < self@.timeout_ms || elapsed_ms < 1,
            },
    {
        if elapsed_ms < self.timeout_ms || elapsed_ms < 1 {
            return None;
        }
        let mut e = "Switch to '".to_owned();
        e.append(self.target.as_str());
        e.append("' not confirmed within ");
        e.append(decimal(self.timeout_ms).as_str());
        e.append(" ms (set_attempts=");
        e.append(decimal(self.set_attempts).as_str());
        e.append(" last_set_error='");
        e.append(self.last_set_error.as_str());
        e.append("' last_engine='");
        e.append(self.last_engine.as_str());
        e.append("' last_error='");
        e.append(self.last_error.as_str());
        e.append("')");
        Some(e)
    }
}

/// A switch to any of the dictation engine's names is confirmed by any other of them, and by no
/// other engine.
pub proof fn law_dikt_names_count_as_one(current: Seq<char>, a: Seq<char>, b: Seq<char>)
    requires
        names_dikt(a),
        names_dikt(b),
    ensures
        matches_target(a, b),
        matches_target(current, a) == names_dikt(current),
        matches_target(current, a) == matches_target(current, b),
{
}

/// The dictation engine is called dikt, by itself or behind any prefix that ends with a colon; no
/// other name is its own. A switch to any other engine is confirmed by that very name only.
pub proof fn law_dikt_is_known_by_its_name(prefix: Seq<char>, name: Seq<char>, target: Seq<char>)
    ensures
        names_dikt("dikt"@),
        names_dikt(prefix + ":dikt"@),
        names_dikt(name) ==> name == "dikt"@ || name == name.take(name.len() - 5) + ":dikt"@,
        !names_dikt(target) ==> (matches_target(name, target) <==> name == target),
        names_dikt(target) ==> (matches_target(name, target) <==> names_dikt(name)),
{
    reveal_strlit(":dikt");
    text::law_beginnings_and_endings(name, ":dikt"@, prefix);
}

/// A look that finds another engine remembers it, one that finds none the error; the one that was
/// asked for changes nothing.
pub proof fn law_looks_are_remembered(s: SwitchView, name: Seq<char>, error: Seq<char>)
    ensures
        !matches_target(name, s.target) ==> looked(s, Ok(name)).last_engine == name && looked(
            s,
            Ok(name),
        ).last_error == s.last_error,
        matches_target(name, s.target) ==> looked(s, Ok(name)) == s,
        looked(s, Err(error)).last_error == error,
        looked(s, Err(error)).last_engine == s.last_engine,
        looked(s, Ok(name)).target == s.target && looked(s, Ok(name)).set_attempts
            == s.set_attempts,
{
}

} // verus!
