//! The shortcut's diagnostics as the settings window shows them.
//!
//! The service reports its diagnostics as a JSON object. What is missing from it is shown as a
//! default.

use crate::clock::now_millis;
use crate::counter;
use crate::dbus::pending_commit;
use crate::dbus::pending_commit::QueueView;
use crate::global_shortcuts::health;
use crate::global_shortcuts::health::HealthView;
use crate::json;
use crate::json::{json_bool, json_parse_error, json_string, json_unsigned};
use crate::text;
use crate::text::{concat2, decimal};
use vstd::prelude::*;
use vstd::string::*;

verus! {

/// The text at a pointer, or a default.
pub open spec fn text_or(payload: Seq<char>, pointer: Seq<char>, default: Seq<char>) -> Seq<char> {
    match json::string_at(payload, pointer) {
        Some(s) => s,
        None => default,
    }
}

/// The number at a pointer, or 0.
pub open spec fn number(payload: Seq<char>, pointer: Seq<char>) -> u64 {
    match json::unsigned_at(payload, pointer) {
        Some(n) => n,
        None => 0,
    }
}

/// The flag at a pointer, or false.
pub open spec fn flag(payload: Seq<char>, pointer: Seq<char>) -> bool {
    match json::bool_at(payload, pointer) {
        Some(b) => b,
        None => false,
    }
}

/// A number of the statistics, 0 where there are none.
pub open spec fn stat(stats: Option<Seq<char>>, pointer: Seq<char>) -> u64 {
    match stats {
        Some(s) => number(s, pointer),
        None => 0,
    }
}

fn read_text(payload: &str, pointer: &str, default: &str) -> (r: String)
    ensures
        r@ == text_or(payload@, pointer@, default@),
{
    match json_string(payload, pointer) {
        Some(s) => s,
        None => default.to_owned(),
    }
}

fn read_number(payload: &str, pointer: &str) -> (r: u64)
    ensures
        r == number(payload@, pointer@),
{
    match json_unsigned(payload, pointer) {
        Some(n) => n,
        None => 0,
    }
}

fn read_flag(payload: &str, pointer: &str) -> (r: bool)
    ensures
        r == flag(payload@, pointer@),
{
    match json_bool(payload, pointer) {
        Some(b) => b,
        None => false,
    }
}

fn read_stat(stats: &Option<String>, pointer: &str) -> (r: u64)
    ensures
        r == stat(text::opt_view(*stats), pointer@),
{
    match stats {
        Some(s) => read_number(s.as_str(), pointer),
        None => 0,
    }
}

/// A flag in words.
pub open spec fn flag_text(b: bool) -> Seq<char> {
    if b {
        "true"@
    } else {
        "false"@
    }
}

fn flag_str(b: bool) -> (r: &'static str)
    ensures
        r@ == flag_text(b),
{
    if b {
        "true"
    } else {
        "false"
    }
}

/// What the service reported.
pub struct Diagnostics {
    pub healthy: bool,
    pub code: String,
    pub message: String,
    pub last_success_ms: u64,
    pub listener_session_ok: bool,
    pub shortcut_bound: bool,
    pub bind_fail_count: u64,
    pub press_while_dikt_count: u64,
    pub stop_timeout_fallback_count: u64,
    pub current_state: String,
    pub shortcut_description: String,
    pub last_start_failure_code: String,
    pub last_start_failure_message: String,
    pub last_start_failure_ms: u64,
    pub last_stop_failure_message: String,
    pub last_stop_failure_ms: u64,
    pub last_dbus_error: String,
    pub last_dbus_error_ms: u64,
    pub focused_engine_id: u64,
    pub last_switch_confirm_latency_ms: u64,
    pub last_switch_failure_message: String,
    pub engine_active: bool,
    pub engine_last_change_ms: u64,
    pub pending_queue_len: u64,
    pub pending_oldest_age_ms: u64,
}

/// What the diagnostics hold.
pub struct DiagnosticsView {
    pub healthy: bool,
    pub code: Seq<char>,
    pub message: Seq<char>,
    pub last_success_ms: u64,
    pub listener_session_ok: bool,
    pub shortcut_bound: bool,
    pub bind_fail_count: u64,
    pub press_while_dikt_count: u64,
    pub stop_timeout_fallback_count: u64,
    pub current_state: Seq<char>,
    pub shortcut_description: Seq<char>,
    pub last_start_failure_code: Seq<char>,
    pub last_start_failure_message: Seq<char>,
    pub last_start_failure_ms: u64,
    pub last_stop_failure_message: Seq<char>,
    pub last_stop_failure_ms: u64,
    pub last_dbus_error: Seq<char>,
    pub last_dbus_error_ms: u64,
    pub focused_engine_id: u64,
    pub last_switch_confirm_latency_ms: u64,
    pub last_switch_failure_message: Seq<char>,
    pub engine_active: bool,
    pub engine_last_change_ms: u64,
    pub pending_queue_len: u64,
    pub pending_oldest_age_ms: u64,
}

impl View for Diagnostics {
    type V = DiagnosticsView;

    open spec fn view(&self) -> DiagnosticsView {
        DiagnosticsView {
            healthy: self.healthy,
            code: self.code@,
            message: self.message@,
            last_success_ms: self.last_success_ms,
            listener_session_ok: self.listener_session_ok,
            shortcut_bound: self.shortcut_bound,
            bind_fail_count: self.bind_fail_count,
            press_while_dikt_count: self.press_while_dikt_count,
            stop_timeout_fallback_count: self.stop_timeout_fallback_count,
            current_state: self.current_state@,
            shortcut_description: self.shortcut_description@,
            last_start_failure_code: self.last_start_failure_code@,
            last_start_failure_message: self.last_start_failure_message@,
            last_start_failure_ms: self.last_start_failure_ms,
            last_stop_failure_message: self.last_stop_failure_message@,
            last_stop_failure_ms: self.last_stop_failure_ms,
            last_dbus_error: self.last_dbus_error@,
            last_dbus_error_ms: self.last_dbus_error_ms,
            focused_engine_id: self.focused_engine_id,
            last_switch_confirm_latency_ms: self.last_switch_confirm_latency_ms,
            last_switch_failure_message: self.last_switch_failure_message@,
            engine_active: self.engine_active,
            engine_last_change_ms: self.engine_last_change_ms,
            pending_queue_len: self.pending_queue_len,
            pending_oldest_age_ms: self.pending_oldest_age_ms,
        }
    }
}

/// The diagnostics in a JSON text, with the statistics of the pending texts, if there are any.
pub open spec fn diagnostics_in(p: Seq<char>, stats: Option<Seq<char>>) -> DiagnosticsView {
    DiagnosticsView {
        healthy: flag(p, "/healthy"@),
        code: text_or(p, "/code"@, "unknown"@),
        message: text_or(p, "/message"@, "unknown"@),
        last_success_ms: number(p, "/last_success_ms"@),
        listener_session_ok: flag(p, "/listener_session_ok"@),
        shortcut_bound: flag(p, "/shortcut_bound"@),
        bind_fail_count: number(p, "/bind_fail_count"@),
        press_while_dikt_count: number(p, "/press_while_dikt_count"@),
        stop_timeout_fallback_count: number(p, "/stop_timeout_fallback_count"@),
        current_state: text_or(p, "/current_state"@, "unknown"@),
        shortcut_description: text_or(p, "/shortcut_description"@, ""@),
        last_start_failure_code: text_or(p, "/last_start_failure_code"@, ""@),
        last_start_failure_message: text_or(p, "/last_start_failure_message"@, ""@),
        last_start_failure_ms: number(p, "/last_start_failure_ms"@),
        last_stop_failure_message: text_or(p, "/last_stop_failure_message"@, ""@),
        last_stop_failure_ms: number(p, "/last_stop_failure_ms"@),
        last_dbus_error: text_or(p, "/last_dbus_error"@, ""@),
        last_dbus_error_ms: number(p, "/last_dbus_error_ms"@),
        focused_engine_id: number(p, "/focused_engine_id"@),
        last_switch_confirm_latency_ms: number(p, "/last_switch_confirm_latency_ms"@),
        last_switch_failure_message: text_or(p, "/last_switch_failure_message"@, ""@),
        engine_active: flag(p, "/engine_active"@),
        engine_last_change_ms: number(p, "/engine_last_change_ms"@),
        pending_queue_len: stat(stats, "/queue_len"@),
        pending_oldest_age_ms: stat(stats, "/oldest_age_ms"@),
    }
}

/// Reads the diagnostics in a JSON text; the parser's message where it is none.
pub fn read_diagnostics(payload: &str, stats: &Option<String>) -> (r: Result<Diagnostics, String>)
    ensures
        match r {
            Ok(d) => json::parse_error(payload@) is None && d@ == diagnostics_in(
                payload@,
                text::opt_view(*stats),
            ),
            Err(e) => json::parse_error(payload@) == Some(e@),
        },
{
    if let Some(e) = json_parse_error(payload) {
        return Err(e);
    }
    Ok(
        Diagnostics {
            healthy: read_flag(payload, "/healthy"),
            code: read_text(payload, "/code", "unknown"),
            message: read_text(payload, "/message", "unknown"),
            last_success_ms: read_number(payload, "/last_success_ms"),
            listener_session_ok: read_flag(payload, "/listener_session_ok"),
            shortcut_bound: read_flag(payload, "/shortcut_bound"),
            bind_fail_count: read_number(payload, "/bind_fail_count"),
            press_while_dikt_count: read_number(payload, "/press_while_dikt_count"),
            stop_timeout_fallback_count: read_number(payload, "/stop_timeout_fallback_count"),
            current_state: read_text(payload, "/current_state", "unknown"),
            shortcut_description: read_text(payload, "/shortcut_description", ""),
            last_start_failure_code: read_text(payload, "/last_start_failure_code", ""),
            last_start_failure_message: read_text(payload, "/last_start_failure_message", ""),
            last_start_failure_ms: read_number(payload, "/last_start_failure_ms"),
            last_stop_failure_message: read_text(payload, "/last_stop_failure_message", ""),
            last_stop_failure_ms: read_number(payload, "/last_stop_failure_ms"),
            last_dbus_error: read_text(payload, "/last_dbus_error", ""),
            last_dbus_error_ms: read_number(payload, "/last_dbus_error_ms"),
            focused_engine_id: read_number(payload, "/focused_engine_id"),
            last_switch_confirm_latency_ms: read_number(payload, "/last_switch_confirm_latency_ms"),
            last_switch_failure_message: read_text(payload, "/last_switch_failure_message", ""),
            engine_active: read_flag(payload, "/engine_active"),
            engine_last_change_ms: read_number(payload, "/engine_last_change_ms"),
            pending_queue_len: read_stat(stats, "/queue_len"),
            pending_oldest_age_ms: read_stat(stats, "/oldest_age_ms"),
        },
    )
}

/// A number in decimal.
pub open spec fn num(n: u64) -> Seq<char> {
    text::dec(n as nat)
}

/// The diagnostics in one line.
pub open spec fn summary_text(d: DiagnosticsView) -> Seq<char> {
    "healthy="@ + flag_text(d.healthy) + " code="@ + d.code + " message="@ + d.message + " state="@
        + d.current_state + " shortcut='"@ + d.shortcut_description + "' listener_ok="@ + flag_text(
        d.listener_session_ok,
    ) + " shortcut_bound="@ + flag_text(d.shortcut_bound) + " bind_failures="@ + num(
        d.bind_fail_count,
    ) + " press_while_dikt="@ + num(d.press_while_dikt_count) + " stop_timeouts="@ + num(
        d.stop_timeout_fallback_count,
    ) + " start_failure_code="@ + d.last_start_failure_code + " start_failure_message="@
        + d.last_start_failure_message + " stop_failure_message="@ + d.last_stop_failure_message
        + " switch_confirm_latency_ms="@ + num(d.last_switch_confirm_latency_ms)
        + " switch_failure_message="@ + d.last_switch_failure_message + " engine_active="@
        + flag_text(d.engine_active) + " focused_engine_id="@ + num(d.focused_engine_id)
        + " engine_last_change_ms="@ + num(d.engine_last_change_ms) + " pending_queue_len="@ + num(
        d.pending_queue_len,
    ) + " pending_oldest_age_ms="@ + num(d.pending_oldest_age_ms) + " last_dbus_error="@
        + d.last_dbus_error
}

fn put(out: &mut String, label: &str, value: &str)
    ensures
        final(out)@ == old(out)@ + label@ + value@,
{
    out.append(label);
    out.append(value);
}

/// The diagnostics in one line.
pub fn summary(d: &Diagnostics) -> (r: String)
    ensures
        r@ == summary_text(d@),
{
    let mut r = concat2("healthy=", flag_str(d.healthy));
    put(&mut r, " code=", d.code.as_str());
    put(&mut r, " message=", d.message.as_str());
    put(&mut r, " state=", d.current_state.as_str());
    put(&mut r, " shortcut='", d.shortcut_description.as_str());
    put(&mut r, "' listener_ok=", flag_str(d.listener_session_ok));
    put(&mut r, " shortcut_bound=", flag_str(d.shortcut_bound));
    put(&mut r, " bind_failures=", decimal(d.bind_fail_count).as_str());
    put(&mut r, " press_while_dikt=", decimal(d.press_while_dikt_count).as_str());
    put(&mut r, " stop_timeouts=", decimal(d.stop_timeout_fallback_count).as_str());
    put(&mut r, " start_failure_code=", d.last_start_failure_code.as_str());
    put(&mut r, " start_failure_message=", d.last_start_failure_message.as_str());
    put(&mut r, " stop_failure_message=", d.last_stop_failure_message.as_str());
    put(
        &mut r,
        " switch_confirm_latency_ms=",
        decimal(d.last_switch_confirm_latency_ms).as_str(),
    );
    put(&mut r, " switch_failure_message=", d.last_switch_failure_message.as_str());
    put(&mut r, " engine_active=", flag_str(d.engine_active));
    put(&mut r, " focused_engine_id=", decimal(d.focused_engine_id).as_str());
    put(&mut r, " engine_last_change_ms=", decimal(d.engine_last_change_ms).as_str());
    put(&mut r, " pending_queue_len=", decimal(d.pending_queue_len).as_str());
    put(&mut r, " pending_oldest_age_ms=", decimal(d.pending_oldest_age_ms).as_str());
    put(&mut r, " last_dbus_error=", d.last_dbus_error.as_str());
    r
}

/// The service's report in one line, for the debug page.
pub fn toggle_diagnostics_summary(payload: &str, stats: &Option<String>) -> (r: Result<
    String,
    String,
>)
    ensures
        match r {
            Ok(t) => json::parse_error(payload@) is None && t@ == summary_text(
                diagnostics_in(payload@, text::opt_view(*stats)),
            ),
            Err(e) => json::parse_error(payload@) is Some && e@
                == "Invalid TOGGLE diagnostics JSON: "@ + json::parse_error(payload@)->0,
        },
{
    match read_diagnostics(payload, stats) {
        Ok(d) => Ok(summary(&d)),
        Err(e) => Err(concat2("Invalid TOGGLE diagnostics JSON: ", e.as_str())),
    }
}

/// How many seconds ago something happened.
pub open spec fn seconds_since(now_ms: u64, then_ms: u64) -> u64 {
    counter::minus(now_ms, then_ms) / 1000
}

/// How many seconds ago something happened, in words; unknown where it never did.
pub open spec fn age_text(now_ms: u64, then_ms: u64) -> Seq<char> {
    if then_ms == 0 {
        "unknown"@
    } else {
        num(seconds_since(now_ms, then_ms)) + "s ago"@
    }
}

fn age(now_ms: u64, then_ms: u64) -> (r: String)
    ensures
        r@ == age_text(now_ms, then_ms),
{
    if then_ms == 0 {
        return "unknown".to_owned();
    }
    let mut r = decimal(now_ms.saturating_sub(then_ms) / 1000);
    r.append("s ago");
    r
}

/// A failure of which a message and a time are known, in words.
pub open spec fn failure_text(message: Seq<char>, then_ms: u64, now_ms: u64) -> Seq<char> {
    if message.len() == 0 {
        "none"@
    } else if then_ms == 0 {
        message
    } else {
        message + " ("@ + num(seconds_since(now_ms, then_ms)) + "s ago)"@
    }
}

fn failure(message: &str, then_ms: u64, now_ms: u64) -> (r: String)
    ensures
        r@ == failure_text(message@, then_ms, now_ms),
{
    if message.is_empty() {
        return "none".to_owned();
    }
    if then_ms == 0 {
        return message.to_owned();
    }
    let mut r = concat2(message, " (");
    put(&mut r, decimal(now_ms.saturating_sub(then_ms) / 1000).as_str(), "s ago)");
    r
}

/// The last failed start in words.
pub open spec fn start_failure_text(d: DiagnosticsView, now_ms: u64) -> Seq<char> {
    if d.last_start_failure_code.len() == 0 {
        "none"@
    } else {
        d.last_start_failure_code + " ("@ + d.last_start_failure_message + ", "@ + age_text(
            now_ms,
            d.last_start_failure_ms,
        ) + ")"@
    }
}

fn start_failure(d: &Diagnostics, now_ms: u64) -> (r: String)
    ensures
        r@ == start_failure_text(d@, now_ms),
{
    if d.last_start_failure_code.as_str().is_empty() {
        return "none".to_owned();
    }
    let mut r = d.last_start_failure_code.clone();
    put(&mut r, " (", d.last_start_failure_message.as_str());
    put(&mut r, ", ", age(now_ms, d.last_start_failure_ms).as_str());
    r.append(")");
    r
}

/// The pending texts in words.
pub open spec fn pending_text(d: DiagnosticsView) -> Seq<char> {
    if d.pending_queue_len == 0 {
        "none"@
    } else {
        num(d.pending_queue_len) + " queued (oldest "@ + num(d.pending_oldest_age_ms / 1000)
            + "s)"@
    }
}

fn pending(d: &Diagnostics) -> (r: String)
    ensures
        r@ == pending_text(d@),
{
    if d.pending_queue_len == 0 {
        return "none".to_owned();
    }
    let mut r = decimal(d.pending_queue_len);
    put(&mut r, " queued (oldest ", decimal(d.pending_oldest_age_ms / 1000).as_str());
    r.append("s)");
    r
}

/// The last switch of the input source in words.
pub open spec fn switch_text(d: DiagnosticsView) -> Seq<char> {
    if d.last_switch_failure_message.len() == 0 {
        "ok ("@ + num(d.last_switch_confirm_latency_ms) + " ms)"@
    } else {
        "failed ("@ + d.last_switch_failure_message + ")"@
    }
}

fn switched(d: &Diagnostics) -> (r: String)
    ensures
        r@ == switch_text(d@),
{
    if d.last_switch_failure_message.as_str().is_empty() {
        let mut r = "ok (".to_owned();
        put(&mut r, decimal(d.last_switch_confirm_latency_ms).as_str(), " ms)");
        r
    } else {
        let mut r = "failed (".to_owned();
        put(&mut r, d.last_switch_failure_message.as_str(), ")");
        r
    }
}

/// The diagnostics for the advanced page.
pub open spec fn subtitle_text(d: DiagnosticsView, now_ms: u64) -> Seq<char> {
    if d.healthy {
        "Healthy | state="@ + d.current_state + " shortcut='"@ + d.shortcut_description
            + "' | listener="@ + flag_text(d.listener_session_ok) + " bound="@ + flag_text(
            d.shortcut_bound,
        ) + " | focused_engine_id="@ + num(d.focused_engine_id) + " | switch="@ + switch_text(d)
            + " | pending_commit="@ + pending_text(d) + " | last ok "@ + age_text(
            now_ms,
            d.last_success_ms,
        )
    } else {
        "Unhealthy ("@ + d.code + ") | "@ + d.message + " | state="@ + d.current_state
            + " | start_fail="@ + start_failure_text(d, now_ms) + " | stop_fail="@ + failure_text(
            d.last_stop_failure_message,
            d.last_stop_failure_ms,
            now_ms,
        ) + " | focused_engine_id="@ + num(d.focused_engine_id) + " | switch="@ + switch_text(d)
            + " | pending_commit="@ + pending_text(d) + " | dbus="@ + failure_text(
            d.last_dbus_error,
            d.last_dbus_error_ms,
            now_ms,
        ) + " | bind_failures="@ + num(d.bind_fail_count) + " press_while_dikt="@ + num(
            d.press_while_dikt_count,
        ) + " stop_timeouts="@ + num(d.stop_timeout_fallback_count)
    }
}

/// The diagnostics for the advanced page.
pub fn subtitle(d: &Diagnostics, now_ms: u64) -> (r: String)
    ensures
        r@ == subtitle_text(d@, now_ms),
{
    if d.healthy {
        let mut r = concat2("Healthy | state=", d.current_state.as_str());
        put(&mut r, " shortcut='", d.shortcut_description.as_str());
        put(&mut r, "' | listener=", flag_str(d.listener_session_ok));
        put(&mut r, " bound=", flag_str(d.shortcut_bound));
        put(&mut r, " | focused_engine_id=", decimal(d.focused_engine_id).as_str());
        put(&mut r, " | switch=", switched(d).as_str());
        put(&mut r, " | pending_commit=", pending(d).as_str());
        put(&mut r, " | last ok ", age(now_ms, d.last_success_ms).as_str());
        r
    } else {
        let mut r = concat2("Unhealthy (", d.code.as_str());
        put(&mut r, ") | ", d.message.as_str());
        put(&mut r, " | state=", d.current_state.as_str());
        put(&mut r, " | start_fail=", start_failure(d, now_ms).as_str());
        put(
            &mut r,
            " | stop_fail=",
            failure(
                d.last_stop_failure_message.as_str(),
                d.last_stop_failure_ms,
                now_ms,
            ).as_str(),
        );
        put(&mut r, " | focused_engine_id=", decimal(d.focused_engine_id).as_str());
        put(&mut r, " | switch=", switched(d).as_str());
        put(&mut r, " | pending_commit=", pending(d).as_str());
        put(
            &mut r,
            " | dbus=",
            failure(d.last_dbus_error.as_str(), d.last_dbus_error_ms, now_ms).as_str(),
        );
        put(&mut r, " | bind_failures=", decimal(d.bind_fail_count).as_str());
        put(&mut r, " press_while_dikt=", decimal(d.press_while_dikt_count).as_str());
        put(&mut r, " stop_timeouts=", decimal(d.stop_timeout_fallback_count).as_str());
        r
    }
}

/// What the advanced page shows of the service's report.
pub open spec fn report_text(
    payload: Seq<char>,
    stats: Option<Seq<char>>,
    now_ms: u64,
) -> Seq<char> {
    match json::parse_error(payload) {
        Some(e) => "Unavailable: invalid diagnostics JSON ("@ + e + ")"@,
        None => subtitle_text(diagnostics_in(payload, stats), now_ms),
    }
}

/// What the advanced page shows of the service's report, at the given time.
pub fn toggle_diagnostics_subtitle_at(payload: &str, stats: &Option<String>, now_ms: u64) -> (r:
    String)
    ensures
        r@ == report_text(payload@, text::opt_view(*stats), now_ms),
{
    match read_diagnostics(payload, stats) {
        Ok(d) => subtitle(&d, now_ms),
        Err(e) => {
            let mut r = concat2("Unavailable: invalid diagnostics JSON (", e.as_str());
            r.append(")");
            r
        },
    }
}

/// What the advanced page shows of the service's report.
pub fn toggle_diagnostics_subtitle(payload: &str, stats: &Option<String>) -> (r: String)
    ensures
        exists|now_ms: u64|
            r@ == #[trigger] report_text(payload@, text::opt_view(*stats), now_ms),
{
    toggle_diagnostics_subtitle_at(payload, stats, now_millis())
}

/// The diagnostics of a service that gives no detailed report.
pub struct BriefDiagnostics {
    pub healthy: bool,
    pub code: String,
    pub message: String,
    pub last_success_ms: u64,
    pub listener_session_ok: bool,
    pub shortcut_bound: bool,
    pub bind_fail_count: u64,
    pub press_while_dikt_count: u64,
    pub stop_timeout_fallback_count: u64,
}

/// What the advanced page shows of a service that gives no detailed report.
pub open spec fn brief_text(d: BriefDiagnostics, now_ms: u64) -> Seq<char> {
    if d.healthy {
        "Healthy | listener="@ + flag_text(d.listener_session_ok) + " shortcut="@ + flag_text(
            d.shortcut_bound,
        ) + " | last ok "@ + age_text(now_ms, d.last_success_ms)
    } else {
        "Unhealthy ("@ + d.code@ + ") | "@ + d.message@ + " | bind_failures="@ + num(
            d.bind_fail_count,
        ) + " press_while_dikt="@ + num(d.press_while_dikt_count) + " stop_timeouts="@ + num(
            d.stop_timeout_fallback_count,
        )
    }
}

/// What the advanced page shows of a service that gives no detailed report, at the given time.
pub fn brief_subtitle_at(d: &BriefDiagnostics, now_ms: u64) -> (r: String)
    ensures
        r@ == brief_text(*d, now_ms),
{
    if d.healthy {
        let mut r = concat2("Healthy | listener=", flag_str(d.listener_session_ok));
        put(&mut r, " shortcut=", flag_str(d.shortcut_bound));
        put(&mut r, " | last ok ", age(now_ms, d.last_success_ms).as_str());
        r
    } else {
        let mut r = concat2("Unhealthy (", d.code.as_str());
        put(&mut r, ") | ", d.message.as_str());
        put(&mut r, " | bind_failures=", decimal(d.bind_fail_count).as_str());
        put(&mut r, " press_while_dikt=", decimal(d.press_while_dikt_count).as_str());
        put(&mut r, " stop_timeouts=", decimal(d.stop_timeout_fallback_count).as_str());
        r
    }
}

/// What the advanced page shows of a service that gives no detailed report.
pub fn brief_subtitle(d: &BriefDiagnostics) -> (r: String)
    ensures
        exists|now_ms: u64| r@ == #[trigger] brief_text(*d, now_ms),
{
    brief_subtitle_at(d, now_millis())
}

proof fn lemma_pointer(key: Seq<char>, pointer: Seq<char>)
    requires
        pointer.len() == key.len() + 1,
        pointer[0] == '/',
        pointer.skip(1) =~= key,
    ensures
        json::pointer_of(key) == pointer,
{
    assert(pointer =~= seq!['/'] + pointer.skip(1));
}

/// The window shows what the service knows: whatever the service reports of its health is what the
/// window reads from the report.
pub proof fn law_reported_health_is_shown(
    payload: Seq<char>,
    stats: Option<Seq<char>>,
    h: HealthView,
    events: nat,
    now_ms: u64,
)
    requires
        json::all_read_back(payload, health::diagnostics_fields(h, events, now_ms)),
    ensures
        json::parse_error(payload) is None,
        ({
            let d = diagnostics_in(payload, stats);
            &&& d.healthy == h.healthy
            &&& d.code == h.code
            &&& d.message == h.message
            &&& d.last_success_ms == h.last_success_ms
            &&& d.listener_session_ok == h.listener_session_ok
            &&& d.shortcut_bound == h.shortcut_bound
            &&& d.bind_fail_count == h.bind_fail_count
            &&& d.press_while_dikt_count == h.press_while_dikt_count
            &&& d.stop_timeout_fallback_count == h.stop_timeout_fallback_count
            &&& d.current_state == h.current_state
            &&& d.shortcut_description == h.shortcut_description
            &&& d.last_start_failure_code == h.last_start_failure_code
            &&& d.last_start_failure_message == h.last_start_failure_message
            &&& d.last_start_failure_ms == h.last_start_failure_ms
            &&& d.last_stop_failure_message == h.last_stop_failure_message
            &&& d.last_stop_failure_ms == h.last_stop_failure_ms
            &&& d.last_dbus_error == h.last_dbus_error
            &&& d.last_dbus_error_ms == h.last_dbus_error_ms
            &&& d.focused_engine_id == h.focused_engine_id
            &&& d.last_switch_confirm_latency_ms == h.last_switch_confirm_latency_ms
            &&& d.last_switch_failure_message == h.last_switch_failure_message
            &&& d.engine_last_change_ms == h.engine_last_change_ms
            &&& d.engine_active == (h.focused_engine_id != 0)
        }),
{
    let fields = health::diagnostics_fields(h, events, now_ms);
    reveal_strlit("healthy");
    reveal_strlit("/healthy");
    lemma_pointer("healthy"@, "/healthy"@);
    assert(json::reads_back(payload, fields[0]));
    reveal_strlit("code");
    reveal_strlit("/code");
    lemma_pointer("code"@, "/code"@);
    assert(json::reads_back(payload, fields[2]));
    reveal_strlit("message");
    reveal_strlit("/message");
    lemma_pointer("message"@, "/message"@);
    assert(json::reads_back(payload, fields[3]));
    reveal_strlit("last_success_ms");
    reveal_strlit("/last_success_ms");
    lemma_pointer("last_success_ms"@, "/last_success_ms"@);
    assert(json::reads_back(payload, fields[4]));
    reveal_strlit("listener_session_ok");
    reveal_strlit("/listener_session_ok");
    lemma_pointer("listener_session_ok"@, "/listener_session_ok"@);
    assert(json::reads_back(payload, fields[5]));
    reveal_strlit("shortcut_bound");
    reveal_strlit("/shortcut_bound");
    lemma_pointer("shortcut_bound"@, "/shortcut_bound"@);
    assert(json::reads_back(payload, fields[6]));
    reveal_strlit("bind_fail_count");
    reveal_strlit("/bind_fail_count");
    lemma_pointer("bind_fail_count"@, "/bind_fail_count"@);
    assert(json::reads_back(payload, fields[7]));
    reveal_strlit("press_while_dikt_count");
    reveal_strlit("/press_while_dikt_count");
    lemma_pointer("press_while_dikt_count"@, "/press_while_dikt_count"@);
    assert(json::reads_back(payload, fields[8]));
    reveal_strlit("stop_timeout_fallback_count");
    reveal_strlit("/stop_timeout_fallback_count");
    lemma_pointer("stop_timeout_fallback_count"@, "/stop_timeout_fallback_count"@);
    assert(json::reads_back(payload, fields[9]));
    reveal_strlit("current_state");
    reveal_strlit("/current_state");
    lemma_pointer("current_state"@, "/current_state"@);
    assert(json::reads_back(payload, fields[10]));
    reveal_strlit("shortcut_description");
    reveal_strlit("/shortcut_description");
    lemma_pointer("shortcut_description"@, "/shortcut_description"@);
    assert(json::reads_back(payload, fields[11]));
    reveal_strlit("last_start_failure_code");
    reveal_strlit("/last_start_failure_code");
    lemma_pointer("last_start_failure_code"@, "/last_start_failure_code"@);
    assert(json::reads_back(payload, fields[12]));
    reveal_strlit("last_start_failure_message");
    reveal_strlit("/last_start_failure_message");
    lemma_pointer("last_start_failure_message"@, "/last_start_failure_message"@);
    assert(json::reads_back(payload, fields[13]));
    reveal_strlit("last_start_failure_ms");
    reveal_strlit("/last_start_failure_ms");
    lemma_pointer("last_start_failure_ms"@, "/last_start_failure_ms"@);
    assert(json::reads_back(payload, fields[14]));
    reveal_strlit("last_stop_failure_message");
    reveal_strlit("/last_stop_failure_message");
    lemma_pointer("last_stop_failure_message"@, "/last_stop_failure_message"@);
    assert(json::reads_back(payload, fields[15]));
    reveal_strlit("last_stop_failure_ms");
    reveal_strlit("/last_stop_failure_ms");
    lemma_pointer("last_stop_failure_ms"@, "/last_stop_failure_ms"@);
    assert(json::reads_back(payload, fields[16]));
    reveal_strlit("last_dbus_error");
    reveal_strlit("/last_dbus_error");
    lemma_pointer("last_dbus_error"@, "/last_dbus_error"@);
    assert(json::reads_back(payload, fields[25]));
    reveal_strlit("last_dbus_error_ms");
    reveal_strlit("/last_dbus_error_ms");
    lemma_pointer("last_dbus_error_ms"@, "/last_dbus_error_ms"@);
    assert(json::reads_back(payload, fields[26]));
    reveal_strlit("focused_engine_id");
    reveal_strlit("/focused_engine_id");
    lemma_pointer("focused_engine_id"@, "/focused_engine_id"@);
    assert(json::reads_back(payload, fields[20]));
    reveal_strlit("last_switch_confirm_latency_ms");
    reveal_strlit("/last_switch_confirm_latency_ms");
    lemma_pointer("last_switch_confirm_latency_ms"@, "/last_switch_confirm_latency_ms"@);
    assert(json::reads_back(payload, fields[23]));
    reveal_strlit("last_switch_failure_message");
    reveal_strlit("/last_switch_failure_message");
    lemma_pointer("last_switch_failure_message"@, "/last_switch_failure_message"@);
    assert(json::reads_back(payload, fields[24]));
    reveal_strlit("engine_last_change_ms");
    reveal_strlit("/engine_last_change_ms");
    lemma_pointer("engine_last_change_ms"@, "/engine_last_change_ms"@);
    assert(json::reads_back(payload, fields[21]));
    reveal_strlit("engine_active");
    reveal_strlit("/engine_active");
    lemma_pointer("engine_active"@, "/engine_active"@);
    assert(json::reads_back(payload, fields[19]));
}

/// The window shows how many texts the service holds and how long the oldest has waited, as the
/// service's statistics say.
pub proof fn law_reported_queue_is_shown(
    payload: Seq<char>,
    stats: Seq<char>,
    q: QueueView,
    now_ms: u64,
)
    requires
        json::all_read_back(stats, pending_commit::stats_fields(q, now_ms)),
    ensures
        diagnostics_in(payload, Some(stats)).pending_queue_len == q.entries.len() as u64,
        diagnostics_in(payload, Some(stats)).pending_oldest_age_ms == pending_commit::oldest_age(
            q.entries,
            now_ms,
        ),
{
    let fields = pending_commit::stats_fields(q, now_ms);
    reveal_strlit("queue_len");
    reveal_strlit("/queue_len");
    lemma_pointer("queue_len"@, "/queue_len"@);
    assert(json::reads_back(stats, fields[0]));
    reveal_strlit("oldest_age_ms");
    reveal_strlit("/oldest_age_ms");
    lemma_pointer("oldest_age_ms"@, "/oldest_age_ms"@);
    assert(json::reads_back(stats, fields[1]));
}

/// What a payload does not hold reads as the default, as 0 or as false; what it holds is read. A
/// missing payload of numbers reads as 0.
pub proof fn law_missing_parts_read_as_nothing(
    payload: Seq<char>,
    pointer: Seq<char>,
    default: Seq<char>,
)
    ensures
        json::string_at(payload, pointer) is None ==> text_or(payload, pointer, default) == default,
        json::string_at(payload, pointer) is Some ==> text_or(payload, pointer, default)
            == json::string_at(payload, pointer)->0,
        json::unsigned_at(payload, pointer) is None ==> number(payload, pointer) == 0,
        json::unsigned_at(payload, pointer) is Some ==> stat(Some(payload), pointer)
            == json::unsigned_at(payload, pointer)->0,
        json::bool_at(payload, pointer) == Some(true) <==> flag(payload, pointer),
        stat(None, pointer) == 0,
{
}

/// Times are told in whole seconds since then, and not at all where there is none.
pub proof fn law_ages_are_told_in_seconds(now_ms: u64, then_ms: u64, message: Seq<char>)
    requires
        then_ms <= now_ms,
        message.len() > 0,
    ensures
        then_ms > 0 ==> seconds_since(now_ms, then_ms) * 1000 <= now_ms - then_ms < (seconds_since(
            now_ms,
            then_ms,
        ) + 1) * 1000,
        then_ms > 0 ==> age_text(now_ms, then_ms) == text::dec(
            ((now_ms - then_ms) / 1000) as nat,
        ) + "s ago"@,
        age_text(now_ms, 0) == "unknown"@,
        failure_text(message, 0, now_ms) == message,
        then_ms > 0 ==> failure_text(message, then_ms, now_ms) == message + " ("@ + age_text(
            now_ms,
            then_ms,
        ) + ")"@,
        failure_text(Seq::empty(), then_ms, now_ms) == "none"@,
{
    reveal_strlit("s ago");
    reveal_strlit(")");
    reveal_strlit("s ago)");
    assert("s ago)"@ =~= "s ago"@ + ")"@);
    if then_ms > 0 {
        assert(failure_text(message, then_ms, now_ms) =~= message + " ("@ + age_text(
            now_ms,
            then_ms,
        ) + ")"@);
    }
}

/// A healthy shortcut is told to be so, and an unhealthy one is not; in short, with its code first.
pub proof fn law_health_is_told_first(d: DiagnosticsView, b: BriefDiagnostics, now_ms: u64)
    ensures
        d.healthy ==> subtitle_text(d, now_ms)[0] == 'H',
        !d.healthy ==> subtitle_text(d, now_ms)[0] == 'U',
        b.healthy ==> text::has_prefix(brief_text(b, now_ms), "Healthy"@),
        !b.healthy ==> text::has_prefix(brief_text(b, now_ms), "Unhealthy ("@ + b.code@ + ")"@),
{
    reveal_strlit("Healthy");
    reveal_strlit("Healthy | state=");
    reveal_strlit("Healthy | listener=");
    reveal_strlit("Unhealthy (");
    reveal_strlit(")");
    reveal_strlit(") | ");
    let t = brief_text(b, now_ms);
    let y = "Unhealthy ("@ + b.code@ + ")"@;
    if b.healthy {
        assert(t.subrange(0, 7) =~= "Healthy"@);
    } else {
        assert(t.subrange(0, y.len() as int) =~= y);
    }
}

/// A failure is told exactly if there was one: a start's with its code, a switch's with its message.
/// A queue is told with its length exactly if something waits.
pub proof fn law_failures_and_queues_are_told(d: DiagnosticsView, now_ms: u64)
    ensures
        d.last_start_failure_code.len() == 0 ==> start_failure_text(d, now_ms) == "none"@,
        d.last_start_failure_code.len() > 0 ==> text::has_prefix(
            start_failure_text(d, now_ms),
            d.last_start_failure_code + " ("@ + d.last_start_failure_message,
        ),
        d.pending_queue_len == 0 ==> pending_text(d) == "none"@,
        d.pending_queue_len > 0 ==> text::has_prefix(
            pending_text(d),
            text::dec(d.pending_queue_len as nat) + " queued"@,
        ),
        d.last_switch_failure_message.len() == 0 ==> text::has_prefix(switch_text(d), "ok"@),
        d.last_switch_failure_message.len() > 0 ==> text::has_prefix(
            switch_text(d),
            "failed ("@ + d.last_switch_failure_message,
        ),
{
    reveal_strlit(" queued");
    reveal_strlit(" queued (oldest ");
    reveal_strlit("ok");
    reveal_strlit("ok (");
    let a = start_failure_text(d, now_ms);
    let x = d.last_start_failure_code + " ("@ + d.last_start_failure_message;
    if d.last_start_failure_code.len() > 0 {
        assert(a.subrange(0, x.len() as int) =~= x);
    }
    let b = pending_text(d);
    let y = text::dec(d.pending_queue_len as nat) + " queued"@;
    if d.pending_queue_len > 0 {
        assert(b.subrange(0, y.len() as int) =~= y);
    }
    let c = switch_text(d);
    let z = "failed ("@ + d.last_switch_failure_message;
    if d.last_switch_failure_message.len() > 0 {
        assert(c.subrange(0, z.len() as int) =~= z);
    } else {
        assert(c.subrange(0, 2) =~= "ok"@);
    }
}

} // verus!
