use dikt::global_shortcuts::calls::{
    after_cancel_call, after_state_call, after_stop_call, call_failure, cancel_call_result,
    CallStage, CancelReason, FocusStep, FocusWait, StopFollowUp, StopRecordingCallError,
};
use dikt::global_shortcuts::config::{
    authorize_shortcut_interactively_from_ui, listening_message, next_nap,
    request_shortcut_listener_rebind, session_error_code, unsupported_shortcut_message,
    RebindRequest, ShortcutConfig,
};
use dikt::global_shortcuts::health::{
    toggle_diagnostics_tuple, toggle_diagnostics_verbose_json_at, toggle_recent_events,
    ToggleEvents, ToggleRuntimeHealth,
};
use dikt::global_shortcuts::keys::{
    is_event_device, is_keyboard, key_event_of, KeyAction, KeyEvent, KeyTracker,
};
use dikt::global_shortcuts::toggle::{
    extract_start_failure_code, PressAction, StopRecordingOutcome, ToggleRuntime, ToggleState,
};
use dikt::ibus_control::{
    engine_matches_target, engine_request_result, is_dikt_engine, read_engine_name,
    switch_to_dikt_engine_verified, EngineSwitch, SwitchPlan,
};
use dikt::key_mapping::{resolve_keybinding, EV_KEY_LEFTCTRL, EV_KEY_LEFTSHIFT, MOD_CTRL, MOD_SHIFT};

fn runtime() -> ToggleRuntime {
    ToggleRuntime {
        health: ToggleRuntimeHealth::default(),
        events: ToggleEvents::default(),
        session_counter: 1,
    }
}

fn recording(rt: &mut ToggleRuntime, state: &mut ToggleState) -> u64 {
    let (id, must_switch) = rt.begin_start(Ok("xkb:us::eng".to_string()), 10);
    assert!(must_switch);
    assert!(rt.switch_over(id, Ok(("dikt".to_string(), 30)), 20).is_none());
    assert!(rt.focus_over(state, id, Ok((77, 5)), 30).is_none());
    assert!(matches!(state, ToggleState::Pending { .. }));
    let (cancel, notice) =
        rt.on_start_recording_result(state, id, Ok((9, "token".to_string())), 40);
    assert!(cancel.is_none());
    assert!(notice.is_none());
    id
}

#[test]
fn one_press_starts_and_the_next_stops() {
    let mut rt = runtime();
    let mut state = ToggleState::Idle;
    assert_eq!(rt.on_global_pressed(&mut state, 5), PressAction::Start);
    let id = recording(&mut rt, &mut state);
    assert!(matches!(state, ToggleState::Recording { daemon_session_id: 9, .. }));
    assert_eq!(
        rt.on_global_pressed(&mut state, 50),
        PressAction::Stop { toggle_session_id: id, daemon_session_id: 9 }
    );
    assert_eq!(rt.on_global_pressed(&mut state, 51), PressAction::Ignored);
    rt.on_stop_recording_result(&mut state, id + 1, StopRecordingOutcome::Acknowledged, 60);
    assert!(matches!(state, ToggleState::Stopping { .. }));
    rt.on_stop_recording_result(&mut state, id, StopRecordingOutcome::Acknowledged, 61);
    assert!(matches!(state, ToggleState::Idle));
    let events = toggle_recent_events(Some(&rt.events));
    assert!(events.iter().any(|e| e.contains("stop acknowledged for daemon session 9")));
}

#[test]
fn a_failed_start_is_told_once_in_a_while() {
    let mut rt = runtime();
    let mut state = ToggleState::Idle;
    let (id, _) = rt.begin_start(Ok("xkb:us::eng".to_string()), 100_000);
    let _ = rt.switch_over(id, Ok(("dikt".to_string(), 30)), 100_000);
    let _ = rt.focus_over(&mut state, id, Ok((77, 5)), 100_000);
    let failure = "Failed to start recording (busy): Recording already active".to_string();
    let (_, notice) = rt.on_start_recording_result(&mut state, id, Err(failure), 100_000);
    let notice = notice.unwrap();
    assert_eq!(notice.summary, "Cannot start recording");
    assert_eq!(notice.body, "Toggle dictation start failed (busy)");
    assert!(matches!(state, ToggleState::Idle));
    assert!(rt.notify_toggle_failure("a", "b", 100_001).is_none());
    assert!(rt.notify_toggle_failure("a", "b", 10_000_000).is_some());
    assert_eq!(extract_start_failure_code("no code here"), "start_recording_failed");
    assert_eq!(
        extract_start_failure_code("org.x.Error: Failed Failed to start recording (busy): in use"),
        "busy"
    );
    let (_, stale) = rt.on_start_recording_result(&mut state, id, Err("late".to_string()), 1);
    assert!(stale.is_none());
}

#[test]
fn a_start_that_comes_too_late_is_cancelled() {
    let mut rt = runtime();
    let mut state = ToggleState::Idle;
    let (cancel, _) = rt.on_start_recording_result(&mut state, 3, Ok((9, "t".to_string())), 1);
    assert_eq!(cancel, Some(9));
    let _ = recording(&mut rt, &mut state);
    assert_eq!(rt.cleanup_state(&mut state), Some((9, "cleanup".to_string())));
    assert!(matches!(state, ToggleState::Idle));
    assert_eq!(rt.cleanup_state(&mut state), None);
}

#[test]
fn a_press_on_the_dictation_source_needs_no_switch() {
    let mut rt = runtime();
    let (_, must_switch) = rt.begin_start(Ok("dikt".to_string()), 1);
    assert!(!must_switch);
    assert_eq!(toggle_diagnostics_tuple(Some(&rt.health)).8, 1);
    let (_, must_switch) = rt.begin_start(Err("gone".to_string()), 1);
    assert!(must_switch);
}

#[test]
fn events_are_remembered_up_to_a_limit() {
    let mut events = ToggleEvents::default();
    for i in 0..500u64 {
        events.push_at("x", i);
    }
    let lines = toggle_recent_events(Some(&events));
    assert_eq!(lines.len(), events.count());
    assert!(lines.len() < 500);
    assert!(lines.last().unwrap().contains("499"));
    assert!(toggle_recent_events(None).is_empty());
}

#[test]
fn the_report_holds_what_is_known() {
    let mut h = ToggleRuntimeHealth::default();
    h.mark_health_success("Listening", 42);
    h.mark_shortcut_description("Ctrl+A");
    h.mark_focused_engine_status(7, 8);
    h.mark_dbus_error("GetState", "no answer", 99);
    let json: serde_json::Value =
        serde_json::from_str(&toggle_diagnostics_verbose_json_at(Some(&h), None, 100)).unwrap();
    assert_eq!(json["healthy"].as_bool(), Some(true));
    assert_eq!(json["message"].as_str(), Some("Listening"));
    assert_eq!(json["last_success_ms"].as_u64(), Some(42));
    assert_eq!(json["shortcut_description"].as_str(), Some("Ctrl+A"));
    assert_eq!(json["focused_engine_id"].as_u64(), Some(7));
    assert_eq!(json["engine_active"].as_bool(), Some(true));
    assert_eq!(json["last_dbus_error_ms"].as_u64(), Some(99));
    let unreadable: serde_json::Value =
        serde_json::from_str(&toggle_diagnostics_verbose_json_at(None, None, 100)).unwrap();
    assert_eq!(unreadable["code"].as_str(), Some("lock_poisoned"));
    h.mark_health_error("x", "y");
    let tuple = toggle_diagnostics_tuple(Some(&h));
    assert!(!tuple.0);
    assert_eq!(tuple.4, 42);
}

#[test]
fn only_the_exact_chord_presses_the_shortcut() {
    let a = evdev::Key::KEY_A.code();
    let binding = resolve_keybinding('a' as u32, MOD_CTRL | MOD_SHIFT).unwrap();
    let mut t = KeyTracker::new();
    assert_eq!(t.handle(KeyEvent::Press(a), &binding, 10_000), KeyAction::Nothing);
    t.handle(KeyEvent::Press(EV_KEY_LEFTCTRL), &binding, 10_000);
    assert_eq!(t.handle(KeyEvent::Press(a), &binding, 10_000), KeyAction::Nothing);
    t.handle(KeyEvent::Press(EV_KEY_LEFTSHIFT), &binding, 10_000);
    assert_eq!(t.handle(KeyEvent::Press(a), &binding, 10_000), KeyAction::Pressed);
    assert_eq!(t.handle(KeyEvent::Press(a), &binding, 10_001), KeyAction::Debounced);
    assert_eq!(t.handle(KeyEvent::Press(a), &binding, 20_000), KeyAction::Pressed);
    t.handle(KeyEvent::Release(EV_KEY_LEFTSHIFT), &binding, 20_000);
    assert_eq!(t.handle(KeyEvent::Press(a), &binding, 30_000), KeyAction::Nothing);
    assert_eq!(key_event_of(30, 1), Some(KeyEvent::Press(30)));
    assert_eq!(key_event_of(30, 0), Some(KeyEvent::Release(30)));
    assert_eq!(key_event_of(30, 2), None);
    assert!(is_event_device("event3"));
    assert!(!is_event_device("mouse0"));
    assert!(is_keyboard(true, true, true, true));
    assert!(!is_keyboard(true, true, true, false));
}

#[test]
fn a_shortcut_is_described_and_authorized() {
    let config = ShortcutConfig::from_settings('A' as u32, MOD_CTRL);
    assert_eq!(config.keyval, 'a' as u32);
    let reads = config.human_description();
    assert!(reads.contains("Ctrl"));
    assert!(reads.ends_with('A'));
    let mut request = RebindRequest::default();
    assert!(!request.take());
    assert_eq!(
        authorize_shortcut_interactively_from_ui(&config, Ok(2), &mut request).unwrap(),
        format!("evdev: 2 keyboard(s) accessible, shortcut {} ready", reads)
    );
    assert!(request.take());
    assert_eq!(
        authorize_shortcut_interactively_from_ui(&config, Ok(0), &mut request).unwrap_err(),
        "No keyboard devices found in /dev/input/. Is the input group set up?"
    );
    assert_eq!(
        authorize_shortcut_interactively_from_ui(&config, Err("no".to_string()), &mut request)
            .unwrap_err(),
        "Cannot access keyboard devices: no"
    );
    let unknown = ShortcutConfig::from_settings(0x9999, 4);
    assert_eq!(
        authorize_shortcut_interactively_from_ui(&unknown, Ok(1), &mut request).unwrap_err(),
        "Cannot resolve keybinding for keyval 0x9999 + modifiers 0x4"
    );
    assert!(!request.take());
    request_shortcut_listener_rebind(&mut request);
    assert!(request.take());
    assert_eq!(
        unsupported_shortcut_message(&unknown),
        "Unsupported dictation shortcut: keyval 0x9999"
    );
    assert_eq!(listening_message(2, "Ctrl+A"), "Listening on 2 keyboard(s) for Ctrl+A");
    assert_eq!(session_error_code("x: Permission denied"), "evdev_permission_denied");
    assert_eq!(session_error_code("gone"), "evdev_session_error");
    assert_eq!(next_nap(500), (200, 300));
    assert_eq!(next_nap(120), (120, 0));
}

#[test]
fn a_stop_without_an_answer_is_followed_up() {
    assert!(matches!(
        after_stop_call(Ok(true)),
        StopFollowUp::Done(StopRecordingOutcome::Acknowledged)
    ));
    assert!(matches!(after_stop_call(Ok(false)), StopFollowUp::Cancel(CancelReason::Refused)));
    match after_state_call(StopRecordingCallError::TimedOut, Some(false)) {
        StopFollowUp::Done(StopRecordingOutcome::Finalizing { reason, timed_out }) => {
            assert!(timed_out);
            assert_eq!(
                reason,
                "Stop call timed out after 20000 ms, daemon reports recording stopped; waiting for final commit"
            );
        }
        _ => panic!("the service has stopped"),
    }
    match after_state_call(StopRecordingCallError::Disconnected, None) {
        StopFollowUp::Cancel(reason) => match after_cancel_call(reason, 9, Ok(())) {
            StopRecordingOutcome::Failed(m) => assert_eq!(
                m,
                "StopRecordingSession call worker disconnected before returning; fallback CancelRecordingSession(9) succeeded"
            ),
            _ => panic!("a cancelled stop has failed"),
        },
        _ => panic!("the session is cancelled"),
    }
    assert!(cancel_call_result(9, true).is_ok());
    assert_eq!(
        cancel_call_result(9, false).unwrap_err(),
        "CancelRecordingSession returned false for session 9"
    );
    assert_eq!(
        call_failure("GetState", CallStage::Connect, "x"),
        "Failed to open session bus: x"
    );
    assert_eq!(call_failure("GetState", CallStage::Call, "x"), "GetState call failed: x");
    assert_eq!(call_failure("GetState", CallStage::Decode, "x"), "GetState decode failed: x");
}

#[test]
fn the_focus_is_waited_for() {
    let mut health = ToggleRuntimeHealth::default();
    let mut wait = FocusWait::new();
    assert!(matches!(wait.looked(&mut health, Ok((0, 4)), 10, 700), FocusStep::Again));
    assert!(matches!(wait.looked(&mut health, Ok((7, 5)), 20, 700), FocusStep::Found(7, 5)));
    match wait.looked(&mut health, Err("gone".to_string()), 700, 700) {
        FocusStep::Failed(e) => assert_eq!(
            e,
            "Dikt engine did not report a focused context within 700 ms (last_focused_engine_id=7 last_change_ms=5 last_error='gone')"
        ),
        _ => panic!("the time is over"),
    }
}

#[test]
fn the_input_source_is_switched_and_confirmed() {
    assert!(is_dikt_engine("dikt"));
    assert!(is_dikt_engine("other:dikt"));
    assert!(!is_dikt_engine("diktat"));
    assert!(engine_matches_target("other:dikt", "dikt"));
    assert!(!engine_matches_target("xkb:us", "dikt"));
    assert_eq!(read_engine_name(Some(" dikt ".to_string())).unwrap(), "dikt");
    assert_eq!(read_engine_name(None).unwrap_err(), "IBus returned empty global engine");
    assert_eq!(
        read_engine_name(Some(" ".to_string())).unwrap_err(),
        "IBus returned blank global engine"
    );
    assert_eq!(
        engine_request_result("x", false).unwrap_err(),
        "IBus rejected global engine switch to 'x'"
    );
    assert_eq!(engine_request_result(" ", true).unwrap_err(), "Target engine name is empty");
    assert!(matches!(
        switch_to_dikt_engine_verified(Some("dikt".to_string()), &Vec::new()),
        SwitchPlan::Done(_)
    ));
    match switch_to_dikt_engine_verified(None, &vec!["a".to_string()]) {
        SwitchPlan::Try(name) => assert_eq!(name, "other:dikt"),
        _ => panic!("the other name is tried"),
    }
    match switch_to_dikt_engine_verified(None, &vec!["a".to_string(), "b".to_string()]) {
        SwitchPlan::Failed(e) => assert_eq!(
            e,
            "Failed to switch to Dikt input source with confirmation. Tried: dikt (a), other:dikt (b)"
        ),
        _ => panic!("nothing is left to try"),
    }
    let mut s = match EngineSwitch::begin("dikt", 350, Some("xkb:us".to_string())) {
        Ok(Err(s)) => s,
        _ => panic!("another engine is the current one"),
    };
    assert!(s.wants_request(None));
    assert!(!s.wants_request(Some(10)));
    s.requested(Ok(()));
    assert!(s.looked_at(Ok("xkb:us".to_string())).is_none());
    assert!(s.timed_out(349).is_none());
    assert_eq!(
        s.timed_out(350).unwrap(),
        "Switch to 'dikt' not confirmed within 350 ms (set_attempts=1 last_set_error='' last_engine='xkb:us' last_error='')"
    );
    assert_eq!(s.looked_at(Ok("other:dikt".to_string())), Some("other:dikt".to_string()));
}

#[test]
fn the_latest_events_are_remembered_in_order() {
    let mut events = ToggleEvents::default();
    for i in 0..200 {
        events.push_at("pressed", i);
    }
    let lines = toggle_recent_events(Some(&events));
    let expected: Vec<String> = (140..200).map(|i| format!("{i} pressed")).collect();
    assert_eq!(lines, expected);
}
