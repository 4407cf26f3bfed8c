use dikt::dbus::live_worker::{live_text_of, LivePreeditWorker, WorkerStep};
use dikt::dbus::pending_commit::MAX_PENDING_COMMIT_QUEUE;
use dikt::dbus::recording::{
    choose_output_text, start_failure_message, FinalOutcome, FinalSignal, StopDecision,
};
use dikt::dbus::sessions::{binding_id_for_session, DiktState};
use dikt::managers::audio::RecordingStartError;

fn started(state: &mut DiktState, engine: u64, now: u64) -> (u64, String) {
    let (id, token) = state.begin_session_at(engine, now).unwrap();
    assert!(state.check_start_at(id, true, now).is_ok());
    state.start_accepted(id, false);
    state.end_start_at(id, true, now);
    (id, token)
}

fn status(state: &DiktState, id: u64) -> (String, String) {
    let entry = state.session_status(id).unwrap();
    (entry.state, entry.message)
}

#[test]
fn dictated_text_is_delivered_once_to_its_claim() {
    let mut state = DiktState::new_at("en".to_string(), 0);
    let (id, token) = started(&mut state, 77, 10);
    assert!(state.is_recording());
    assert_eq!(status(&state, id).0, "recording");
    assert_eq!(state.session_binding(id), Some(77));
    assert_eq!(state.active_session_for_engine_at(77, 11), (id, token.clone(), true));
    assert_eq!(state.active_session_for_engine_at(78, 11), (0, String::new(), false));
    assert_eq!(state.active_session_for_engine_at(0, 11), (0, String::new(), false));

    match state.stop_session_at(id, 20) {
        StopDecision::Proceed { was_recording, binding_id } => {
            assert!(was_recording);
            assert_eq!(binding_id, binding_id_for_session(id));
        }
        StopDecision::Done(_) => panic!("the session records"),
    }
    assert!(!state.is_recording());
    assert!(state.session_is_stopping(id));
    assert_eq!(status(&state, id), ("finalizing".to_string(), "Stopping recorder".to_string()));
    assert_eq!(state.active_session_for_engine_at(77, 21), (id, token.clone(), false));

    match state.finalize_at(id, FinalOutcome::Text("hello there".to_string()), 30) {
        FinalSignal::TranscriptionReady(text) => assert_eq!(text, "hello there"),
        _ => panic!("the text is ready"),
    }
    assert!(!state.session_is_stopping(id));
    assert_eq!(status(&state, id), ("ready".to_string(), "Transcription ready".to_string()));

    assert_eq!(
        state.take_pending_commit_for_session_at(id, "wrong", 31),
        (false, String::new())
    );
    assert_eq!(
        state.take_pending_commit_for_session_at(id, &token, 31),
        (true, "hello there".to_string())
    );
    assert_eq!(
        state.take_pending_commit_for_session_at(id, &token, 32),
        (false, String::new())
    );
    assert_eq!(
        status(&state, id),
        ("committed".to_string(), "Final commit delivered".to_string())
    );
}

#[test]
fn a_session_needs_an_engine_and_a_model() {
    let mut state = DiktState::new_at("en".to_string(), 0);
    assert_eq!(
        state.begin_session_at(0, 1).unwrap_err(),
        "Invalid target engine id 0 for session routing"
    );
    let (id, _) = state.begin_session_at(5, 1).unwrap();
    let (announced, answer) = state.check_start_at(id, false, 2).unwrap_err();
    assert_eq!(
        announced,
        "No model selected. Open Dikt preferences to download and select a model."
    );
    assert_eq!(answer, "No model selected");
    state.end_start_at(id, false, 3);
    assert!(state.session_status(id).is_none());
    assert!(state.session_claim_token(id).is_none());
}

#[test]
fn a_refused_start_says_why() {
    let mut state = DiktState::new_at("en".to_string(), 0);
    let (id, _) = state.begin_session_at(5, 1).unwrap();
    let err = RecordingStartError::Busy { active_binding_id: Some("session-9".to_string()) };
    let message = state.start_refused_at(id, &err, 2);
    assert_eq!(message, start_failure_message(&err));
    assert_eq!(
        message,
        format!("Failed to start recording ({}): {}", err.code(), err.detail())
    );
    assert_eq!(status(&state, id), ("failed".to_string(), message));
}

#[test]
fn stopping_twice_is_granted_and_stopping_nothing_is_not() {
    let mut state = DiktState::new_at("en".to_string(), 0);
    assert!(matches!(state.stop_session_at(4, 1), StopDecision::Done(false)));
    let (id, _) = started(&mut state, 7, 2);
    assert!(matches!(state.stop_session_at(id, 3), StopDecision::Proceed { .. }));
    assert!(matches!(state.stop_session_at(id, 4), StopDecision::Done(true)));
    state.stop_found_inactive_at(id, 5);
    assert_eq!(
        status(&state, id),
        ("failed".to_string(), "Stop requested for inactive recording session".to_string())
    );
    assert!(matches!(state.stop_session_at(id, 6), StopDecision::Done(false)));
}

#[test]
fn every_outcome_has_its_status() {
    let cases: Vec<(FinalOutcome, &str, &str)> = vec![
        (FinalOutcome::NoSamples, "ready", "No speech detected"),
        (FinalOutcome::Text("  ".to_string()), "ready", "Transcription ready"),
        (
            FinalOutcome::Failed("no engine".to_string()),
            "failed",
            "Transcription failed: no engine",
        ),
        (FinalOutcome::Panicked, "failed", "Internal transcription panic"),
        (FinalOutcome::NoRuntime, "failed", "Internal runtime initialization failed"),
    ];
    for (outcome, expected, message) in cases {
        let mut state = DiktState::new_at("en".to_string(), 0);
        let (id, token) = started(&mut state, 7, 2);
        let _ = state.stop_session_at(id, 3);
        let _ = state.finalize_at(id, outcome, 4);
        assert_eq!(status(&state, id), (expected.to_string(), message.to_string()));
        assert!(!state.session_is_stopping(id));
        assert_eq!(
            state.take_pending_commit_for_session_at(id, &token, 5),
            (false, String::new())
        );
    }
}

#[test]
fn a_cancelled_session_shows_nothing() {
    let mut state = DiktState::new_at("en".to_string(), 0);
    let (id, token) = started(&mut state, 7, 2);
    let revision = state.next_live_preedit_revision();
    state.set_live_preedit(id, revision, "hel".to_string());
    assert_eq!(
        state.get_live_preedit_for_session(id, &token),
        (revision, true, "hel".to_string())
    );
    assert_eq!(state.get_live_preedit_for_session(id, "other"), (0, false, String::new()));
    assert_eq!(state.cancel_session_at(id, 3), (true, true));
    let (after, visible, text) = state.get_live_preedit_for_session(id, &token);
    assert!(after > revision);
    assert!(!visible);
    assert_eq!(text, "");
    assert_eq!(status(&state, id).0, "cancelled");
    assert_eq!(state.cancel_session_at(999, 4), (false, false));
}

#[test]
fn expired_sessions_are_forgotten_and_live_ones_are_not() {
    let mut state = DiktState::new_at("en".to_string(), 0);
    let (done, _) = started(&mut state, 7, 0);
    state.set_session_status_at(done, "committed", "x", 0);
    let (live, token) = started(&mut state, 8, 0);
    let late = 100 * 60 * 60 * 1000;
    state.cleanup_expired_sessions_at(late);
    assert!(state.session_status(done).is_none());
    assert_eq!(state.session_binding(done), None);
    assert_eq!(status(&state, live).0, "recording");
    assert!(state.validate_session_claim(live, &token));
    assert_eq!(
        state.session_report_at(done, late),
        ("missing".to_string(), "Session not found".to_string(), 0)
    );
}

#[test]
fn the_recording_session_comes_first() {
    let mut state = DiktState::new_at("en".to_string(), 0);
    let (ready, _) = started(&mut state, 7, 0);
    state.set_session_status_at(ready, "ready", "x", 500);
    let (recording, token) = started(&mut state, 7, 1);
    assert_eq!(state.active_session_for_engine_at(7, 501), (recording, token, true));
}

#[test]
fn only_its_holder_gives_up_the_focus() {
    let mut state = DiktState::new_at("en".to_string(), 0);
    state.set_focused_engine_at(5, true, 10);
    assert_eq!(state.focused_engine_status(), (5, 10));
    state.set_focused_engine_at(6, false, 20);
    assert_eq!(state.focused_engine_status(), (5, 10));
    state.set_focused_engine_at(5, true, 30);
    assert_eq!(state.focused_engine_status(), (5, 10));
    state.set_focused_engine_at(5, false, 40);
    assert_eq!(state.focused_engine_status(), (0, 40));
}

#[test]
fn processed_text_is_preferred_unless_blank() {
    assert_eq!(choose_output_text("raw".to_string(), None), "raw");
    assert_eq!(choose_output_text("raw".to_string(), Some(" better \n".to_string())), "better");
    assert_eq!(choose_output_text("raw".to_string(), Some(" \t".to_string())), "raw");
}

#[test]
fn the_preview_grows_with_what_is_heard() {
    let mut state = DiktState::new_at("en".to_string(), 0);
    let (id, token) = started(&mut state, 7, 0);
    let mut worker = LivePreeditWorker::new(id, 7);
    assert_eq!(worker.before_sleep(&mut state, true), WorkerStep::Again);
    assert_eq!(worker.snapshot_taken(&state, Some(100)), WorkerStep::Again);
    assert_eq!(worker.snapshot_taken(&state, Some(20_000)), WorkerStep::Transcribe);
    assert_eq!(worker.text_heard(&mut state, "one two".to_string()), WorkerStep::Again);
    assert_eq!(state.get_live_preedit_for_session(id, &token).2, "one two");
    assert_eq!(worker.snapshot_taken(&state, Some(20_100)), WorkerStep::Again);
    assert_eq!(worker.snapshot_taken(&state, Some(30_000)), WorkerStep::Transcribe);
    assert_eq!(worker.text_heard(&mut state, "one two three".to_string()), WorkerStep::Again);
    let (revision, visible, text) = state.get_live_preedit_for_session(id, &token);
    assert!(visible);
    assert_eq!(text, "one two three");
    assert_eq!(worker.before_sleep(&mut state, false), WorkerStep::Exit);
    let (hidden, visible, _) = state.get_live_preedit_for_session(id, &token);
    assert!(hidden > revision);
    assert!(!visible);
}

#[test]
fn the_preview_ends_with_its_session() {
    let mut state = DiktState::new_at("en".to_string(), 0);
    let (id, token) = started(&mut state, 7, 0);
    let mut worker = LivePreeditWorker::new(id, 7);
    assert_eq!(worker.snapshot_taken(&state, Some(20_000)), WorkerStep::Transcribe);
    let _ = worker.text_heard(&mut state, "one".to_string());
    assert!(state.get_live_preedit_for_session(id, &token).1);
    assert_eq!(state.cancel_session_at(id, 1), (true, true));
    let _ = worker.text_heard(&mut state, "one two".to_string());
    assert!(state.get_live_preedit_for_session(id, &token).1);
    assert_eq!(worker.snapshot_taken(&state, None), WorkerStep::Exit);
    worker.finish(&mut state);
    assert!(!state.get_live_preedit_for_session(id, &token).1);
}

#[test]
fn cancelling_one_session_leaves_the_recording_of_another() {
    let mut state = DiktState::new_at("en".to_string(), 0);
    let (done, done_token) = started(&mut state, 7, 1);
    let _ = state.stop_session_at(done, 2);
    let _ = state.finalize_at(done, FinalOutcome::Text("hello".to_string()), 3);
    let (live, live_token) = started(&mut state, 8, 4);
    for (id, text) in [(done, "old"), (live, "new")] {
        let revision = state.next_live_preedit_revision();
        state.set_live_preedit(id, revision, text.to_string());
    }
    let shown = state.get_live_preedit_for_session(live, &live_token);

    assert_eq!(state.cancel_session_at(done, 5), (true, false));
    assert_eq!(status(&state, done).0, "cancelled");
    let (_, visible, text) = state.get_live_preedit_for_session(done, &done_token);
    assert!(!visible);
    assert_eq!(text, "");
    assert!(state.is_recording());
    assert_eq!(status(&state, live).0, "recording");
    assert_eq!(state.get_live_preedit_for_session(live, &live_token), shown);

    assert_eq!(state.cancel_session_at(live, 6), (true, true));
    assert!(!state.is_recording());
    assert_eq!(state.cancel_session_at(live, 7), (true, false));
}

#[test]
fn stopping_one_session_leaves_the_recording_of_another() {
    let mut state = DiktState::new_at("en".to_string(), 0);
    let (waiting, _) = state.begin_session_at(7, 1).unwrap();
    let (live, _) = started(&mut state, 8, 2);
    match state.stop_session_at(waiting, 3) {
        StopDecision::Proceed { was_recording, .. } => assert!(!was_recording),
        StopDecision::Done(_) => panic!("the session has not stopped yet"),
    }
    assert!(state.is_recording());
    match state.stop_session_at(live, 4) {
        StopDecision::Proceed { was_recording, .. } => assert!(was_recording),
        StopDecision::Done(_) => panic!("the session has not stopped yet"),
    }
    assert!(!state.is_recording());
}

#[test]
fn dropped_texts_are_counted() {
    let mut state = DiktState::new_at("en".to_string(), 0);
    let (id, _) = started(&mut state, 7, 1);
    assert_eq!(state.pending_commit_dropped_count(), 0);
    for _ in 0..40 {
        state.store_pending_commit_at(id, "x".to_string(), 2);
    }
    assert_eq!(
        state.pending_commit_dropped_count(),
        40 - MAX_PENDING_COMMIT_QUEUE as u64
    );
}

#[test]
fn live_text_is_trimmed() {
    assert_eq!(live_text_of("  hello \n", "en"), "hello");
}

#[test]
fn claims_differ_from_session_to_session() {
    let mut state = DiktState::new("en".to_string());
    let (first, a) = state.create_session(1);
    let (second, b) = state.create_session(1);
    assert_ne!(first, second);
    assert_ne!(a, b);
    assert!(state.validate_session_claim(first, &a));
    assert!(!state.validate_session_claim(first, &b));
    state.remove_session(first);
    assert!(!state.validate_session_claim(first, &a));
    assert_eq!(state.selected_language(), "en");
    state.set_selected_language("de".to_string());
    assert_eq!(state.selected_language(), "de");
}

#[test]
fn a_created_session_is_a_new_one() {
    let mut state = DiktState::new_at("en".to_string(), 0);
    let mut seen: Vec<(u64, String)> = Vec::new();
    for engine in 1..20 {
        let (id, token) = state.create_session_at(engine, 5);
        assert!(seen.iter().all(|(other, taken)| *other != id && *taken != token));
        for (other, taken) in &seen {
            assert!(!state.validate_session_claim(id, taken));
            assert!(!state.validate_session_claim(*other, &token));
            assert!(state.validate_session_claim(*other, taken));
        }
        assert!(!state.session_is_stopping(id));
        seen.push((id, token));
    }
}
