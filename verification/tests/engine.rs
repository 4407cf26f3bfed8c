use dikt::ibus_engine::commands::{CommandQueue, EngineAction, EngineCommand};
use dikt::ibus_engine::context::{
    notice_body, pending_text, state_notice, DiktContext, ListenerPlan, StateNotice,
};
use dikt::ibus_engine::global_shortcuts::{
    keyval_to_name, new_token, portal_result, read_signal, shortcut_trigger, PushToTalk,
    ShortcutSignal,
};
use dikt::ibus_engine::ibus_api::{can_switch, current_ibus_engine, is_handy_engine, switch_engine};
use dikt::ibus_engine::init_result;
use dikt::ibus_engine::listener::{
    ActiveReply, ListenerStep, LiveReply, PendingCommitListener, SessionClaim, TakeReply,
};

fn commit(engine_id: u64, text: &str) -> EngineCommand {
    EngineCommand::CommitText { engine_id, text: text.to_string() }
}

fn named(actions: &Vec<EngineAction>) -> Vec<String> {
    actions
        .iter()
        .map(|a| match a {
            EngineAction::Show { text, cursor_pos } => format!("show {} {}", text, cursor_pos),
            EngineAction::Hide => "hide".to_string(),
            EngineAction::Commit { text } => format!("commit {}", text),
        })
        .collect()
}

#[test]
fn commands_are_carried_out_for_the_current_engine_only() {
    let mut queue = CommandQueue::new();
    queue.send_command(EngineCommand::UpdatePreedit {
        engine_id: 1,
        text: "he".to_string(),
        cursor_pos: 2,
    });
    queue.send_command(commit(2, "other"));
    queue.send_command(commit(1, "hello"));
    queue.send_command(EngineCommand::HidePreedit { engine_id: 1 });
    assert_eq!(queue.len(), 4);
    let actions = queue.process_commands(Some(1));
    assert_eq!(named(&actions), vec!["show he 2", "hide", "commit hello", "hide"]);
    assert_eq!(queue.len(), 0);
    queue.send_command(commit(1, "lost"));
    assert!(queue.process_commands(None).is_empty());
    assert_eq!(queue.len(), 0);
}

#[test]
fn disabling_commits_what_is_left_and_spares_others() {
    let mut queue = CommandQueue::new();
    queue.send_command(commit(1, "a"));
    queue.send_command(EngineCommand::UpdatePreedit {
        engine_id: 1,
        text: "stale".to_string(),
        cursor_pos: 5,
    });
    queue.send_command(commit(2, "b"));
    queue.send_command(commit(1, "c"));
    let drained = queue.drain_engine_commands_for_disable(1);
    assert!(drained.hide_preedit);
    assert_eq!(drained.commits, vec!["a".to_string(), "c".to_string()]);
    assert_eq!(queue.len(), 1);
    assert_eq!(named(&queue.process_commands(Some(2))), vec!["hide", "commit b"]);
    let empty = queue.drain_engine_commands_for_disable(1);
    assert!(!empty.hide_preedit);
    assert!(empty.commits.is_empty());
}

fn answer(session_id: u64, token: &str, allow_preedit: bool) -> ActiveReply {
    ActiveReply::Answer { session_id, claim_token: token.to_string(), allow_preedit }
}

fn live(revision: u64, visible: bool, text: &str) -> LiveReply {
    LiveReply::Answer { revision, visible, text: text.to_string() }
}

#[test]
fn the_listener_shows_and_commits() {
    let mut l = PendingCommitListener::new(9);
    for _ in 0..4 {
        l.begin_round();
    }
    let step = l.on_active_reply(answer(3, "t", true));
    assert_eq!(step.next, ListenerStep::AskLive);
    assert!(step.command.is_none());
    let claim = step.claim.unwrap().unwrap();
    assert_eq!((claim.session_id, claim.claim_token.as_str()), (3, "t"));

    let (command, next) = l.on_live_reply(live(1, true, " hél "), false);
    assert_eq!(next, ListenerStep::AskPending);
    match command.unwrap() {
        EngineCommand::UpdatePreedit { engine_id, text, cursor_pos } => {
            assert_eq!((engine_id, text.as_str(), cursor_pos), (9, "hél", 3));
        }
        _ => panic!("the text is shown"),
    }
    assert!(l.on_live_reply(live(1, true, "hél"), false).0.is_none());

    let (command, next) =
        l.on_pending_reply(TakeReply::Answer { has_text: true, text: " done ".to_string() }, false);
    assert_eq!(next, ListenerStep::Sleep);
    match command.unwrap() {
        EngineCommand::CommitText { engine_id, text } => {
            assert_eq!((engine_id, text.as_str()), (9, "done"));
        }
        _ => panic!("the text is committed"),
    }
}

#[test]
fn another_session_takes_the_preview_away() {
    let mut l = PendingCommitListener::new(9);
    let _ = l.on_active_reply(answer(3, "t", true));
    let _ = l.on_live_reply(live(5, true, "x"), false);
    let step = l.on_active_reply(answer(4, "u", true));
    assert!(matches!(step.command, Some(EngineCommand::HidePreedit { engine_id: 9 })));
    let _ = l.on_live_reply(live(1, true, "y"), false);
    let step = l.on_active_reply(answer(4, "u", false));
    assert!(matches!(step.command, Some(EngineCommand::HidePreedit { engine_id: 9 })));
    assert_eq!(step.next, ListenerStep::AskPending);
    let step = l.on_active_reply(answer(0, "", false));
    assert!(step.claim.unwrap().is_none());
    assert_eq!(step.next, ListenerStep::Sleep);
}

#[test]
fn a_shown_text_is_refreshed_after_a_while() {
    let mut l = PendingCommitListener::new(9);
    let _ = l.on_active_reply(answer(3, "t", true));
    assert!(l.on_live_reply(live(1, true, "x"), false).0.is_some());
    for _ in 0..5 {
        assert!(l.on_live_reply(live(1, true, "x"), false).0.is_none());
    }
    assert!(l.on_live_reply(live(1, true, "x"), false).0.is_some());
}

#[test]
fn failures_lead_to_a_new_connection() {
    let mut l = PendingCommitListener::new(9);
    for _ in 0..4 {
        assert_eq!(l.on_active_reply(ActiveReply::Failed).next, ListenerStep::Sleep);
    }
    assert_eq!(l.on_active_reply(ActiveReply::Failed).next, ListenerStep::Reconnect);
    l.reconnected(false);
    assert_eq!(l.on_pending_reply(TakeReply::Failed, false).1, ListenerStep::Reconnect);
    l.reconnected(true);
    assert_eq!(l.on_pending_reply(TakeReply::Failed, false).1, ListenerStep::Sleep);
    assert_eq!(l.on_active_reply(ActiveReply::Invalid).next, ListenerStep::Sleep);
}

#[test]
fn a_service_without_previews_is_not_asked_again() {
    let mut l = PendingCommitListener::new(9);
    let detail = "org.freedesktop.DBus.Error.UnknownMethod: no".to_string();
    assert_eq!(l.on_active_reply(answer(3, "t", true)).next, ListenerStep::AskLive);
    let _ = l.on_live_reply(LiveReply::Failed { detail }, false);
    assert_eq!(l.on_active_reply(answer(3, "t", true)).next, ListenerStep::AskPending);
}

#[test]
fn a_cancelled_listener_stops_before_it_acts() {
    let mut l = PendingCommitListener::new(9);
    let _ = l.on_active_reply(answer(3, "t", true));
    let (command, next) = l.on_live_reply(live(1, true, "x"), true);
    assert!(command.is_none());
    assert_eq!(next, ListenerStep::Stop);
    let (command, next) =
        l.on_pending_reply(TakeReply::Answer { has_text: true, text: "x".to_string() }, true);
    assert!(command.is_none());
    assert_eq!(next, ListenerStep::Stop);
    let (_, next) =
        l.on_pending_reply(TakeReply::Answer { has_text: false, text: "x".to_string() }, true);
    assert_eq!(next, ListenerStep::Sleep);
}

#[test]
fn enabling_and_disabling_leave_no_trace() {
    let mut c = DiktContext::new();
    assert_eq!(c.focus_in(5), Some((5, true)));
    assert_eq!(c.focus_in(0), None);
    let plan = c.enable(5, true).unwrap();
    assert_eq!(plan.focus, Some((5, true)));
    assert_eq!(plan.listener, ListenerPlan::Start);
    assert!(plan.ask_state);
    let again = c.enable(5, true).unwrap();
    assert_eq!(again.listener, ListenerPlan::Keep);
    assert!(!again.ask_state);
    assert!(c.enable(5, false).is_none());
    c.set_claim(Some(SessionClaim { session_id: 8, claim_token: "t".to_string() }));
    let (focus, claim) = c.begin_disable(5);
    assert_eq!(focus, Some((5, false)));
    assert_eq!(claim.unwrap().session_id, 8);
    c.end_disable();
    assert!(!c.is_enabled());
    assert!(!c.is_focused());
    assert!(c.begin_disable(5).1.is_none());
    assert!(!c.process_key_event(97, 30, 0));
}

#[test]
fn a_listener_of_another_engine_is_replaced() {
    let mut c = DiktContext::new();
    let _ = c.enable(5, true);
    assert_eq!(c.ensure_pending_commit_listener(6), ListenerPlan::Replace);
    assert_eq!(c.ensure_pending_commit_listener(5), ListenerPlan::Keep);
}

#[test]
fn notices_follow_the_state() {
    assert_eq!(state_notice(None), Some(StateNotice::NoService));
    assert_eq!(state_notice(Some(None)), None);
    assert_eq!(state_notice(Some(Some(true))), None);
    assert_eq!(state_notice(Some(Some(false))), Some(StateNotice::NoModel));
    assert_eq!(
        notice_body(StateNotice::NoModel),
        "No speech model configured. Click to open preferences."
    );
    assert_eq!(pending_text(Some((true, " x ".to_string()))), Some("x".to_string()));
    assert_eq!(pending_text(Some((true, " ".to_string()))), None);
    assert_eq!(pending_text(Some((false, "x".to_string()))), None);
    assert_eq!(pending_text(None), None);
}

#[test]
fn the_portal_is_told_the_shortcut() {
    assert_eq!(keyval_to_name(32), Some("space".to_string()));
    assert_eq!(keyval_to_name('Q' as u32), Some("q".to_string()));
    assert_eq!(keyval_to_name('7' as u32), Some("7".to_string()));
    assert_eq!(keyval_to_name(0xffbe), None);
    assert_eq!(
        shortcut_trigger('a' as u32, 1 | 4 | 8 | 64),
        Some("<Ctrl><Alt><Shift><Super>a".to_string())
    );
    assert_eq!(shortcut_trigger('a' as u32, 0), Some("a".to_string()));
    assert_eq!(new_token("handy_gs_bind", 123, 4), "handy_gs_bind_123_4");
    assert!(portal_result("CreateSession", 0).is_ok());
    assert_eq!(
        portal_result("BindShortcuts", 2).unwrap_err(),
        "GlobalShortcuts BindShortcuts failed with code 2"
    );
    assert_eq!(read_signal("Activated", true, "push_to_talk"), ShortcutSignal::Pressed);
    assert_eq!(read_signal("Deactivated", true, "push_to_talk"), ShortcutSignal::Released);
    assert_eq!(read_signal("Activated", false, "push_to_talk"), ShortcutSignal::Other);
    assert_eq!(read_signal("Activated", true, "x"), ShortcutSignal::Other);
}

#[test]
fn releasing_the_shortcut_restores_the_engine() {
    let mut p = PushToTalk::new();
    let current = Some("xkb:us::eng".to_string());
    assert!(!p.on_global_pressed(false, &current));
    assert!(!p.on_global_pressed(true, &None));
    assert!(!p.on_global_pressed(true, &Some("x:handy".to_string())));
    assert!(p.on_global_pressed(true, &current));
    assert_eq!(p.recording_started("xkb:us::eng".to_string(), false), None);
    assert_eq!(p.on_global_released(), None);
    assert_eq!(p.recording_started("xkb:us::eng".to_string(), true), None);
    assert!(!p.on_global_pressed(true, &current));
    assert_eq!(p.on_global_released(), Some("xkb:us::eng".to_string()));
    assert!(p.on_global_pressed(true, &current));
}

#[test]
fn names_of_the_input_source() {
    assert!(is_handy_engine("handy"));
    assert!(is_handy_engine("x:handy"));
    assert!(!is_handy_engine("handyman"));
    assert_eq!(current_ibus_engine(Some(" a\n".to_string())), Some("a".to_string()));
    assert_eq!(current_ibus_engine(Some(" ".to_string())), None);
    assert_eq!(current_ibus_engine(None), None);
    assert!(!can_switch(""));
    assert!(!can_switch("a\0b"));
    assert!(switch_engine("a", true));
    assert!(!switch_engine("a", false));
    assert!(!switch_engine("", true));
    assert_eq!(init_result(0), Ok(()));
    assert_eq!(init_result(3), Err(3));
}
