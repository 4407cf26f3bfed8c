use dikt::actions::{post_process_transcription, transcribed_text, transcription_result};
use dikt::app::{level_filter_from_settings, settings_sync_actions, SyncAction};
use dikt::clipboard::{
    get_available_typing_tools, output_plan, paste_key_combo, press_auto_submit_key, tool_result,
    type_text_command, typing_backend, wait_after_paste_ms, InstalledTools, KeyAction, OutputPlan,
    PasteKey, TypingBackend,
};
use dikt::global_shortcuts::health::{toggle_diagnostics_verbose_json_at, ToggleRuntimeHealth};
use dikt::handy::{check_model, load_begins, mutes_after_start, unload_due, HandyState};
use dikt::ibus_engine::listener::SessionClaim;
use dikt::llm_client::{
    build_headers, build_post_process_request, chat_reply, chat_request, chat_url, get_provider,
    lookup, messages_body, messages_reply, model_list_refused, models_from_answer, models_url, plan_call,
    request_refused, PostProcessSettings,
};
use dikt::managers::catalog::{offered_catalog, ModelInfo};
use dikt::managers::model::ModelState;
use dikt::settings::{
    pairs_to_store, stored_pairs, text_or_none, text_to_store, AutoSubmitKey, ClipboardHandling,
    InferenceDevicePolicy, LLMPrompt, LogLevel, ModelUnloadTimeout, PasteMethod,
    RecordingRetentionPeriod, SoundTheme, TypingTool,
};
use dikt::shortcut::handler::{
    change_binding, init_shortcuts, reset_binding, resume_binding, suspend_binding,
    unregister_cancel_shortcut,
};
use dikt::ui::advanced::{timeout_at, timeout_index, timeout_name};
use dikt::ui::debug::{
    fetched_text, finalize_step, keep_last_lines, render_debug_text, stop_acknowledged,
    DebugRecorder, FinalizeStep,
};
use dikt::ui::diagnostics::{
    brief_subtitle_at, toggle_diagnostics_subtitle_at, toggle_diagnostics_summary, BriefDiagnostics,
};
use dikt::ui::general::{
    gdk_to_ibus_modifiers, ibus_to_gdk_modifiers, language_choices, selected_language_index,
    shortcut_label, Capture, CapturedKey, HeldModifiers, ShortcutCapture,
};
use dikt::ui::models::{is_before, row_controls, sorted_models, RowControls};
use dikt::ui::window::{page_of_row, page_subtitle};
use dikt::utils::launch::{join, launch_failure};
use dikt::utils::logging::{read_recent_logs, LogBuffer};
use dikt::{level_filter_from_u8, LevelFilter};

fn strings(v: &[&str]) -> Vec<String> {
    v.iter().map(|s| s.to_string()).collect()
}

#[test]
fn levels_by_number() {
    assert_eq!(level_filter_from_u8(0), LevelFilter::Off);
    assert_eq!(level_filter_from_u8(1), LevelFilter::Error);
    assert_eq!(level_filter_from_u8(2), LevelFilter::Warn);
    assert_eq!(level_filter_from_u8(3), LevelFilter::Info);
    assert_eq!(level_filter_from_u8(4), LevelFilter::Debug);
    assert_eq!(level_filter_from_u8(5), LevelFilter::Trace);
    assert_eq!(level_filter_from_u8(200), LevelFilter::Trace);
    assert_eq!(level_filter_from_u8(dikt::FILE_LOG_LEVEL), LevelFilter::Debug);
    assert_eq!(level_filter_from_settings(LogLevel::Warn), LevelFilter::Warn);
}

#[test]
fn settings_survive_storage() {
    for t in [SoundTheme::Marimba, SoundTheme::Pop, SoundTheme::Custom] {
        assert_eq!(SoundTheme::from_code(t.code()), t);
    }
    for m in [PasteMethod::CtrlV, PasteMethod::Direct, PasteMethod::Nothing, PasteMethod::CtrlShiftV]
    {
        assert_eq!(PasteMethod::from_code(m.code()), m);
    }
    assert_eq!(LogLevel::from_code(77), LogLevel::default());
    assert_eq!(text_or_none(String::new()), None);
    assert_eq!(text_or_none("x".to_string()), Some("x".to_string()));
    assert_eq!(text_to_store(&None), "");
    assert_eq!(ModelUnloadTimeout::Min5.to_seconds(), Some(300));
    assert_eq!(ModelUnloadTimeout::Never.to_seconds(), None);
}

#[test]
fn changed_settings_are_followed() {
    assert_eq!(
        settings_sync_actions("selected-model"),
        vec![
            SyncAction::SyncSelectedModel,
            SyncAction::UnloadModel,
            SyncAction::RefreshTranscription
        ]
    );
    assert_eq!(settings_sync_actions("custom-words"), vec![SyncAction::RefreshTranscription]);
    assert_eq!(
        settings_sync_actions("selected-language"),
        vec![SyncAction::SetLanguage, SyncAction::RefreshTranscription]
    );
    assert_eq!(settings_sync_actions("debug-mode"), vec![SyncAction::SetLogLevel]);
    assert!(settings_sync_actions("sound-theme").is_empty());
}

#[test]
fn texts_are_typed_or_pasted() {
    assert_eq!(output_plan(PasteMethod::Direct), OutputPlan::Type);
    assert_eq!(output_plan(PasteMethod::ShiftInsert), OutputPlan::Paste);
    assert_eq!(output_plan(PasteMethod::Nothing), OutputPlan::Skip);
    assert_eq!(typing_backend(TypingTool::Auto, true, true), TypingBackend::Wtype);
    assert_eq!(typing_backend(TypingTool::Auto, false, true), TypingBackend::Ydotool);
    assert_eq!(typing_backend(TypingTool::Auto, false, false), TypingBackend::Keyboard);
    assert_eq!(typing_backend(TypingTool::Dotool, true, true), TypingBackend::Dotool);
    assert_eq!(
        type_text_command(TypingBackend::Xdotool, "hi").unwrap(),
        strings(&["xdotool", "type", "--clearmodifiers", "hi"])
    );
    assert_eq!(type_text_command(TypingBackend::Wtype, "hi").unwrap(), strings(&["wtype", "hi"]));
    assert!(type_text_command(TypingBackend::Keyboard, "hi").is_none());
    assert_eq!(tool_result("wtype", false, "no").unwrap_err(), "wtype failed: no");
    assert!(tool_result("wtype", true, "no").is_ok());
    assert_eq!(
        paste_key_combo(PasteMethod::CtrlV).unwrap(),
        vec![
            (PasteKey::Control, KeyAction::Press),
            (PasteKey::V, KeyAction::Click),
            (PasteKey::Control, KeyAction::Release)
        ]
    );
    assert!(paste_key_combo(PasteMethod::Direct).is_none());
    assert_eq!(
        press_auto_submit_key(AutoSubmitKey::Enter),
        vec![(PasteKey::Return, KeyAction::Click)]
    );
    for method in [PasteMethod::CtrlV, PasteMethod::ShiftInsert, PasteMethod::CtrlShiftV] {
        let strokes = paste_key_combo(method).unwrap();
        let presses = strokes.iter().filter(|s| s.1 == KeyAction::Press).count();
        let releases = strokes.iter().filter(|s| s.1 == KeyAction::Release).count();
        assert_eq!(presses, releases);
    }
    assert_eq!(wait_after_paste_ms(ClipboardHandling::DontModify), 100);
    assert_eq!(wait_after_paste_ms(ClipboardHandling::CopyToClipboard), 0);
    let tools =
        InstalledTools { wtype: true, kwtype: false, dotool: true, ydotool: false, xdotool: true };
    assert_eq!(get_available_typing_tools(tools), strings(&["auto", "wtype", "dotool", "xdotool"]));
}

#[test]
fn bindings_are_accepted() {
    init_shortcuts();
    assert!(change_binding("a", "b").is_ok());
    assert!(reset_binding("a").is_ok());
    suspend_binding("a");
    resume_binding("a");
    unregister_cancel_shortcut();
}

fn llm_settings() -> PostProcessSettings {
    let pair = |a: &str, b: &str| (a.to_string(), b.to_string());
    PostProcessSettings {
        enabled: true,
        provider_id: "openai".to_string(),
        api_keys: vec![pair("openai", "k")],
        models: vec![pair("openai", "m")],
        base_urls: Vec::new(),
        prompts: vec![
            LLMPrompt {
                id: "a".to_string(),
                name: "A".to_string(),
                prompt: "Fix: ${output}!".to_string(),
            },
            LLMPrompt { id: "b".to_string(), name: "B".to_string(), prompt: "plain".to_string() },
        ],
        selected_prompt_id: None,
    }
}

#[test]
fn a_text_is_post_processed_where_all_is_there() {
    let mut s = llm_settings();
    let request = build_post_process_request(&s, "hello").unwrap();
    assert_eq!(request.prompt_text, "Fix: hello!");
    assert_eq!(request.api_key, "k");
    assert_eq!(request.model, "m");
    assert_eq!(request.provider.base_url, "https://api.openai.com/v1");
    assert!(!request.provider.allow_base_url_edit);
    assert_eq!(plan_call(&s), Some(("k".to_string(), "m".to_string())));
    assert_eq!(post_process_transcription(&s, true, "x"), Some("Fix: x!".to_string()));
    assert_eq!(post_process_transcription(&s, false, "x"), None);
    s.selected_prompt_id = Some("b".to_string());
    assert_eq!(build_post_process_request(&s, "hello").unwrap().prompt_text, "plain");
    s.selected_prompt_id = Some("gone".to_string());
    assert!(build_post_process_request(&s, "hello").is_none());
    s.selected_prompt_id = None;
    s.models = vec![("openai".to_string(), String::new())];
    assert!(build_post_process_request(&s, "hello").is_none());
    assert!(plan_call(&s).is_none());
    assert!(post_process_transcription(&s, true, "x").is_some());
    s.api_keys = Vec::new();
    assert!(post_process_transcription(&s, true, "x").is_none());
    let mut off = llm_settings();
    off.enabled = false;
    assert!(build_post_process_request(&off, "hello").is_none());
}

#[test]
fn requests_go_to_the_provider() {
    let urls = vec![("custom".to_string(), "http://h/v1//".to_string())];
    let custom = get_provider("custom", &urls);
    assert!(custom.allow_base_url_edit);
    assert_eq!(chat_url(&custom), "http://h/v1/chat/completions");
    assert_eq!(models_url(&custom), "http://h/v1/models");
    let anthropic = get_provider("anthropic", &urls);
    assert_eq!(chat_url(&anthropic), "https://api.anthropic.com/v1/messages");
    assert_eq!(get_provider("other", &urls).base_url, "http://localhost:11434/v1");
    let body: serde_json::Value = serde_json::from_str(&messages_body("m", "p\"q")).unwrap();
    assert_eq!(body["model"].as_str(), Some("m"));
    assert_eq!(body["max_tokens"].as_u64(), Some(4096));
    assert_eq!(body["messages"].as_array().unwrap().len(), 1);
    assert_eq!(body["messages"][0]["role"].as_str(), Some("user"));
    assert_eq!(body["messages"][0]["content"].as_str(), Some("p\"q"));
    let chat = chat_request("m", "p".to_string());
    assert_eq!(chat.messages.len(), 1);
    assert_eq!(chat.messages[0].role, "user");
    assert_eq!(request_refused("401 Unauthorized", "no"), "API request failed with status 401 Unauthorized: no");
    assert_eq!(model_list_refused("500", "x"), "Model list request failed (500): x");
}

#[test]
fn keys_must_fit_in_a_header() {
    let plain = build_headers("openai", "").unwrap();
    assert_eq!(plain.len(), 4);
    assert_eq!(plain[0], ("content-type".to_string(), "application/json".to_string()));
    let bearer = build_headers("openai", "k").unwrap();
    assert_eq!(bearer[4], ("authorization".to_string(), "Bearer k".to_string()));
    let anthropic = build_headers("anthropic", "k").unwrap();
    assert_eq!(anthropic[4], ("x-api-key".to_string(), "k".to_string()));
    assert_eq!(anthropic[5], ("anthropic-version".to_string(), "2023-06-01".to_string()));
    assert_eq!(
        build_headers("openai", "a\nb").unwrap_err(),
        "Invalid authorization header value: failed to parse header value"
    );
    assert_eq!(
        build_headers("anthropic", "a\u{7f}").unwrap_err(),
        "Invalid API key header value: failed to parse header value"
    );
    assert!(build_headers("openai", "a\tb\u{e9}").is_ok());
}

#[test]
fn answers_are_read() {
    assert_eq!(
        messages_reply("{\"content\":[{\"text\":\"hi\"},{\"text\":\"no\"}]}"),
        Ok(Some("hi".to_string()))
    );
    assert_eq!(messages_reply("{\"content\":[]}"), Ok(None));
    assert_eq!(messages_reply("{\"content\":{\"0\":{\"text\":\"hi\"}}}"), Ok(None));
    assert_eq!(
        messages_reply("nonsense").unwrap_err(),
        "Failed to parse API response: error decoding response body"
    );
    assert_eq!(chat_reply(&vec![Some("a".to_string()), None]), Some("a".to_string()));
    assert_eq!(chat_reply(&vec![None, Some("a".to_string())]), None);
    assert_eq!(chat_reply(&Vec::new()), None);
    assert_eq!(
        models_from_answer("{\"data\":[{\"id\":\"a\"},{\"name\":\"b\"},{\"x\":1},{\"id\":\"c\"}]}"),
        Ok(strings(&["a", "b", "c"]))
    );
    assert_eq!(models_from_answer("[\"a\",1,\"b\"]"), Ok(strings(&["a", "b"])));
    assert_eq!(models_from_answer("{\"models\":[]}"), Ok(Vec::new()));
    assert_eq!(
        models_from_answer("").unwrap_err(),
        "Failed to parse response: error decoding response body"
    );
}

#[test]
fn transcriptions_are_handed_out() {
    assert_eq!(transcribed_text(None, "en").unwrap_err(), "No samples retrieved");
    assert_eq!(
        transcribed_text(Some(Err("x".to_string())), "en").unwrap_err(),
        "Transcription failed: x"
    );
    assert_eq!(transcribed_text(Some(Ok("汉".to_string())), "zh-Hant").unwrap(), "漢");
    let r = transcription_result("a".to_string(), Some("b".to_string()));
    assert_eq!((r.text.as_str(), r.post_processed.as_deref()), ("a", Some("b")));
}

#[test]
fn the_plain_service_records_and_answers() {
    let mut s = HandyState::new();
    assert_eq!(s.start_recording(false).unwrap_err(), "Failed to start recording");
    assert_eq!(s.get_state(true), (false, true));
    assert!(s.start_recording(true).is_ok());
    assert_eq!(s.get_state(false), (true, false));
    assert_eq!(s.stop_recording(Some(Ok("hi".to_string())), "en").unwrap(), "hi");
    assert_eq!(s.get_state(true), (false, true));
    assert_eq!(s.stop_recording(None, "en").unwrap(), "");
    assert_eq!(
        s.stop_recording(Some(Err("x".to_string())), "en").unwrap_err(),
        "Transcription failed: x"
    );
    let _ = s.start_recording(true);
    s.cancel_recording();
    assert_eq!(s.get_state(true), (false, true));
    assert!(mutes_after_start(false, true));
    assert!(!mutes_after_start(true, true));
    assert!(unload_due(ModelUnloadTimeout::Sec5, 0, 5_001, true));
    assert!(!unload_due(ModelUnloadTimeout::Sec5, 0, 5_000, true));
    assert!(!unload_due(ModelUnloadTimeout::Immediately, 0, 5_001, true));
    assert!(!unload_due(ModelUnloadTimeout::Sec5, 0, 5_001, false));
    assert_eq!(check_model("m", None, true).unwrap_err(), "Model not found: m");
    assert_eq!(check_model("m", Some(false), true).unwrap_err(), "Model not downloaded");
    assert_eq!(check_model("m", Some(true), false).unwrap_err(), "Model path not found");
    assert!(check_model("m", Some(true), true).is_ok());
    assert!(load_begins(false, false));
    assert!(!load_begins(true, false));
}

#[test]
fn diagnostics_are_shown_as_reported() {
    let mut h = ToggleRuntimeHealth::default();
    h.mark_health_success("Listening", 10_000);
    h.mark_toggle_state("idle");
    h.mark_shortcut_description("Ctrl+A");
    let payload = toggle_diagnostics_verbose_json_at(Some(&h), None, 12_000);
    let stats = Some("{\"queue_len\":2,\"oldest_age_ms\":3500}".to_string());
    let subtitle = toggle_diagnostics_subtitle_at(&payload, &stats, 12_000);
    assert!(subtitle.starts_with("Healthy | state=idle shortcut='Ctrl+A' | listener="));
    assert!(subtitle.contains("| focused_engine_id=0 | switch=ok (0 ms) |"));
    assert!(subtitle.ends_with("pending_commit=2 queued (oldest 3s) | last ok 2s ago"));
    let summary = toggle_diagnostics_summary(&payload, &None).unwrap();
    assert!(summary.starts_with("healthy=true code=ok message=Listening state=idle"));
    assert!(summary.contains(" pending_queue_len=0 pending_oldest_age_ms=0 "));
    h.mark_health_error("evdev_session_error", "gone");
    h.mark_dbus_error("GetState", "no answer", 11_000);
    let payload = toggle_diagnostics_verbose_json_at(Some(&h), None, 12_000);
    let subtitle = toggle_diagnostics_subtitle_at(&payload, &None, 12_000);
    assert!(subtitle.starts_with("Unhealthy (evdev_session_error) | gone | state=idle | start_fail=none"));
    assert!(subtitle.contains("(1s ago)"));
    assert!(toggle_diagnostics_subtitle_at("{", &None, 1)
        .starts_with("Unavailable: invalid diagnostics JSON ("));
    assert!(toggle_diagnostics_summary("{", &None)
        .unwrap_err()
        .starts_with("Invalid TOGGLE diagnostics JSON: "));
    assert!(toggle_diagnostics_summary("{}", &None).unwrap().starts_with("healthy=false code=unknown"));
}

#[test]
fn brief_diagnostics_are_shown() {
    let mut d = BriefDiagnostics {
        healthy: true,
        code: "ok".to_string(),
        message: "m".to_string(),
        last_success_ms: 0,
        listener_session_ok: true,
        shortcut_bound: false,
        bind_fail_count: 1,
        press_while_dikt_count: 2,
        stop_timeout_fallback_count: 3,
    };
    assert_eq!(brief_subtitle_at(&d, 5), "Healthy | listener=true shortcut=false | last ok unknown");
    d.last_success_ms = 1_000;
    assert_eq!(
        brief_subtitle_at(&d, 4_200),
        "Healthy | listener=true shortcut=false | last ok 3s ago"
    );
    d.healthy = false;
    assert_eq!(
        brief_subtitle_at(&d, 5),
        "Unhealthy (ok) | m | bind_failures=1 press_while_dikt=2 stop_timeouts=3"
    );
}

#[test]
fn the_debug_page_records_one_thing_at_a_time() {
    let mut r = DebugRecorder::new();
    assert_eq!(r.controls(), (true, false));
    assert!(r.begin_request());
    assert!(!r.begin_request());
    assert_eq!(r.controls(), (false, false));
    let claim = SessionClaim { session_id: 4, claim_token: "t".to_string() };
    assert_eq!(r.start_over(Ok(claim)), "Recording...");
    assert_eq!(r.controls(), (false, true));
    assert_eq!(r.session_to_cancel(), Some(4));
    assert_eq!(r.session_to_stop().unwrap().session_id, 4);
    assert!(r.begin_request());
    assert_eq!(
        r.stop_over(Ok("  ".to_string())),
        (Some("No speech detected.".to_string()), "Idle".to_string())
    );
    assert_eq!(r.controls(), (true, false));
    assert_eq!(r.session_to_stop().err().unwrap(), "No active session for stop");
    assert_eq!(r.start_over(Err("x".to_string())), "Error: x");
    assert_eq!(r.stop_over(Err("y".to_string())), (None, "Error: y".to_string()));
    assert_eq!(r.start_lost(), "Error: start worker disconnected");
    assert_eq!(r.stop_lost(), "Error: stop worker disconnected");
    assert_eq!(r.found_state(Ok(true)), Some("Recording...".to_string()));
    assert_eq!(r.session_to_cancel(), None);
    assert_eq!(r.found_state(Ok(false)), None);
    assert_eq!(
        r.found_state(Err("z".to_string())),
        Some("Status unavailable: z".to_string())
    );
}

#[test]
fn a_text_is_waited_for() {
    assert!(matches!(finalize_step("ready", "", 0), FinalizeStep::Fetch));
    assert!(matches!(finalize_step("committed", "", 99_999), FinalizeStep::Fetch));
    assert!(matches!(finalize_step("finalizing", "", 35_000), FinalizeStep::Wait));
    match finalize_step("finalizing", "m", 35_001) {
        FinalizeStep::Failed(e) => assert_eq!(
            e,
            "Timed out waiting for finalization (last status='finalizing' message='m')"
        ),
        _ => panic!("the time is over"),
    }
    match finalize_step("cancelled", "m", 0) {
        FinalizeStep::Failed(e) => assert_eq!(e, "Session cancelled: m"),
        _ => panic!("the session is over"),
    }
    assert!(stop_acknowledged(true).is_ok());
    assert_eq!(stop_acknowledged(false).unwrap_err(), "StopRecordingSession returned false");
    assert_eq!(fetched_text(false, "x".to_string()), "");
    assert_eq!(fetched_text(true, "x".to_string()), "x");
}

#[test]
fn the_debug_page_shows_everything() {
    let page = render_debug_text(
        &strings(&["u1", "u2"]),
        &Err("down".to_string()),
        &Ok("fine".to_string()),
        &Ok(Vec::new()),
    );
    assert_eq!(
        page,
        "=== Shortcut Diagnostics ===\n[toggle] fine\n\n=== Shortcut Recent Events ===\n[toggle-events] <no events yet>\n\n=== UI Process Logs ===\n[ui] u1\n[ui] u2\n\n=== Daemon Process Logs ===\n[daemon] unavailable: down\n"
    );
    assert_eq!(keep_last_lines(&strings(&["a", "b", "c"]), 2), strings(&["b", "c"]));
    assert_eq!(keep_last_lines(&strings(&["a"]), 2), strings(&["a"]));
}

#[test]
fn a_shortcut_is_chosen() {
    let none = HeldModifiers { ctrl: false, alt: false, shift: false, super_key: false };
    let ctrl = HeldModifiers { ctrl: true, ..none };
    let key = |held: HeldModifiers, is_escape: bool, valid: bool| CapturedKey {
        is_escape,
        lower_keyval: 97,
        held,
        valid,
    };
    let mut c = ShortcutCapture::new();
    assert_eq!(c.key_pressed(key(ctrl, false, true)), Capture::Ignored);
    c.begin();
    assert_eq!(c.key_pressed(key(none, false, true)), Capture::Invalid);
    assert_eq!(c.key_pressed(key(ctrl, false, false)), Capture::Invalid);
    assert_eq!(
        c.key_pressed(key(ctrl, false, true)),
        Capture::Chosen { keyval: 97, modifiers: 4 }
    );
    assert_eq!(c.key_pressed(key(ctrl, false, true)), Capture::Ignored);
    c.begin();
    assert_eq!(c.key_pressed(key(ctrl, true, true)), Capture::Cancelled);
    for bits in 0..16u32 {
        let m = HeldModifiers {
            ctrl: bits & 1 != 0,
            alt: bits & 2 != 0,
            shift: bits & 4 != 0,
            super_key: bits & 8 != 0,
        };
        assert_eq!(ibus_to_gdk_modifiers(gdk_to_ibus_modifiers(m)), m);
    }
    assert_eq!(shortcut_label(""), "Unknown shortcut");
    assert_eq!(shortcut_label("Ctrl+A"), "Ctrl+A");
}

#[test]
fn choices_are_found_again() {
    let choices = language_choices();
    assert_eq!(choices.len(), 13);
    assert_eq!(choices[selected_language_index("zh-Hant") as usize].1, "Chinese (Traditional)");
    assert_eq!(selected_language_index("xx"), 0);
    for i in 0..8 {
        assert_eq!(timeout_index(timeout_at(i).unwrap()) as usize, i);
    }
    assert!(timeout_at(8).is_none());
    assert_eq!(timeout_name(ModelUnloadTimeout::Min15), "15 minutes");
}

fn model(name: &str, recommended: bool, downloaded: bool) -> ModelInfo {
    let mut m = offered_catalog().remove(0);
    m.name = name.to_string();
    m.is_recommended = recommended;
    m.is_downloaded = downloaded;
    m
}

#[test]
fn models_stand_in_order() {
    let models = vec![
        model("b", false, false),
        model("a", false, false),
        model("z", false, true),
        model("y", true, false),
        model("a", false, false),
    ];
    let sorted = sorted_models(&models);
    let names: Vec<&str> = sorted.iter().map(|m| m.name.as_str()).collect();
    assert_eq!(names, vec!["y", "z", "a", "a", "b"]);
    for (a, b) in [("a", "b"), ("", "a"), ("Z", "a"), ("ab", "abc"), ("é", "z"), ("x", "x")] {
        assert_eq!(is_before(a, b), a < b);
        assert_eq!(is_before(b, a), b < a);
    }
}

#[test]
fn rows_offer_what_can_be_done() {
    let mut m = model("a", false, false);
    assert_eq!(
        row_controls(&Some(ModelState::Available), &Some(m.copy()), false),
        RowControls::Download
    );
    assert_eq!(row_controls(&None, &None, false), RowControls::Plain);
    assert_eq!(
        row_controls(&Some(ModelState::Ready), &Some(m.copy()), true),
        RowControls::Active { can_delete: true }
    );
    m.is_custom = true;
    assert_eq!(
        row_controls(&Some(ModelState::Ready), &Some(m.copy()), false),
        RowControls::Select { can_delete: false }
    );
    let failed = ModelState::Error { message: "x".to_string(), retryable: true };
    assert_eq!(row_controls(&Some(failed), &Some(m), false), RowControls::Failed { can_retry: true });
    let running =
        ModelState::Downloading { bytes_downloaded: 1, bytes_total: 4, cancel_flag: false };
    assert_eq!(
        row_controls(&Some(running), &None, false),
        RowControls::Progress { bytes_downloaded: 1, bytes_total: 4 }
    );
}

#[test]
fn pages_have_names() {
    assert_eq!(page_subtitle(Some("models")), "Models");
    assert_eq!(page_subtitle(Some("x")), "General");
    assert_eq!(page_subtitle(None), "General");
    for name in ["sidebar::general", "a::b::c", "plain", "a:::b", "::", ""] {
        assert_eq!(page_of_row(name), name.split("::").last().unwrap());
    }
}

#[test]
fn logs_are_kept_and_read() {
    let mut b = LogBuffer::new(3);
    for line in ["a", "b", "c", "d"] {
        b.push(line.to_string());
    }
    assert_eq!(read_recent_logs(Some(&b), 10), strings(&["b", "c", "d"]));
    assert_eq!(read_recent_logs(Some(&b), 2), strings(&["c", "d"]));
    assert_eq!(read_recent_logs(None, 2), strings(&["[ERROR] Failed to read log buffer"]));
    assert_eq!(join(&strings(&["a", "b"]), " | "), "a | b");
    assert_eq!(
        launch_failure(&strings(&["x: no"])),
        "Unable to launch Handy UI. Attempted: x: no"
    );
}

fn sorted(mut pairs: Vec<(String, String)>) -> Vec<(String, String)> {
    pairs.sort();
    pairs
}

#[test]
fn stored_texts_are_read_by_key() {
    let pair = |a: &str, b: &str| (a.to_string(), b.to_string());
    assert_eq!(
        sorted(stored_pairs("{\"openai\":\"k\",\"groq\":\"\\u0041\"}")),
        vec![pair("groq", "A"), pair("openai", "k")]
    );
    assert_eq!(stored_pairs("{\"a\":\"1\",\"a\":\"2\"}"), vec![pair("a", "2")]);
    for text in ["", "nonsense", "[]", "null", "{\"a\":\"1\",\"b\":2}", "{\"a\":\"1\",\"b\":null}"] {
        assert!(stored_pairs(text).is_empty(), "{text}");
    }
}

#[test]
fn texts_by_key_survive_storage() {
    let pair = |a: &str, b: &str| (a.to_string(), b.to_string());
    let pairs = vec![pair("openai", "k\"\\\n"), pair("", "漢"), pair("a/b~c", "")];
    let read = stored_pairs(&pairs_to_store(&pairs));
    assert_eq!(sorted(read.clone()), sorted(pairs.clone()));
    for key in ["openai", "", "a/b~c", "other"] {
        assert_eq!(lookup(&read, key), lookup(&pairs, key));
    }
    assert_eq!(pairs_to_store(&Vec::new()), "{}");
    let twice = vec![pair("a", "1"), pair("a", "2")];
    assert_eq!(stored_pairs(&pairs_to_store(&twice)), vec![pair("a", "2")]);
    let provider = get_provider("custom", &stored_pairs("{\"custom\":\"http://h/v1\"}"));
    assert_eq!(provider.base_url, "http://h/v1");
    assert_eq!(get_provider("groq", &stored_pairs("{\"groq\":1}")).base_url, "https://api.groq.com/openai/v1");
}

#[test]
fn choices_stored_by_name_survive_storage() {
    for policy in
        [InferenceDevicePolicy::Auto, InferenceDevicePolicy::Cpu, InferenceDevicePolicy::Gpu]
    {
        assert_eq!(InferenceDevicePolicy::from_name(policy.as_str()), policy);
    }
    for period in [
        RecordingRetentionPeriod::Never,
        RecordingRetentionPeriod::PreserveLimit,
        RecordingRetentionPeriod::Days3,
        RecordingRetentionPeriod::Weeks2,
        RecordingRetentionPeriod::Months3,
    ] {
        assert_eq!(RecordingRetentionPeriod::from_name(period.as_str()), period);
    }
    assert_eq!(InferenceDevicePolicy::from_name("CPU"), InferenceDevicePolicy::Auto);
    assert_eq!(RecordingRetentionPeriod::from_name("days3"), RecordingRetentionPeriod::Days3);
    assert_eq!(RecordingRetentionPeriod::from_name(""), RecordingRetentionPeriod::PreserveLimit);
}
