use dikt::audio_feedback::{get_sound_path, sound_file_name, SoundType};
use dikt::audio_toolkit::recorder::{
    get_preferred_config, startup_failure_message, ConfigRange, FrameVerdict, JudgedFrame,
    RecorderBuffer, RecorderCommand, RecorderReply, SampleFormat, StartupStage,
};
use dikt::managers::audio::{
    device_position, map_open_failure_to_start_error, pad_short_recording, resolve_vad_model_path,
    set_mute, AudioRecordingManager, MicrophoneMode, RecordingStartError, StreamStart,
};
use dikt::managers::catalog::{
    discover_custom_whisper_models, has_single_root, is_valid_directory_model_layout,
    offered_catalog, plan_moves, plan_repair, EngineType, FoundFile, PathKind, RepairPlan,
};
use dikt::managers::download::{
    archive_file_name, check_existing, find_source, partial_file_name, DownloadSession,
    DownloadStage, ExistingStep, ResponseStep,
};
use dikt::managers::execution::{
    after_cpu_fallback, after_first_attempt, plan_first_attempt, resolve_onnx_execution,
    DeviceConfig, ExecutionProvider, LoadStep, OnnxExecutionDevice, OnnxExecutionParams,
};
use dikt::managers::history::{
    cleanup_plan, entries_to_delete, format_timestamp_title, format_timestamp_title_at,
    recording_file_name, title_from, CleanupPlan, HistoryRow,
};
use dikt::managers::model::{FileStatus, ModelManager, ModelState, ModelStateEvent};
use dikt::managers::transcription::{
    has_model_selected, loadable_model, missing_model_message, transcription_failure,
    whisper_language, TranscriptionConfig, TranscriptionRuntime,
};
use dikt::settings::{
    InferenceDevicePolicy, ModelUnloadTimeout, RecordingRetentionPeriod, SoundTheme,
};

fn strings(v: &[&str]) -> Vec<String> {
    v.iter().map(|s| s.to_string()).collect()
}

#[test]
fn start_errors_have_codes_and_details() {
    let e = RecordingStartError::Busy { active_binding_id: None };
    assert_eq!((e.code(), e.detail().as_str()), ("busy", "Recording already active"));
    let e = map_open_failure_to_start_error("x: No input device found");
    assert_eq!((e.code(), e.detail().as_str()), ("no_input_device", "No input device found"));
    let e = map_open_failure_to_start_error("Silero VAD model not found at /x");
    assert_eq!((e.code(), e.detail().as_str()), ("vad_model_missing", "Silero VAD model is missing"));
    let e = map_open_failure_to_start_error("device busy");
    assert_eq!((e.code(), e.detail().as_str()), ("mic_open_failed", "device busy"));
    let e = RecordingStartError::RecorderUnavailable;
    assert_eq!((e.code(), e.detail().as_str()), ("recorder_unavailable", "Recorder is not available"));
    let e = RecordingStartError::RecorderStartFailed("no".to_string());
    assert_eq!((e.code(), e.detail().as_str()), ("recorder_start_failed", "no"));
}

#[test]
fn short_recordings_are_padded() {
    let padded = pad_short_recording(vec![1i32; 8_000], 0);
    assert_eq!(padded.len(), 20_000);
    assert_eq!(&padded[..8_000], &vec![1i32; 8_000][..]);
    assert!(padded[8_000..].iter().all(|s| *s == 0));
    assert_eq!(pad_short_recording(vec![1i32; 16_000], 0).len(), 16_000);
    assert_eq!(pad_short_recording(Vec::<i32>::new(), 0).len(), 0);
}

#[test]
fn devices_are_found_by_name() {
    assert_eq!(device_position(&strings(&["a", "b", "b"]), "b"), Some(1));
    assert_eq!(device_position(&strings(&["a"]), "b"), None);
    assert!(resolve_vad_model_path(true, true).is_some());
    assert!(resolve_vad_model_path(false, true).is_some());
    assert_ne!(resolve_vad_model_path(true, true), resolve_vad_model_path(false, true));
    assert!(resolve_vad_model_path(false, false).is_none());
}

#[test]
fn muting_tries_one_tool_after_another() {
    assert_eq!(
        set_mute(true, 0).unwrap(),
        strings(&["wpctl", "set-mute", "@DEFAULT_AUDIO_SINK@", "1"])
    );
    assert_eq!(
        set_mute(false, 1).unwrap(),
        strings(&["pactl", "set-sink-mute", "@DEFAULT_SINK@", "0"])
    );
    assert_eq!(set_mute(false, 2).unwrap(), strings(&["amixer", "set", "Master", "unmute"]));
    assert!(set_mute(true, 3).is_none());
}

#[test]
fn a_microphone_records_for_one_binding_at_a_time() {
    let mut m = AudioRecordingManager::new(false, None, true);
    assert_eq!(m.mode(), MicrophoneMode::OnDemand);
    assert_eq!(m.start_microphone_stream(), StreamStart::CreateAndOpen);
    m.recorder_created();
    m.stream_opened();
    assert!(m.try_start_recording("a", Ok(()), Some(Ok(()))).is_ok());
    assert!(m.is_recording());
    assert!(m.is_active_binding("a"));
    assert!(!m.is_active_binding("b"));
    let busy = m.try_start_recording("b", Ok(()), Some(Ok(()))).unwrap_err();
    assert_eq!(busy.detail(), "Recording already active for binding a");
    assert!(m.apply_mute());
    assert!(m.remove_mute());
    assert!(!m.remove_mute());
    assert!(m.stop_recording("b").is_none());
    assert!(m.stop_recording("a").is_some());
    assert!(!m.is_recording());
    assert!(m.cancel_recording().is_none());
}

#[test]
fn what_was_heard_is_what_is_recorded() {
    let mut b: RecorderBuffer<i32> = RecorderBuffer::new();
    let frame = |s: Vec<i32>, verdict: FrameVerdict<i32>| JudgedFrame { samples: s, verdict };
    b.handle_frame(&frame(vec![9], FrameVerdict::Speech(vec![9])));
    assert!(matches!(b.process_cmd(RecorderCommand::Start), RecorderReply::Started));
    b.handle_frame(&frame(vec![1, 2], FrameVerdict::Speech(vec![1, 2])));
    b.handle_frame(&frame(vec![3], FrameVerdict::Noise));
    b.handle_frame(&frame(vec![4], FrameVerdict::Undecided));
    match b.process_cmd(RecorderCommand::SnapshotWindow(2)) {
        RecorderReply::Samples(s) => assert_eq!(s, vec![2, 4]),
        _ => panic!("samples are asked for"),
    }
    let last = vec![frame(vec![5], FrameVerdict::Speech(vec![5]))];
    match b.process_cmd(RecorderCommand::Stop(last)) {
        RecorderReply::Samples(s) => assert_eq!(s, vec![1, 2, 4, 5]),
        _ => panic!("samples are asked for"),
    }
}

#[test]
fn the_best_input_format_is_preferred() {
    let range = |min_rate, max_rate, format| ConfigRange { min_rate, max_rate, format };
    let configs = vec![
        range(8_000, 16_000, SampleFormat::I16),
        range(8_000, 48_000, SampleFormat::F32),
        range(44_100, 48_000, SampleFormat::F32),
    ];
    assert_eq!(get_preferred_config(&configs), Some(1));
    assert_eq!(get_preferred_config(&vec![range(44_100, 48_000, SampleFormat::F32)]), None);
    assert!(startup_failure_message(StartupStage::BuildStream, "no").contains("no"));
}

#[test]
fn offered_models_are_distinct_and_found_files_are_added() {
    let mut models = offered_catalog();
    let n = models.len();
    for i in 0..n {
        for j in 0..i {
            assert_ne!(models[i].id, models[j].id);
        }
    }
    let file = |name: &str| FoundFile { name: name.to_string(), is_file: true, size: 3 << 20 };
    let known = models[0].filename.clone();
    let files = vec![
        file("my-model.bin"),
        file("notes.txt"),
        file(".hidden.bin"),
        file(&known),
        FoundFile { name: "dir.bin".to_string(), is_file: false, size: 0 },
    ];
    discover_custom_whisper_models(&mut models, &files);
    assert_eq!(models.len(), n + 1);
    let custom = &models[n];
    assert_eq!(custom.id, "my-model");
    assert!(custom.is_custom);
    assert!(custom.is_downloaded);
    assert_eq!(custom.size_mb, 3);
    discover_custom_whisper_models(&mut models, &files);
    assert_eq!(models.len(), n + 1);
}

#[test]
fn nested_parakeet_directories_are_repaired() {
    let files = strings(&[
        "encoder-model.int8.onnx",
        "decoder_joint-model.int8.onnx",
        "nemo128.onnx",
        "vocab.txt",
    ]);
    assert!(is_valid_directory_model_layout(EngineType::Parakeet, &files));
    let outer = strings(&["parakeet-tdt-0.6b-v3-int8"]);
    assert!(!is_valid_directory_model_layout(EngineType::Parakeet, &outer));
    assert_eq!(plan_repair(PathKind::Directory, false, 1), RepairPlan::MoveUp);
    assert_eq!(plan_moves(&files, &outer), (4, true));
    assert_eq!(plan_moves(&files, &strings(&["nemo128.onnx"])), (2, false));
    assert_eq!(plan_repair(PathKind::Directory, false, 2), RepairPlan::Invalid);
    assert_eq!(plan_repair(PathKind::Directory, true, 0), RepairPlan::Valid);
    assert_eq!(plan_repair(PathKind::File, false, 0), RepairPlan::RemoveFile);
    assert_eq!(plan_repair(PathKind::Missing, false, 0), RepairPlan::Invalid);
    assert!(has_single_root(1, 0));
    assert!(!has_single_root(1, 1));
    assert!(!has_single_root(2, 0));
}

fn manager() -> ModelManager {
    ModelManager::new(&Vec::new(), String::new())
}

#[test]
fn the_supported_models_are_offered() {
    let m = manager();
    let models = m.get_available_models();
    for name in ["Whisper Small", "Whisper Medium", "Whisper Turbo", "Whisper Large", "Parakeet V3"] {
        assert_eq!(models.iter().filter(|m| m.name == name).count(), 1, "{name}");
    }
    for model in &models {
        assert!(!model.is_downloaded && !model.is_downloading);
        if model.engine_type == EngineType::Whisper {
            assert!(model.supported_languages.len() > 50);
        }
    }
    assert_eq!(m.get_current_model(), "");
}

#[test]
fn whisper_large_is_installed_by_hand() {
    let file = FoundFile { name: "ggml-large-v3.bin".to_string(), is_file: true, size: 1 };
    let m = ModelManager::new(&vec![file], String::new());
    let models = m.get_available_models();
    let large: Vec<_> = models.iter().filter(|m| m.filename == "ggml-large-v3.bin").collect();
    assert_eq!(large.len(), 1);
    assert_eq!(large[0].id, "large");
    assert_eq!(large[0].url, None);
    assert!(!large[0].is_custom);
}

#[test]
fn a_download_runs_its_course() {
    let mut m = manager();
    let id = m.get_available_models()[0].id.clone();
    let source = find_source(&m, &id).unwrap();
    assert_eq!(partial_file_name(&source.filename), format!("{}.partial", source.filename));
    assert_eq!(archive_file_name("x"), "x.tar.gz");
    assert_eq!(find_source(&m, "nope").err().unwrap(), "Model not found: nope");
    assert_eq!(m.get_model_path("/m", &id).unwrap(), format!("/m/{}", source.filename));
    assert!(m.get_model_path("/m", "nope").is_none());

    let (mut d, begun) = DownloadSession::begin(&mut m, &id, 100).unwrap();
    assert_eq!(begun.model_id, id);
    assert!(begun.state.is_downloading());
    assert_eq!(d.range_header().unwrap(), "bytes=100-");
    assert!(d.appends());
    assert!(matches!(d.response_arrived(206, "206 Partial Content"), ResponseStep::Stream));
    let _ = d.chunk_written(&mut m, 50);
    match m.get_model_state(&id).unwrap() {
        ModelState::Downloading { bytes_downloaded, .. } => assert_eq!(bytes_downloaded, 150),
        _ => panic!("the download runs"),
    }
    assert!(d.check_cancelled(&m).is_none());
    let (done, selected) = d.finish(&mut m);
    assert!(done.state.is_ready());
    assert_eq!(selected, Some(id.clone()));
    assert_eq!(m.get_current_model(), id);
    assert!(m.get_model_state(&id).unwrap().is_ready());
}

#[test]
fn a_server_that_ignores_the_range_starts_over() {
    let mut m = manager();
    let id = m.get_available_models()[0].id.clone();
    let (mut d, _) = DownloadSession::begin(&mut m, &id, 100).unwrap();
    assert!(matches!(d.response_arrived(200, "200 OK"), ResponseStep::Restart));
    assert!(!d.appends());
    assert!(d.range_header().is_none());
    match d.response_arrived(404, "404 Not Found") {
        ResponseStep::Refused(event, message) => {
            assert_eq!(message, "Failed to download: HTTP 404 Not Found");
            assert!(matches!(event.state, ModelState::Error { retryable: true, .. }));
        }
        _ => panic!("the answer is an error"),
    }
    assert_eq!(d.failed(DownloadStage::Stream, "eof").1, "Download stream failed: eof");
    assert_eq!(d.failed(DownloadStage::Extract, "bad").1, "bad");
    m.cancel_download(&id);
    assert!(d.check_cancelled(&m).is_some());
}

#[test]
fn what_already_stands_there_is_looked_at() {
    assert_eq!(check_existing(false, false, None), ExistingStep::Download);
    assert_eq!(check_existing(false, true, None), ExistingStep::AlreadyThere);
    assert_eq!(check_existing(true, true, Some(true)), ExistingStep::AlreadyThere);
    assert_eq!(check_existing(true, true, Some(false)), ExistingStep::Discard);
    assert_eq!(check_existing(true, true, None), ExistingStep::Discard);
}

#[test]
fn only_a_usable_model_is_selected() {
    let mut m = manager();
    let models = m.get_available_models();
    assert!(!m.has_any_models_available());
    assert!(!has_model_selected(&m));
    assert!(m.set_active_model("nope").is_err());
    assert!(m.set_active_model(&models[0].id).is_err());
    let mut found: Vec<FileStatus> = Vec::new();
    for i in 0..models.len() {
        found.push(FileStatus { present: i == 1, partial_size: 0 });
    }
    m.update_download_status(&found);
    assert!(m.has_any_models_available());
    assert_eq!(m.auto_select_model_if_needed(), Some(models[1].id.clone()));
    assert!(has_model_selected(&m));
    assert!(m.set_active_model(&models[1].id).is_ok());
    assert_eq!(loadable_model(&m, &models[1].id).unwrap().id, models[1].id);
    assert_eq!(loadable_model(&m, &models[0].id).err().unwrap(), "Model not downloaded");
    assert_eq!(missing_model_message("x"), "Model not found or not downloaded: x");
}

#[test]
fn models_run_where_the_policy_says() {
    let gpu = OnnxExecutionParams::gpu(2);
    let on_gpu = resolve_onnx_execution(&gpu, true);
    assert_eq!(on_gpu.providers[0], ExecutionProvider::Cuda(2));
    assert_eq!(on_gpu.reason, "GPU mode requested, using CUDA device 2");
    let on_cpu = resolve_onnx_execution(&gpu, false);
    assert_eq!(on_cpu.providers, vec![ExecutionProvider::Cpu]);
    assert_eq!(on_cpu.effective_device, OnnxExecutionDevice::Cpu);
    assert_eq!(
        resolve_onnx_execution(&OnnxExecutionParams::auto(), false).reason,
        "CUDA provider unavailable, falling back to CPU"
    );
    assert_eq!(
        resolve_onnx_execution(&OnnxExecutionParams::cpu(), true).reason,
        "CPU mode requested"
    );

    let config = |policy| DeviceConfig { inference_device_policy: policy, inference_gpu_device_id: 1 };
    assert_eq!(
        plan_first_attempt(EngineType::Parakeet, &config(InferenceDevicePolicy::Gpu), false)
            .unwrap_err(),
        "GPU mode requested but ONNX Runtime CUDA provider is unavailable"
    );
    let auto = config(InferenceDevicePolicy::Auto);
    let first = plan_first_attempt(EngineType::Parakeet, &auto, true).unwrap();
    assert_eq!(first.device, OnnxExecutionDevice::Gpu);
    match after_first_attempt(EngineType::Parakeet, &auto, true, "m", Err("oom".to_string()), 5) {
        LoadStep::RetryOnCpu(params, error) => {
            assert_eq!(params.device, OnnxExecutionDevice::Cpu);
            let status = after_cpu_fallback(&auto, true, "m", error, Ok(()), 6).unwrap();
            assert!(status.fallback_used);
            assert_eq!(status.last_error, Some("oom".to_string()));
        }
        _ => panic!("the processor is tried"),
    }
    assert_eq!(
        after_cpu_fallback(&auto, true, "m", "a".to_string(), Err("b".to_string()), 6)
            .err()
            .unwrap(),
        "Auto inference initialization failed. GPU attempt: a; CPU fallback attempt: b"
    );
    match after_first_attempt(EngineType::Whisper, &auto, true, "m", Err("x".to_string()), 5) {
        LoadStep::Failed(e) => assert_eq!(e, "x"),
        _ => panic!("there is no second attempt"),
    }
}

#[test]
fn saved_entries_outlive_the_cleanup() {
    let row = |id: i64, timestamp: i64, saved: bool| HistoryRow {
        id,
        file_name: format!("f{}", id),
        timestamp,
        saved,
    };
    let rows = vec![row(5, 500, false), row(4, 400, true), row(3, 300, false), row(2, 200, false)];
    assert_eq!(
        entries_to_delete(&rows, CleanupPlan::KeepNewest(1)),
        vec![(3, "f3".to_string()), (2, "f2".to_string())]
    );
    assert_eq!(
        entries_to_delete(&rows, CleanupPlan::KeepSince(350)),
        vec![(3, "f3".to_string()), (2, "f2".to_string())]
    );
    assert!(entries_to_delete(&rows, CleanupPlan::Nothing).is_empty());
    assert_eq!(cleanup_plan(RecordingRetentionPeriod::Never, 5, 0), CleanupPlan::Nothing);
    assert_eq!(
        cleanup_plan(RecordingRetentionPeriod::PreserveLimit, 5, 0),
        CleanupPlan::KeepNewest(5)
    );
    assert_eq!(
        cleanup_plan(RecordingRetentionPeriod::Days3, 5, 1_000_000),
        CleanupPlan::KeepSince(1_000_000 - 3 * 24 * 60 * 60)
    );
}

#[test]
fn recordings_are_named_by_their_time() {
    assert_eq!(recording_file_name(1_700_000_000), "handy-1700000000.wav");
    assert_eq!(format_timestamp_title(0), "1970-01-01 00:00:00");
    assert_eq!(format_timestamp_title(1_700_000_000), "2023-11-14 22:13:20");
    assert_eq!(title_from(None, Some("now".to_string())), "now");
    assert_eq!(title_from(None, None), "");
    assert_eq!(format_timestamp_title(i64::MAX).len(), "2023-11-14 22:13:20".len());
    let now_ms = 1_700_000_000_999;
    assert_eq!(format_timestamp_title_at(0, now_ms), "1970-01-01 00:00:00");
    assert_eq!(format_timestamp_title_at(i64::MAX, now_ms), "2023-11-14 22:13:20");
    assert_eq!(format_timestamp_title_at(i64::MIN, u64::MAX), "");
}

fn config(timeout: ModelUnloadTimeout) -> TranscriptionConfig {
    TranscriptionConfig {
        model_unload_timeout: timeout,
        selected_language: "auto".to_string(),
        translate_to_english: false,
        custom_words: Vec::new(),
        device: DeviceConfig {
            inference_device_policy: InferenceDevicePolicy::Cpu,
            inference_gpu_device_id: 0,
        },
    }
}

#[test]
fn a_model_is_loaded_once_and_unloaded_when_idle() {
    let mut t = TranscriptionRuntime::new(config(ModelUnloadTimeout::Min2), false, 0);
    assert!(!t.is_model_loaded());
    assert!(t.begin_transcription(10));
    assert!(!t.initiate_model_load("", false, 10));
    assert!(t.initiate_model_load("m", false, 10));
    assert!(t.is_loading());
    assert!(!t.initiate_model_load("m", false, 11));
    let plan = after_first_attempt(EngineType::Whisper, &t.config().device, false, "m", Ok(()), 12);
    let status = match plan {
        LoadStep::Loaded(status) => status,
        _ => panic!("the model is loaded"),
    };
    assert!(t.load_model_over("m", Ok(status), 12).is_ok());
    assert!(t.is_model_loaded());
    assert!(t.check_engine("m").is_ok());
    let json: serde_json::Value = serde_json::from_str(&t.inference_runtime_status_json()).unwrap();
    assert_eq!(json["policy"].as_str(), Some("cpu"));
    assert_eq!(json["model_id"].as_str(), Some("m"));
    assert_eq!(json["requested_gpu_device_id"].as_i64(), Some(0));
    assert!(json["last_error"].is_null());
    assert!(!t.maybe_unload_immediately(13));
    assert!(!t.unload_if_idle(100_000));
    assert!(t.unload_if_idle(200_000));
    assert!(!t.is_model_loaded());
}

#[test]
fn a_failed_load_is_remembered_for_a_while() {
    let mut t = TranscriptionRuntime::new(config(ModelUnloadTimeout::Immediately), false, 0);
    assert!(t.initiate_model_load("m", false, 10));
    t.load_failed("m", "broken".to_string(), None, 20);
    assert!(t.should_throttle_load_attempt("m", 21));
    assert!(!t.should_throttle_load_attempt("other", 21));
    assert_eq!(
        t.check_engine("m").unwrap_err(),
        "No engine loaded: failed to load model m: broken"
    );
    assert_eq!(t.check_engine("other").unwrap_err(), "No engine loaded");
    assert_eq!(whisper_language("auto"), None);
    assert_eq!(whisper_language("de"), Some("de".to_string()));
    assert_eq!(
        transcription_failure(EngineType::SenseVoice, "x"),
        "SenseVoice transcription failed: x"
    );
}

#[test]
fn sounds_lie_where_they_belong() {
    assert_eq!(sound_file_name(SoundTheme::Pop, SoundType::Start), "pop_start.wav");
    assert_eq!(
        get_sound_path(SoundTheme::Marimba, SoundType::Stop, None, true),
        "/usr/share/dikt/sounds/marimba_stop.wav"
    );
    assert_eq!(
        get_sound_path(SoundTheme::Marimba, SoundType::Stop, None, false),
        "resources/marimba_stop.wav"
    );
    assert_eq!(
        get_sound_path(SoundTheme::Custom, SoundType::Start, Some("/d".to_string()), false),
        "/d/dikt/sounds/custom_start.wav"
    );
}

#[test]
fn progress_tells_of_a_cancelled_download() {
    let mut m = manager();
    let (mut d, _) = DownloadSession::begin(&mut m, "small", 0).unwrap();
    assert!(matches!(d.response_arrived(200, "200 OK"), ResponseStep::Stream));
    let flag = |event: Option<ModelStateEvent>| match event.unwrap().state {
        ModelState::Downloading { cancel_flag, .. } => cancel_flag,
        _ => panic!("the download runs"),
    };
    assert!(!flag(d.chunk_written(&mut m, 1 << 20)));
    m.cancel_download("small");
    assert!(flag(d.chunk_written(&mut m, 1 << 20)));
    assert!(d.check_cancelled(&m).is_some());
}
