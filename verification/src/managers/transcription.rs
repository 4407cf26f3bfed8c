//! The transcription engine: which model is loaded, when it is loaded and when it goes.
//!
//! The engine itself belongs to the caller; this keeps track of it.

use super::catalog::{EngineType, ModelInfo};
use super::execution;
use super::execution::{
    effective_gpu_id, requested_device_from_policy, DeviceConfig, InferenceRuntimeStatus,
    RuntimeStatusView,
};
use super::model;
use super::model::{ManagerView, ModelManager};
use crate::counter;
use crate::json;
use crate::json::{json_field, write_object, JsonField, JsonValue, JsonView};
use crate::settings;
use crate::settings::ModelUnloadTimeout;
use crate::text;
use crate::text::{concat2, copy_list, copy_opt, same_text};
use vstd::prelude::*;
use vstd::string::*;

verus! {

/// How long a model that could not be loaded is not tried again, in milliseconds.
pub const LOAD_RETRY_COOLDOWN_MS: u64 = 3000;

/// What the settings say about transcription.
pub struct TranscriptionConfig {
    pub model_unload_timeout: ModelUnloadTimeout,
    pub selected_language: String,
    pub translate_to_english: bool,
    pub custom_words: Vec<String>,
    pub device: DeviceConfig,
}

/// What a `TranscriptionConfig` holds.
pub struct ConfigView {
    pub model_unload_timeout: ModelUnloadTimeout,
    pub selected_language: Seq<char>,
    pub translate_to_english: bool,
    pub custom_words: Seq<Seq<char>>,
    pub device: DeviceConfig,
}

impl View for TranscriptionConfig {
    type V = ConfigView;

    open spec fn view(&self) -> ConfigView {
        ConfigView {
            model_unload_timeout: self.model_unload_timeout,
            selected_language: self.selected_language@,
            translate_to_english: self.translate_to_english,
            custom_words: text::views(self.custom_words@),
            device: self.device,
        }
    }
}

impl TranscriptionConfig {
    /// A copy.
    pub fn copy(&self) -> (c: Self)
        ensures
            c@ == self@,
    {
        TranscriptionConfig {
            model_unload_timeout: self.model_unload_timeout,
            selected_language: self.selected_language.clone(),
            translate_to_english: self.translate_to_english,
            custom_words: copy_list(&self.custom_words),
            device: self.device,
        }
    }
}

/// A model that could not be loaded.
pub struct ModelLoadFailure {
    pub model_id: String,
    pub message: String,
    pub at_ms: u64,
}

/// What a `ModelLoadFailure` holds.
pub struct FailureView {
    pub model_id: Seq<char>,
    pub message: Seq<char>,
    pub at_ms: u64,
}

pub open spec fn failure_view(f: Option<ModelLoadFailure>) -> Option<FailureView> {
    match f {
        Some(f) => Some(
            FailureView { model_id: f.model_id@, message: f.message@, at_ms: f.at_ms },
        ),
        None => None,
    }
}

/// What is known of the engine.
pub struct EngineView {
    pub loaded: bool,
    pub config: ConfigView,
    pub model: Option<Seq<char>>,
    pub status: RuntimeStatusView,
    pub last_activity: u64,
    pub loading: bool,
    pub failure: Option<FailureView>,
}

/// The engine's book-keeping.
pub struct TranscriptionRuntime {
    engine_loaded: bool,
    config: TranscriptionConfig,
    current_model_id: Option<String>,
    inference_runtime_status: InferenceRuntimeStatus,
    last_activity: u64,
    is_loading: bool,
    last_load_failure: Option<ModelLoadFailure>,
}

impl View for TranscriptionRuntime {
    type V = EngineView;

    closed spec fn view(&self) -> EngineView {
        EngineView {
            loaded: self.engine_loaded,
            config: self.config@,
            model: text::opt_view(self.current_model_id),
            status: self.inference_runtime_status@,
            last_activity: self.last_activity,
            loading: self.is_loading,
            failure: failure_view(self.last_load_failure),
        }
    }
}

/// The engine without a model, and why.
pub open spec fn unloaded(e: EngineView, reason: Seq<char>, now_ms: u64) -> EngineView {
    EngineView {
        loaded: false,
        model: None,
        status: RuntimeStatusView { model_id: None, reason, updated_ms: now_ms, ..e.status },
        ..e
    }
}

/// The model has not been used for longer than the settings allow.
pub open spec fn idle_too_long(e: EngineView, now_ms: u64) -> bool {
    settings::unload_seconds(e.config.model_unload_timeout) matches Some(s) && s > 0
        && counter::minus(now_ms, e.last_activity) > s * 1000
}

/// The model failed to load so short a time ago that it is not tried again.
pub open spec fn throttled(e: EngineView, model_id: Seq<char>, now_ms: u64) -> bool {
    e.failure matches Some(f) && f.model_id == model_id && counter::minus(now_ms, f.at_ms)
        < LOAD_RETRY_COOLDOWN_MS
}

/// A model is selected and downloaded.
pub open spec fn model_selected(m: ManagerView) -> bool {
    m.selected.len() > 0 && model::usable(m.entries, m.selected)
}

/// A load of the selected model begins.
pub open spec fn load_begins(e: EngineView, selected: Seq<char>, now_ms: u64) -> bool {
    !e.loaded && selected.len() > 0 && !throttled(e, selected, now_ms) && !e.loading
}

/// The engine once a load has been asked for.
pub open spec fn load_begun(
    e: EngineView,
    selected: Seq<char>,
    cuda_available: bool,
    now_ms: u64,
) -> EngineView {
    if load_begins(e, selected, now_ms) {
        EngineView {
            loading: true,
            status: RuntimeStatusView {
                model_id: Some(selected),
                ..execution::pending_status(
                    e.config.device,
                    "Initializing model runtime"@,
                    cuda_available,
                    now_ms,
                )
            },
            ..e
        }
    } else {
        e
    }
}

/// The failure that is remembered once a model was loaded: that of another model.
pub open spec fn failure_after_success(e: EngineView, model_id: Seq<char>) -> Option<FailureView> {
    match e.failure {
        Some(f) => if f.model_id == model_id {
            None
        } else {
            Some(f)
        },
        None => None,
    }
}

/// What is said where no engine is loaded.
pub open spec fn no_engine_text(e: EngineView, selected: Seq<char>) -> Seq<char> {
    match e.failure {
        Some(f) => if selected.len() > 0 && f.model_id == selected {
            "No engine loaded: failed to load model "@ + selected + ": "@ + f.message
        } else {
            "No engine loaded"@
        },
        None => "No engine loaded"@,
    }
}

/// An optional text as a field's value.
pub open spec fn opt_field(t: Option<Seq<char>>) -> JsonView {
    match t {
        Some(s) => JsonView::Text(s),
        None => JsonView::Null,
    }
}

/// The fields of the status.
pub open spec fn status_fields(s: RuntimeStatusView) -> Seq<(Seq<char>, JsonView)> {
    seq![
        ("policy"@, JsonView::Text(settings::policy_name(s.policy))),
        ("requested_device"@, JsonView::Text(execution::device_name(s.requested_device))),
        ("requested_gpu_device_id"@, JsonView::Signed(s.requested_gpu_device_id as i64)),
        ("effective_device"@, JsonView::Text(execution::device_name(s.effective_device))),
        ("fallback_used"@, JsonView::Bool(s.fallback_used)),
        ("cuda_available"@, JsonView::Bool(s.cuda_available)),
        ("reason"@, JsonView::Text(s.reason)),
        ("last_error"@, opt_field(s.last_error)),
        ("model_id"@, opt_field(s.model_id)),
        ("updated_ms"@, JsonView::Unsigned(s.updated_ms)),
    ]
}

/// The place of a key among the fields of a status.
spec fn status_key_place(k: Seq<char>) -> int {
    if k == "policy"@ {
        0
    } else if k == "requested_device"@ {
        1
    } else if k == "requested_gpu_device_id"@ {
        2
    } else if k == "effective_device"@ {
        3
    } else if k == "fallback_used"@ {
        4
    } else if k == "cuda_available"@ {
        5
    } else if k == "reason"@ {
        6
    } else if k == "last_error"@ {
        7
    } else if k == "model_id"@ {
        8
    } else if k == "updated_ms"@ {
        9
    } else {
        -1
    }
}

proof fn lemma_status_key_at(s: RuntimeStatusView, i: int)
    requires
        0 <= i < status_fields(s).len(),
    ensures
        status_key_place(status_fields(s)[i].0) == i,
        json::plain_key(status_fields(s)[i].0),
{
    let k = status_fields(s)[i].0;
    reveal_strlit("policy");
    reveal_strlit("requested_device");
    reveal_strlit("requested_gpu_device_id");
    reveal_strlit("effective_device");
    reveal_strlit("fallback_used");
    reveal_strlit("cuda_available");
    reveal_strlit("reason");
    reveal_strlit("last_error");
    reveal_strlit("model_id");
    reveal_strlit("updated_ms");
    reveal_with_fuel(json::plain_until, 25);
    assert("policy"@[0] == 'p' && "requested_device"@[0] == 'r' && "effective_device"@[0] == 'e'
        && "reason"@[0] == 'r' && "last_error"@[0] == 'l' && "updated_ms"@[0] == 'u');
    assert(json::plain_until(k, k.len()));
    json::lemma_plain_key(k);
}

proof fn lemma_status_keys_are_plain(s: RuntimeStatusView)
    ensures
        json::plain_keys(status_fields(s)),
{
    let fields = status_fields(s);
    assert forall|i: int| 0 <= i < fields.len() implies status_key_place(#[trigger] fields[i].0)
        == i && json::plain_key(fields[i].0) by {
        lemma_status_key_at(s, i);
    }
}

fn opt_value(t: &Option<String>) -> (v: JsonValue)
    ensures
        v@ == opt_field(text::opt_view(*t)),
{
    match t {
        Some(s) => JsonValue::Text(s.clone()),
        None => JsonValue::Null,
    }
}

/// Whether a model is selected and downloaded. It need not be loaded.
pub fn has_model_selected(manager: &ModelManager) -> (r: bool)
    ensures
        r == model_selected(manager@),
{
    let selected = manager.get_current_model();
    if selected.as_str().is_empty() {
        return false;
    }
    match manager.get_model_info(selected.as_str()) {
        Some(m) => m.is_downloaded,
        None => false,
    }
}

/// The model that is to be loaded, or why it cannot be.
pub fn loadable_model(manager: &ModelManager, model_id: &str) -> (r: Result<ModelInfo, String>)
    ensures
        match model::entry(manager@.entries, model_id@) {
            None => r matches Err(e) && e@ == "Model not found: "@ + model_id@,
            Some(m) => if m.info.is_downloaded {
                r matches Ok(info) && info@ == m.info
            } else {
                r matches Err(e) && e@ == "Model not downloaded"@
            },
        },
{
    match manager.get_model_info(model_id) {
        None => Err(concat2("Model not found: ", model_id)),
        Some(info) => if info.is_downloaded {
            Ok(info)
        } else {
            Err("Model not downloaded".to_owned())
        },
    }
}

/// What a load in the background says of a model that is not there.
pub fn missing_model_message(model_id: &str) -> (r: String)
    ensures
        r@ == "Model not found or not downloaded: "@ + model_id@,
{
    concat2("Model not found or not downloaded: ", model_id)
}

/// What is said of an engine that failed to transcribe.
pub fn transcription_failure(engine: EngineType, error: &str) -> (r: String)
    ensures
        r@ == (match engine {
            EngineType::Whisper => "Whisper transcription failed: "@,
            EngineType::Parakeet => "Parakeet transcription failed: "@,
            EngineType::Moonshine => "Moonshine transcription failed: "@,
            EngineType::SenseVoice => "SenseVoice transcription failed: "@,
        }) + error@,
{
    match engine {
        EngineType::Whisper => concat2("Whisper transcription failed: ", error),
        EngineType::Parakeet => concat2("Parakeet transcription failed: ", error),
        EngineType::Moonshine => concat2("Moonshine transcription failed: ", error),
        EngineType::SenseVoice => concat2("SenseVoice transcription failed: ", error),
    }
}

/// The language that is handed to the Whisper engine; none for automatic detection.
pub fn whisper_language(language: &str) -> (r: Option<String>)
    ensures
        text::opt_view(r) == (if language@ == "auto"@ {
            None
        } else {
            Some(language@)
        }),
{
    if same_text(language, "auto") {
        None
    } else {
        Some(language.to_owned())
    }
}

impl TranscriptionRuntime {
    /// An engine without a model, at the given time.
    pub fn new(config: TranscriptionConfig, cuda_available: bool, now_ms: u64) -> (r: Self)
        ensures
            r@ == (EngineView {
                loaded: false,
                config: config@,
                model: None,
                status: execution::pending_status(
                    config@.device,
                    "Runtime not initialized (model not loaded)"@,
                    cuda_available,
                    now_ms,
                ),
                last_activity: now_ms,
                loading: false,
                failure: None,
            }),
    {
        let status = InferenceRuntimeStatus::pending(
            &config.device,
            "Runtime not initialized (model not loaded)",
            cuda_available,
            now_ms,
        );
        TranscriptionRuntime {
            engine_loaded: false,
            config,
            current_model_id: None,
            inference_runtime_status: status,
            last_activity: now_ms,
            is_loading: false,
            last_load_failure: None,
        }
    }

    /// Whether a model is loaded.
    pub fn is_model_loaded(&self) -> (r: bool)
        ensures
            r == self@.loaded,
    {
        self.engine_loaded
    }

    /// Whether a model is being loaded.
    pub fn is_loading(&self) -> (r: bool)
        ensures
            r == self@.loading,
    {
        self.is_loading
    }

    /// The configuration.
    pub fn config(&self) -> (c: TranscriptionConfig)
        ensures
            c@ == self@.config,
    {
        self.config.copy()
    }

    fn forget_model(&mut self, reason: &str, now_ms: u64)
        ensures
            final(self)@ == unloaded(old(self)@, reason@, now_ms),
    {
        self.engine_loaded = false;
        self.current_model_id = None;
        self.inference_runtime_status.model_id = None;
        self.inference_runtime_status.reason = reason.to_owned();
        self.inference_runtime_status.updated_ms = now_ms;
    }

    /// The model was unloaded.
    pub fn unload_model(&mut self, now_ms: u64)
        ensures
            final(self)@ == unloaded(old(self)@, "Model unloaded"@, now_ms),
    {
        self.forget_model("Model unloaded", now_ms);
    }

    /// The watcher looks at the engine: whether the model is to be unloaded because it has not been
    /// used for too long.
    pub fn unload_if_idle(&mut self, now_ms: u64) -> (unload: bool)
        ensures
            unload == (old(self)@.loaded && idle_too_long(old(self)@, now_ms)),
            final(self)@ == (if unload {
                unloaded(old(self)@, "Model unloaded due to inactivity"@, now_ms)
            } else {
                old(self)@
            }),
    {
        match self.config.model_unload_timeout.to_seconds() {
            Some(limit) => {
                if limit == 0 {
                    return false;
                }
                if now_ms.saturating_sub(self.last_activity) > limit * 1000 && self.engine_loaded {
                    self.forget_model("Model unloaded due to inactivity", now_ms);
                    true
                } else {
                    false
                }
            },
            None => false,
        }
    }

    /// A transcription is over: whether the model is to be unloaded at once.
    pub fn maybe_unload_immediately(&mut self, now_ms: u64) -> (unload: bool)
        ensures
            unload == (old(self)@.loaded && old(self)@.config.model_unload_timeout
                == ModelUnloadTimeout::Immediately),
            final(self)@ == (if unload {
                unloaded(old(self)@, "Model unloaded"@, now_ms)
            } else {
                old(self)@
            }),
    {
        if self.config.model_unload_timeout == ModelUnloadTimeout::Immediately
            && self.engine_loaded {
            self.unload_model(now_ms);
            true
        } else {
            false
        }
    }

    fn is_throttled(&self, model_id: &str, now_ms: u64) -> (r: bool)
        ensures
            r == throttled(self@, model_id@, now_ms),
    {
        match &self.last_load_failure {
            Some(f) => same_text(f.model_id.as_str(), model_id) && now_ms.saturating_sub(f.at_ms)
                < LOAD_RETRY_COOLDOWN_MS,
            None => false,
        }
    }

    /// Whether the model failed to load so short a time ago that it is not tried again.
    pub fn should_throttle_load_attempt(&self, model_id: &str, now_ms: u64) -> (r: bool)
        ensures
            r == throttled(self@, model_id@, now_ms),
    {
        self.is_throttled(model_id, now_ms)
    }

    /// A load of the selected model is asked for: whether it begins.
    pub fn initiate_model_load(
        &mut self,
        selected: &str,
        cuda_available: bool,
        now_ms: u64,
    ) -> (begins:
        bool)
        ensures
            begins == load_begins(old(self)@, selected@, now_ms),
            final(self)@ == load_begun(old(self)@, selected@, cuda_available, now_ms),
    {
        if self.engine_loaded || selected.is_empty() || self.is_throttled(selected, now_ms)
            || self.is_loading {
            return false;
        }
        self.is_loading = true;
        let mut status = InferenceRuntimeStatus::pending(
            &self.config.device,
            "Initializing model runtime",
            cuda_available,
            now_ms,
        );
        status.model_id = Some(selected.to_owned());
        self.inference_runtime_status = status;
        true
    }

    /// A load in the background has succeeded.
    pub fn load_succeeded(&mut self, model_id: &str, status: InferenceRuntimeStatus, now_ms: u64)
        ensures
            final(self)@ == (EngineView {
                loaded: true,
                model: Some(model_id@),
                failure: failure_after_success(old(self)@, model_id@),
                status: RuntimeStatusView { updated_ms: now_ms, ..status@ },
                loading: false,
                ..old(self)@
            }),
    {
        self.engine_loaded = true;
        self.current_model_id = Some(model_id.to_owned());
        let own: bool = match &self.last_load_failure {
            Some(f) => same_text(f.model_id.as_str(), model_id),
            None => false,
        };
        if own {
            self.last_load_failure = None;
        }
        let mut s = status;
        s.updated_ms = now_ms;
        self.inference_runtime_status = s;
        self.is_loading = false;
    }

    /// A load in the background has failed. The status is given where the engine was tried.
    pub fn load_failed(
        &mut self,
        model_id: &str,
        message: String,
        status: Option<InferenceRuntimeStatus>,
        now_ms: u64,
    )
        ensures
            final(self)@ == (EngineView {
                failure: Some(
                    FailureView { model_id: model_id@, message: message@, at_ms: now_ms },
                ),
                status: match status {
                    Some(s) => RuntimeStatusView { updated_ms: now_ms, ..s@ },
                    None => old(self)@.status,
                },
                loading: false,
                ..old(self)@
            }),
    {
        if let Some(given) = status {
            let mut s = given;
            s.updated_ms = now_ms;
            self.inference_runtime_status = s;
        }
        self.last_load_failure = Some(
            ModelLoadFailure { model_id: model_id.to_owned(), message, at_ms: now_ms },
        );
        self.is_loading = false;
    }

    /// A load on request is over: the error to return where it failed.
    pub fn load_model_over(
        &mut self,
        model_id: &str,
        result: Result<InferenceRuntimeStatus, (InferenceRuntimeStatus, String)>,
        now_ms: u64,
    ) -> (r: Result<(), String>)
        ensures
            match result {
                Ok(s) => r is Ok && final(self)@ == (EngineView {
                    loaded: true,
                    model: Some(model_id@),
                    status: RuntimeStatusView { updated_ms: now_ms, ..s@ },
                    ..old(self)@
                }),
                Err(p) => (r matches Err(e) && e@ == "Failed to load "@ + model_id@ + " model: "@
                    + p.1@) && final(self)@ == (EngineView {
                    status: RuntimeStatusView { updated_ms: now_ms, ..p.0@ },
                    ..old(self)@
                }),
            },
    {
        match result {
            Ok(status) => {
                let mut s = status;
                s.updated_ms = now_ms;
                self.engine_loaded = true;
                self.current_model_id = Some(model_id.to_owned());
                self.inference_runtime_status = s;
                Ok(())
            },
            Err((status, error)) => {
                let mut s = status;
                s.updated_ms = now_ms;
                self.inference_runtime_status = s;
                let mut e = concat2("Failed to load ", model_id);
                e.append(" model: ");
                e.append(error.as_str());
                Err(e)
            },
        }
    }

    /// A transcription begins: whether the model has to be loaded first.
    pub fn begin_transcription(&mut self, now_ms: u64) -> (load_first: bool)
        ensures
            final(self)@ == (EngineView { last_activity: now_ms, ..old(self)@ }),
            load_first == (old(self)@.model is None || !old(self)@.loaded),
    {
        self.last_activity = now_ms;
        self.current_model_id.is_none() || !self.engine_loaded
    }

    /// Whether the transcription can go on: an error where no engine is loaded, which names the
    /// failure to load the selected model, if that is the cause.
    pub fn check_engine(&self, selected: &str) -> (r: Result<(), String>)
        ensures
            match r {
                Ok(()) => self@.loaded,
                Err(e) => !self@.loaded && e@ == no_engine_text(self@, selected@),
            },
    {
        if self.engine_loaded {
            return Ok(());
        }
        if let Some(f) = &self.last_load_failure {
            if !selected.is_empty() && same_text(f.model_id.as_str(), selected) {
                let mut e = concat2("No engine loaded: failed to load model ", selected);
                e.append(": ");
                e.append(f.message.as_str());
                return Err(e);
            }
        }
        Err("No engine loaded".to_owned())
    }

    /// The settings have changed. What is loaded stays; the status says that a reload is due.
    pub fn refresh_config(&mut self, config: TranscriptionConfig, cuda_available: bool, now_ms: u64)
        ensures
            final(self)@ == (EngineView {
                config: config@,
                status: RuntimeStatusView {
                    policy: config@.device.inference_device_policy,
                    requested_gpu_device_id: execution::gpu_id(config@.device),
                    requested_device: execution::requested(config@.device.inference_device_policy),
                    cuda_available,
                    reason: "Configuration updated; reload model to apply inference changes"@,
                    updated_ms: now_ms,
                    ..old(self)@.status
                },
                ..old(self)@
            }),
    {
        self.inference_runtime_status.policy = config.device.inference_device_policy;
        self.inference_runtime_status.requested_gpu_device_id = effective_gpu_id(&config.device);
        self.inference_runtime_status.requested_device = requested_device_from_policy(
            config.device.inference_device_policy,
        );
        self.inference_runtime_status.cuda_available = cuda_available;
        self.inference_runtime_status.reason =
        "Configuration updated; reload model to apply inference changes".to_owned();
        self.inference_runtime_status.updated_ms = now_ms;
        self.config = config;
    }

    /// Whether a model is being loaded, whether one is loaded, and which.
    pub fn get_model_load_status(&self) -> (r: (bool, bool, Option<String>))
        ensures
            r.0 == self@.loading,
            r.1 == self@.loaded,
            text::opt_view(r.2) == self@.model,
    {
        (self.is_loading, self.engine_loaded, copy_opt(&self.current_model_id))
    }

    /// The status as JSON.
    pub fn inference_runtime_status_json(&self) -> (r: String)
        ensures
            r@ == json::object_text(status_fields(self@.status)),
            json::all_read_back(r@, status_fields(self@.status)),
    {
        let s = &self.inference_runtime_status;
        let mut f: Vec<JsonField> = Vec::new();
        f.push(json_field("policy", JsonValue::Text(s.policy.as_str().to_owned())));
        f.push(
            json_field("requested_device", JsonValue::Text(s.requested_device.as_str().to_owned())),
        );
        f.push(
            json_field(
                "requested_gpu_device_id",
                JsonValue::Signed(s.requested_gpu_device_id as i64),
            ),
        );
        f.push(
            json_field("effective_device", JsonValue::Text(s.effective_device.as_str().to_owned())),
        );
        f.push(json_field("fallback_used", JsonValue::Bool(s.fallback_used)));
        f.push(json_field("cuda_available", JsonValue::Bool(s.cuda_available)));
        f.push(json_field("reason", JsonValue::Text(s.reason.clone())));
        f.push(json_field("last_error", opt_value(&s.last_error)));
        f.push(json_field("model_id", opt_value(&s.model_id)));
        f.push(json_field("updated_ms", JsonValue::Unsigned(s.updated_ms)));
        assert(json::field_views(f@) =~= status_fields(self@.status));
        proof {
            lemma_status_keys_are_plain(self@.status);
        }
        write_object(&f)
    }
}

/// While a load is under way no second one begins, nor shortly after it has failed, whatever the
/// failure.
pub proof fn law_one_load_at_a_time(
    e: EngineView,
    selected: Seq<char>,
    cuda: bool,
    message: Seq<char>,
    now_ms: u64,
    then_ms: u64,
)
    requires
        load_begins(e, selected, now_ms),
        then_ms < now_ms + LOAD_RETRY_COOLDOWN_MS,
    ensures
        !load_begins(load_begun(e, selected, cuda, now_ms), selected, then_ms),
        load_begun(load_begun(e, selected, cuda, now_ms), selected, cuda, then_ms) == load_begun(
            e,
            selected,
            cuda,
            now_ms,
        ),
        !load_begins(
            EngineView {
                loading: false,
                failure: Some(FailureView { model_id: selected, message, at_ms: now_ms }),
                ..e
            },
            selected,
            then_ms,
        ),
{
}

/// A model that is used stays loaded: within the time that the settings allow after its last use,
/// the watcher does not unload it, and it never does so where models are kept for ever.
pub proof fn law_used_model_stays_loaded(e: EngineView, now_ms: u64)
    ensures
        e.config.model_unload_timeout == ModelUnloadTimeout::Never ==> !idle_too_long(e, now_ms),
        (settings::unload_seconds(e.config.model_unload_timeout) matches Some(s) && now_ms
            <= e.last_activity + s * 1000) ==> !idle_too_long(e, now_ms),
{
}

/// An unloaded model is gone, and the status says why and since when; everything else stays.
pub proof fn law_unloaded_model_is_gone(e: EngineView, reason: Seq<char>, now_ms: u64)
    ensures
        ({
            let after = unloaded(e, reason, now_ms);
            &&& !after.loaded && after.model is None
            &&& after.status.model_id is None && after.status.reason == reason
                && after.status.updated_ms == now_ms
            &&& after.config == e.config && after.last_activity == e.last_activity && after.loading
                == e.loading && after.failure == e.failure
            &&& after.status.effective_device == e.status.effective_device
                && after.status.last_error == e.status.last_error && after.status.policy
                == e.status.policy
        }),
{
}

/// A model that was not used for longer than its timeout is idle: five seconds, two, five, ten or
/// fifteen minutes, or an hour. With no timeout, or an immediate one, it never is.
pub proof fn law_unused_model_is_idle(e: EngineView, now_ms: u64)
    ensures
        ({
            let t = e.config.model_unload_timeout;
            let unused = now_ms - e.last_activity;
            &&& t == ModelUnloadTimeout::Sec5 ==> (idle_too_long(e, now_ms) <==> unused > 5_000)
            &&& t == ModelUnloadTimeout::Min2 ==> (idle_too_long(e, now_ms) <==> unused > 120_000)
            &&& t == ModelUnloadTimeout::Min5 ==> (idle_too_long(e, now_ms) <==> unused > 300_000)
            &&& t == ModelUnloadTimeout::Min10 ==> (idle_too_long(e, now_ms) <==> unused > 600_000)
            &&& t == ModelUnloadTimeout::Min15 ==> (idle_too_long(e, now_ms) <==> unused > 900_000)
            &&& t == ModelUnloadTimeout::Hour1 ==> (idle_too_long(e, now_ms) <==> unused
                > 3_600_000)
            &&& t == ModelUnloadTimeout::Never || t == ModelUnloadTimeout::Immediately
                ==> !idle_too_long(e, now_ms)
        }),
{
}

/// A selected model begins to load whenever none is loaded or being loaded and it did not itself fail
/// to load within the last three seconds; another model's failure is no hindrance.
pub proof fn law_load_begins_when_it_may(e: EngineView, selected: Seq<char>, now_ms: u64)
    requires
        selected.len() > 0,
        e.failure is None || (e.failure->0).model_id != selected || now_ms - (e.failure->0).at_ms
            >= 3000,
    ensures
        load_begins(e, selected, now_ms) <==> !e.loaded && !e.loading,
        load_begins(e, selected, now_ms) ==> ({
            let after = load_begun(e, selected, true, now_ms);
            &&& after.loading && !after.loaded
            &&& after.status.model_id == Some(selected) && after.status.updated_ms == now_ms
            &&& after.status.cuda_available
            &&& after.failure == e.failure && after.config == e.config && after.model == e.model
        }),
{
}

/// A model that failed to load less than three seconds ago is not tried again, and without a
/// selection nothing is.
pub proof fn law_failed_load_waits(e: EngineView, selected: Seq<char>, now_ms: u64)
    ensures
        e.failure is Some && (e.failure->0).model_id == selected && now_ms - (e.failure->0).at_ms
            < 3000 ==> throttled(e, selected, now_ms) && !load_begins(e, selected, now_ms),
        !load_begins(e, Seq::empty(), now_ms),
{
}

/// A model that is loaded clears its own failure and no other's. While nothing is loaded, the failure
/// of the selected model is told, and that of no other.
pub proof fn law_failures_belong_to_their_model(e: EngineView, f: FailureView, id: Seq<char>)
    requires
        e.failure == Some(f),
        id.len() > 0,
    ensures
        failure_after_success(e, f.model_id) is None,
        id != f.model_id ==> failure_after_success(e, id) == e.failure,
        id != f.model_id ==> no_engine_text(e, id) == "No engine loaded"@,
        id == f.model_id ==> no_engine_text(e, id) == "No engine loaded"@
            + ": failed to load model "@ + id + ": "@ + f.message,
{
    reveal_strlit("No engine loaded");
    reveal_strlit(": failed to load model ");
    reveal_strlit("No engine loaded: failed to load model ");
    assert("No engine loaded: failed to load model "@ =~= "No engine loaded"@
        + ": failed to load model "@);
}

/// A model is selected that can be used exactly if the selection names a model that is downloaded.
pub proof fn law_selected_model_is_downloaded(m: ManagerView, i: int)
    requires
        model::entries_consistent(m.entries),
        0 <= i < m.entries.len(),
        m.entries[i].info.id == m.selected,
        m.selected.len() > 0,
    ensures
        model_selected(m) <==> m.entries[i].info.is_downloaded,
        !model_selected(ManagerView { selected: Seq::empty(), ..m }),
{
    model::law_models_are_found_by_id(m.entries, m.selected);
}

/// The status that is told holds everything: two that are told alike are alike.
pub proof fn law_status_is_told_whole(a: RuntimeStatusView, b: RuntimeStatusView)
    requires
        status_fields(a) == status_fields(b),
    ensures
        a == b,
{
    let x = status_fields(a);
    let y = status_fields(b);
    assert(forall|i: int| 0 <= i < 10 ==> #[trigger] x[i] == y[i]);
    assert(x[0] == y[0] && x[1] == y[1] && x[2] == y[2] && x[3] == y[3] && x[4] == y[4]);
    assert(x[5] == y[5] && x[6] == y[6] && x[7] == y[7] && x[8] == y[8] && x[9] == y[9]);
    reveal_strlit("auto");
    reveal_strlit("cpu");
    reveal_strlit("gpu");
    assert("auto"@.len() == 4 && "cpu"@[0] == 'c' && "gpu"@[0] == 'g' && "cpu"@.len() == 3
        && "gpu"@.len() == 3);
}

/// Each part of the status is told under its own name.
pub proof fn law_status_names_its_parts(s: RuntimeStatusView)
    ensures
        ({
            let f = status_fields(s);
            &&& f.contains(("reason"@, JsonView::Text(s.reason)))
            &&& f.contains(("fallback_used"@, JsonView::Bool(s.fallback_used)))
            &&& f.contains(("cuda_available"@, JsonView::Bool(s.cuda_available)))
            &&& f.contains(("updated_ms"@, JsonView::Unsigned(s.updated_ms)))
            &&& s.requested_device == execution::OnnxExecutionDevice::Gpu ==> f.contains(
                ("requested_device"@, JsonView::Text("gpu"@)),
            )
            &&& s.effective_device == execution::OnnxExecutionDevice::Gpu ==> f.contains(
                ("effective_device"@, JsonView::Text("gpu"@)),
            )
            &&& s.effective_device == execution::OnnxExecutionDevice::Cpu ==> f.contains(
                ("effective_device"@, JsonView::Text("cpu"@)),
            )
            &&& s.model_id is None ==> f.contains(("model_id"@, JsonView::Null))
            &&& s.last_error is None ==> f.contains(("last_error"@, JsonView::Null))
            &&& s.last_error is Some ==> f.contains(("last_error"@, JsonView::Text(s.last_error->0)))
        }),
{
    let f = status_fields(s);
    assert(f[6] == ("reason"@, JsonView::Text(s.reason)));
    assert(f[4] == ("fallback_used"@, JsonView::Bool(s.fallback_used)));
    assert(f[5] == ("cuda_available"@, JsonView::Bool(s.cuda_available)));
    assert(f[9] == ("updated_ms"@, JsonView::Unsigned(s.updated_ms)));
    assert(f[1].0 == "requested_device"@ && f[3].0 == "effective_device"@);
    assert(f[8].0 == "model_id"@ && f[7].0 == "last_error"@);
}

} // verus!
