//! Where a model runs: the devices, and the order in which they are tried.

use super::catalog::EngineType;
use crate::settings::InferenceDevicePolicy;
use crate::text;
use crate::text::{concat2, copy_opt, decimal_signed};
use vstd::prelude::*;
use vstd::string::*;

verus! {

/// A device that runs models.
#[derive(Clone, Copy, Debug, PartialEq, Eq, Structural)]
pub enum OnnxExecutionDevice {
    Auto,
    Cpu,
    Gpu,
}

impl Default for OnnxExecutionDevice {
    fn default() -> (d: Self)
        ensures
            d == OnnxExecutionDevice::Auto,
    {
        OnnxExecutionDevice::Auto
    }
}

/// The name of a device.
pub open spec fn device_name(d: OnnxExecutionDevice) -> Seq<char> {
    match d {
        OnnxExecutionDevice::Auto => "auto"@,
        OnnxExecutionDevice::Cpu => "cpu"@,
        OnnxExecutionDevice::Gpu => "gpu"@,
    }
}

impl OnnxExecutionDevice {
    /// The device's name.
    pub fn as_str(&self) -> (r: &'static str)
        ensures
            r@ == device_name(*self),
    {
        match self {
            OnnxExecutionDevice::Auto => "auto",
            OnnxExecutionDevice::Cpu => "cpu",
            OnnxExecutionDevice::Gpu => "gpu",
        }
    }
}

/// How a model is to be run.
#[derive(Clone, Copy, Debug, PartialEq, Eq, Structural)]
pub struct OnnxExecutionParams {
    pub device: OnnxExecutionDevice,
    pub gpu_device_id: i32,
    pub allow_cpu_fallback: bool,
}

impl Default for OnnxExecutionParams {
    fn default() -> (p: Self)
        ensures
            p == (OnnxExecutionParams {
                device: OnnxExecutionDevice::Auto,
                gpu_device_id: 0,
                allow_cpu_fallback: true,
            }),
    {
        OnnxExecutionParams {
            device: OnnxExecutionDevice::Auto,
            gpu_device_id: 0,
            allow_cpu_fallback: true,
        }
    }
}

impl OnnxExecutionParams {
    /// On the processor.
    pub fn cpu() -> (p: Self)
        ensures
            p == (OnnxExecutionParams {
                device: OnnxExecutionDevice::Cpu,
                gpu_device_id: 0,
                allow_cpu_fallback: true,
            }),
    {
        OnnxExecutionParams {
            device: OnnxExecutionDevice::Cpu,
            gpu_device_id: 0,
            allow_cpu_fallback: true,
        }
    }

    /// On a graphics device, or else on the processor.
    pub fn gpu(gpu_device_id: i32) -> (p: Self)
        ensures
            p == (OnnxExecutionParams {
                device: OnnxExecutionDevice::Gpu,
                gpu_device_id,
                allow_cpu_fallback: true,
            }),
    {
        OnnxExecutionParams {
            device: OnnxExecutionDevice::Gpu,
            gpu_device_id,
            allow_cpu_fallback: true,
        }
    }

    /// Wherever it runs best.
    pub fn auto() -> (p: Self)
        ensures
            p == (OnnxExecutionParams {
                device: OnnxExecutionDevice::Auto,
                gpu_device_id: 0,
                allow_cpu_fallback: true,
            }),
    {
        OnnxExecutionParams::default()
    }
}

/// A provider that runs models.
#[derive(Clone, Copy, Debug, PartialEq, Eq, Structural)]
pub enum ExecutionProvider {
    Cpu,
    /// The graphics device with this number.
    Cuda(i32),
}

/// The providers to use, in order, and what they amount to.
pub struct OnnxExecutionResolution {
    pub providers: Vec<ExecutionProvider>,
    pub effective_device: OnnxExecutionDevice,
    pub reason: String,
    pub cuda_available: bool,
}

/// The graphics device is used: it was not ruled out, and it is there.
pub open spec fn uses_gpu(params: OnnxExecutionParams, cuda_available: bool) -> bool {
    params.device != OnnxExecutionDevice::Cpu && cuda_available
}

/// The providers for the parameters.
pub open spec fn providers_for(params: OnnxExecutionParams, cuda_available: bool) -> Seq<
    ExecutionProvider,
> {
    if !uses_gpu(params, cuda_available) {
        seq![ExecutionProvider::Cpu]
    } else if params.allow_cpu_fallback {
        seq![ExecutionProvider::Cuda(params.gpu_device_id), ExecutionProvider::Cpu]
    } else {
        seq![ExecutionProvider::Cuda(params.gpu_device_id)]
    }
}

/// Why these providers are used.
pub open spec fn resolution_reason(params: OnnxExecutionParams, cuda_available: bool) -> Seq<char> {
    match (params.device, cuda_available) {
        (OnnxExecutionDevice::Cpu, _) => "CPU mode requested"@,
        (OnnxExecutionDevice::Auto, true) => "CUDA provider available, preferring GPU device "@
            + text::dec_signed(params.gpu_device_id as int),
        (OnnxExecutionDevice::Auto, false) => "CUDA provider unavailable, falling back to CPU"@,
        (OnnxExecutionDevice::Gpu, true) => "GPU mode requested, using CUDA device "@
            + text::dec_signed(params.gpu_device_id as int),
        (OnnxExecutionDevice::Gpu, false) =>
            "GPU mode requested but CUDA provider unavailable; using CPU"@,
    }
}

/// The providers to use for the parameters, given whether there is a graphics device.
pub fn resolve_onnx_execution(params: &OnnxExecutionParams, cuda_available: bool) -> (r:
    OnnxExecutionResolution)
    ensures
        r.providers@ == providers_for(*params, cuda_available),
        r.effective_device == (if uses_gpu(*params, cuda_available) {
            OnnxExecutionDevice::Gpu
        } else {
            OnnxExecutionDevice::Cpu
        }),
        r.reason@ == resolution_reason(*params, cuda_available),
        r.cuda_available == cuda_available,
{
    let reason = match params.device {
        OnnxExecutionDevice::Cpu => "CPU mode requested".to_owned(),
        OnnxExecutionDevice::Auto => if cuda_available {
            concat2(
                "CUDA provider available, preferring GPU device ",
                decimal_signed(params.gpu_device_id as i64).as_str(),
            )
        } else {
            "CUDA provider unavailable, falling back to CPU".to_owned()
        },
        OnnxExecutionDevice::Gpu => if cuda_available {
            concat2(
                "GPU mode requested, using CUDA device ",
                decimal_signed(params.gpu_device_id as i64).as_str(),
            )
        } else {
            "GPU mode requested but CUDA provider unavailable; using CPU".to_owned()
        },
    };
    let mut providers: Vec<ExecutionProvider> = Vec::new();
    let on_gpu: bool = params.device != OnnxExecutionDevice::Cpu && cuda_available;
    if on_gpu {
        providers.push(ExecutionProvider::Cuda(params.gpu_device_id));
        if params.allow_cpu_fallback {
            providers.push(ExecutionProvider::Cpu);
        }
    } else {
        providers.push(ExecutionProvider::Cpu);
    }
    assert(providers@ =~= providers_for(*params, cuda_available));
    OnnxExecutionResolution {
        providers,
        effective_device: if on_gpu {
            OnnxExecutionDevice::Gpu
        } else {
            OnnxExecutionDevice::Cpu
        },
        reason,
        cuda_available,
    }
}

/// What the settings say about where models run.
#[derive(Clone, Copy, Debug, PartialEq, Eq, Structural)]
pub struct DeviceConfig {
    pub inference_device_policy: InferenceDevicePolicy,
    pub inference_gpu_device_id: i32,
}

/// The device that a policy asks for.
pub open spec fn requested(policy: InferenceDevicePolicy) -> OnnxExecutionDevice {
    match policy {
        InferenceDevicePolicy::Auto => OnnxExecutionDevice::Auto,
        InferenceDevicePolicy::Cpu => OnnxExecutionDevice::Cpu,
        InferenceDevicePolicy::Gpu => OnnxExecutionDevice::Gpu,
    }
}

/// The device that a policy asks for.
pub fn requested_device_from_policy(policy: InferenceDevicePolicy) -> (r: OnnxExecutionDevice)
    ensures
        r == requested(policy),
{
    match policy {
        InferenceDevicePolicy::Auto => OnnxExecutionDevice::Auto,
        InferenceDevicePolicy::Cpu => OnnxExecutionDevice::Cpu,
        InferenceDevicePolicy::Gpu => OnnxExecutionDevice::Gpu,
    }
}

/// The number of the graphics device: none is below 0.
pub open spec fn gpu_id(config: DeviceConfig) -> i32 {
    if config.inference_gpu_device_id < 0 {
        0
    } else {
        config.inference_gpu_device_id
    }
}

/// The number of the graphics device.
pub fn effective_gpu_id(config: &DeviceConfig) -> (r: i32)
    ensures
        r == gpu_id(*config),
{
    if config.inference_gpu_device_id < 0 {
        0
    } else {
        config.inference_gpu_device_id
    }
}

/// How a model is run on a device.
pub fn onnx_execution_params_for_device(
    config: &DeviceConfig,
    device: OnnxExecutionDevice,
    allow_cpu_fallback: bool,
) -> (r: OnnxExecutionParams)
    ensures
        r == (OnnxExecutionParams { device, gpu_device_id: gpu_id(*config), allow_cpu_fallback }),
{
    OnnxExecutionParams { device, gpu_device_id: effective_gpu_id(config), allow_cpu_fallback }
}

/// Whether the engine heeds the device.
pub fn is_onnx_engine(engine_type: EngineType) -> (r: bool)
    ensures
        r == (engine_type != EngineType::Whisper),
{
    engine_type != EngineType::Whisper
}

/// Where a model runs and why.
pub struct InferenceRuntimeStatus {
    pub policy: InferenceDevicePolicy,
    pub requested_gpu_device_id: i32,
    pub requested_device: OnnxExecutionDevice,
    pub effective_device: OnnxExecutionDevice,
    pub fallback_used: bool,
    pub cuda_available: bool,
    pub reason: String,
    pub last_error: Option<String>,
    pub model_id: Option<String>,
    pub updated_ms: u64,
}

/// What an `InferenceRuntimeStatus` holds.
pub struct RuntimeStatusView {
    pub policy: InferenceDevicePolicy,
    pub requested_gpu_device_id: i32,
    pub requested_device: OnnxExecutionDevice,
    pub effective_device: OnnxExecutionDevice,
    pub fallback_used: bool,
    pub cuda_available: bool,
    pub reason: Seq<char>,
    pub last_error: Option<Seq<char>>,
    pub model_id: Option<Seq<char>>,
    pub updated_ms: u64,
}

impl View for InferenceRuntimeStatus {
    type V = RuntimeStatusView;

    open spec fn view(&self) -> RuntimeStatusView {
        RuntimeStatusView {
            policy: self.policy,
            requested_gpu_device_id: self.requested_gpu_device_id,
            requested_device: self.requested_device,
            effective_device: self.effective_device,
            fallback_used: self.fallback_used,
            cuda_available: self.cuda_available,
            reason: self.reason@,
            last_error: text::opt_view(self.last_error),
            model_id: text::opt_view(self.model_id),
            updated_ms: self.updated_ms,
        }
    }
}

/// A status under a configuration.
pub open spec fn status_for(
    config: DeviceConfig,
    model_id: Option<Seq<char>>,
    cuda_available: bool,
    effective_device: OnnxExecutionDevice,
    fallback_used: bool,
    reason: Seq<char>,
    last_error: Option<Seq<char>>,
    now_ms: u64,
) -> RuntimeStatusView {
    RuntimeStatusView {
        policy: config.inference_device_policy,
        requested_gpu_device_id: gpu_id(config),
        requested_device: requested(config.inference_device_policy),
        effective_device,
        fallback_used,
        cuda_available,
        reason,
        last_error,
        model_id,
        updated_ms: now_ms,
    }
}

/// The status while no model is loaded.
pub open spec fn pending_status(
    config: DeviceConfig,
    message: Seq<char>,
    cuda_available: bool,
    now_ms: u64,
) -> RuntimeStatusView {
    status_for(
        config,
        None,
        cuda_available,
        OnnxExecutionDevice::Cpu,
        false,
        message,
        None,
        now_ms,
    )
}

/// The status of a model that could not be loaded.
pub open spec fn failure_status(
    config: DeviceConfig,
    model_id: Seq<char>,
    message: Seq<char>,
    cuda_available: bool,
    now_ms: u64,
) -> RuntimeStatusView {
    status_for(
        config,
        Some(model_id),
        cuda_available,
        OnnxExecutionDevice::Cpu,
        false,
        message,
        Some(message),
        now_ms,
    )
}

impl InferenceRuntimeStatus {
    /// The status while no model is loaded.
    pub fn pending(config: &DeviceConfig, message: &str, cuda_available: bool, now_ms: u64) -> (s:
        Self)
        ensures
            s@ == pending_status(*config, message@, cuda_available, now_ms),
    {
        InferenceRuntimeStatus {
            policy: config.inference_device_policy,
            requested_gpu_device_id: effective_gpu_id(config),
            requested_device: requested_device_from_policy(config.inference_device_policy),
            effective_device: OnnxExecutionDevice::Cpu,
            fallback_used: false,
            cuda_available,
            reason: message.to_owned(),
            last_error: None,
            model_id: None,
            updated_ms: now_ms,
        }
    }

    /// A copy.
    pub fn copy(&self) -> (s: Self)
        ensures
            s@ == self@,
    {
        InferenceRuntimeStatus {
            policy: self.policy,
            requested_gpu_device_id: self.requested_gpu_device_id,
            requested_device: self.requested_device,
            effective_device: self.effective_device,
            fallback_used: self.fallback_used,
            cuda_available: self.cuda_available,
            reason: self.reason.clone(),
            last_error: copy_opt(&self.last_error),
            model_id: copy_opt(&self.model_id),
            updated_ms: self.updated_ms,
        }
    }
}

/// The status of a model that was loaded.
pub fn build_success_runtime_status(
    config: &DeviceConfig,
    model_id: &str,
    cuda_available: bool,
    effective_device: OnnxExecutionDevice,
    fallback_used: bool,
    reason: String,
    last_error: Option<String>,
    now_ms: u64,
) -> (s: InferenceRuntimeStatus)
    ensures
        s@ == status_for(
            *config,
            Some(model_id@),
            cuda_available,
            effective_device,
            fallback_used,
            reason@,
            text::opt_view(last_error),
            now_ms,
        ),
{
    InferenceRuntimeStatus {
        policy: config.inference_device_policy,
        requested_gpu_device_id: effective_gpu_id(config),
        requested_device: requested_device_from_policy(config.inference_device_policy),
        effective_device,
        fallback_used,
        cuda_available,
        reason,
        last_error,
        model_id: Some(model_id.to_owned()),
        updated_ms: now_ms,
    }
}

/// The status of a model that could not be loaded.
pub fn build_failure_runtime_status(
    config: &DeviceConfig,
    model_id: &str,
    message: String,
    cuda_available: bool,
    now_ms: u64,
) -> (s: InferenceRuntimeStatus)
    ensures
        s@ == failure_status(*config, model_id@, message@, cuda_available, now_ms),
{
    build_success_runtime_status(
        config,
        model_id,
        cuda_available,
        OnnxExecutionDevice::Cpu,
        false,
        message.clone(),
        Some(message),
        now_ms,
    )
}

/// The device on which a model is tried first; none where the policy asks for a graphics device
/// and there is none.
pub open spec fn first_device(
    engine: EngineType,
    policy: InferenceDevicePolicy,
    cuda_available: bool,
) -> Option<OnnxExecutionDevice> {
    if engine == EngineType::Whisper {
        Some(OnnxExecutionDevice::Cpu)
    } else {
        match policy {
            InferenceDevicePolicy::Cpu => Some(OnnxExecutionDevice::Cpu),
            InferenceDevicePolicy::Gpu => if cuda_available {
                Some(OnnxExecutionDevice::Gpu)
            } else {
                None
            },
            InferenceDevicePolicy::Auto => if cuda_available {
                Some(OnnxExecutionDevice::Gpu)
            } else {
                Some(OnnxExecutionDevice::Cpu)
            },
        }
    }
}

/// How a model is tried first.
pub fn plan_first_attempt(engine: EngineType, config: &DeviceConfig, cuda_available: bool) -> (r:
    Result<OnnxExecutionParams, String>)
    ensures
        match first_device(engine, config.inference_device_policy, cuda_available) {
            Some(device) => r == Ok::<OnnxExecutionParams, String>(
                OnnxExecutionParams {
                    device,
                    gpu_device_id: gpu_id(*config),
                    allow_cpu_fallback: false,
                },
            ),
            None => r matches Err(e) && e@
                == "GPU mode requested but ONNX Runtime CUDA provider is unavailable"@,
        },
{
    let device = if !is_onnx_engine(engine) {
        OnnxExecutionDevice::Cpu
    } else {
        match config.inference_device_policy {
            InferenceDevicePolicy::Cpu => OnnxExecutionDevice::Cpu,
            InferenceDevicePolicy::Gpu => {
                if !cuda_available {
                    return Err(
                        "GPU mode requested but ONNX Runtime CUDA provider is unavailable".to_owned(),
                    );
                }
                OnnxExecutionDevice::Gpu
            },
            InferenceDevicePolicy::Auto => if cuda_available {
                OnnxExecutionDevice::Gpu
            } else {
                OnnxExecutionDevice::Cpu
            },
        }
    };
    Ok(onnx_execution_params_for_device(config, device, false))
}

/// Why a model runs where it was tried first.
pub open spec fn first_reason(
    engine: EngineType,
    config: DeviceConfig,
    cuda_available: bool,
) -> Seq<
    char,
> {
    if engine == EngineType::Whisper {
        "Whisper backend ignores ONNX execution provider settings"@
    } else {
        match config.inference_device_policy {
            InferenceDevicePolicy::Cpu => "CPU mode requested"@,
            InferenceDevicePolicy::Gpu => "GPU mode requested and initialized on CUDA device "@
                + text::dec_signed(gpu_id(config) as int),
            InferenceDevicePolicy::Auto => if cuda_available {
                "Auto mode selected CUDA device "@ + text::dec_signed(gpu_id(config) as int)
            } else {
                "Auto mode detected no CUDA provider; using CPU"@
            },
        }
    }
}

/// What follows an attempt to load a model.
pub enum LoadStep {
    /// It is loaded, and runs like this.
    Loaded(InferenceRuntimeStatus),
    /// Try it on the processor, like this; the error of the graphics device is kept.
    RetryOnCpu(OnnxExecutionParams, String),
    /// It cannot be loaded.
    Failed(String),
}

/// The model may be tried on the processor after the graphics device has failed.
pub open spec fn may_fall_back(
    engine: EngineType,
    policy: InferenceDevicePolicy,
    cuda_available: bool,
) -> bool {
    engine != EngineType::Whisper && policy == InferenceDevicePolicy::Auto && cuda_available
}

/// What follows the first attempt to load a model.
pub fn after_first_attempt(
    engine: EngineType,
    config: &DeviceConfig,
    cuda_available: bool,
    model_id: &str,
    result: Result<(), String>,
    now_ms: u64,
) -> (r: LoadStep)
    requires
        first_device(engine, config.inference_device_policy, cuda_available) is Some,
    ensures
        match result {
            Ok(_) => r matches LoadStep::Loaded(s) && s@ == status_for(
                *config,
                Some(model_id@),
                cuda_available,
                first_device(engine, config.inference_device_policy, cuda_available)->0,
                false,
                first_reason(engine, *config, cuda_available),
                None,
                now_ms,
            ),
            Err(e) => if may_fall_back(engine, config.inference_device_policy, cuda_available) {
                r matches LoadStep::RetryOnCpu(p, kept) && kept@ == e@ && p == (
                OnnxExecutionParams {
                    device: OnnxExecutionDevice::Cpu,
                    gpu_device_id: gpu_id(*config),
                    allow_cpu_fallback: false,
                })
            } else {
                r matches LoadStep::Failed(m) && m@ == e@
            },
        },
{
    let onnx: bool = is_onnx_engine(engine);
    match result {
        Err(e) => {
            if onnx && config.inference_device_policy == InferenceDevicePolicy::Auto
                && cuda_available {
                LoadStep::RetryOnCpu(
                    onnx_execution_params_for_device(config, OnnxExecutionDevice::Cpu, false),
                    e,
                )
            } else {
                LoadStep::Failed(e)
            }
        },
        Ok(_) => {
            let gpu = decimal_signed(effective_gpu_id(config) as i64);
            let (device, reason) = if !onnx {
                (
                    OnnxExecutionDevice::Cpu,
                    "Whisper backend ignores ONNX execution provider settings".to_owned(),
                )
            } else {
                match config.inference_device_policy {
                    InferenceDevicePolicy::Cpu => (
                        OnnxExecutionDevice::Cpu,
                        "CPU mode requested".to_owned(),
                    ),
                    InferenceDevicePolicy::Gpu => (
                        OnnxExecutionDevice::Gpu,
                        concat2(
                            "GPU mode requested and initialized on CUDA device ",
                            gpu.as_str(),
                        ),
                    ),
                    InferenceDevicePolicy::Auto => if cuda_available {
                        (
                            OnnxExecutionDevice::Gpu,
                            concat2("Auto mode selected CUDA device ", gpu.as_str()),
                        )
                    } else {
                        (
                            OnnxExecutionDevice::Cpu,
                            "Auto mode detected no CUDA provider; using CPU".to_owned(),
                        )
                    },
                }
            };
            LoadStep::Loaded(
                build_success_runtime_status(
                    config,
                    model_id,
                    cuda_available,
                    device,
                    false,
                    reason,
                    None,
                    now_ms,
                ),
            )
        },
    }
}

/// What follows the attempt on the processor, after the graphics device has failed.
pub fn after_cpu_fallback(
    config: &DeviceConfig,
    cuda_available: bool,
    model_id: &str,
    gpu_error: String,
    result: Result<(), String>,
    now_ms: u64,
) -> (r: Result<InferenceRuntimeStatus, String>)
    ensures
        match result {
            Ok(_) => r matches Ok(s) && s@ == status_for(
                *config,
                Some(model_id@),
                cuda_available,
                OnnxExecutionDevice::Cpu,
                true,
                "Auto mode fell back to CPU after GPU initialization failure"@,
                Some(gpu_error@),
                now_ms,
            ),
            Err(cpu_error) => r matches Err(e) && e@
                == "Auto inference initialization failed. GPU attempt: "@ + gpu_error@
                + "; CPU fallback attempt: "@ + cpu_error@,
        },
{
    match result {
        Ok(_) => Ok(
            build_success_runtime_status(
                config,
                model_id,
                cuda_available,
                OnnxExecutionDevice::Cpu,
                true,
                "Auto mode fell back to CPU after GPU initialization failure".to_owned(),
                Some(gpu_error),
                now_ms,
            ),
        ),
        Err(cpu_error) => {
            let mut e = concat2(
                "Auto inference initialization failed. GPU attempt: ",
                gpu_error.as_str(),
            );
            e.append("; CPU fallback attempt: ");
            e.append(cpu_error.as_str());
            Err(e)
        },
    }
}

/// A model is never tried on a graphics device that is not there or that the policy rules out, and
/// the processor is tried as a second choice only where the policy leaves the choice open.
pub proof fn law_devices_follow_the_policy(
    engine: EngineType,
    policy: InferenceDevicePolicy,
    cuda_available: bool,
)
    ensures
        first_device(engine, policy, cuda_available) == Some(OnnxExecutionDevice::Gpu)
            ==> cuda_available && policy != InferenceDevicePolicy::Cpu && engine
            != EngineType::Whisper,
        first_device(engine, policy, cuda_available) is None <==> engine != EngineType::Whisper
            && policy == InferenceDevicePolicy::Gpu && !cuda_available,
        may_fall_back(engine, policy, cuda_available) ==> policy == InferenceDevicePolicy::Auto
            && first_device(engine, policy, cuda_available) == Some(OnnxExecutionDevice::Gpu),
{
}

/// The providers always hold at least one, the graphics device comes first where it is used, and
/// the processor is left out only where it was not allowed as a second choice.
pub proof fn law_some_provider_is_used(params: OnnxExecutionParams, cuda_available: bool)
    ensures
        providers_for(params, cuda_available).len() > 0,
        uses_gpu(params, cuda_available) <==> providers_for(params, cuda_available)[0]
            == ExecutionProvider::Cuda(params.gpu_device_id),
        !providers_for(params, cuda_available).contains(ExecutionProvider::Cpu) ==> uses_gpu(
            params,
            cuda_available,
        ) && !params.allow_cpu_fallback,
{
    let p = providers_for(params, cuda_available);
    if !uses_gpu(params, cuda_available) {
        assert(p[0] == ExecutionProvider::Cpu);
    } else if params.allow_cpu_fallback {
        assert(p[1] == ExecutionProvider::Cpu);
    }
}

/// Whisper always starts on the processor, and so does every model that is to run there. Where there
/// is a graphics device, any other model starts on it; without one, only a model that may run
/// anywhere starts, on the processor.
pub proof fn law_graphics_device_is_used_where_allowed(
    engine: EngineType,
    policy: InferenceDevicePolicy,
    cuda_available: bool,
)
    ensures
        engine == EngineType::Whisper || policy == InferenceDevicePolicy::Cpu ==> first_device(
            engine,
            policy,
            cuda_available,
        ) == Some(OnnxExecutionDevice::Cpu),
        engine != EngineType::Whisper && policy != InferenceDevicePolicy::Cpu ==> first_device(
            engine,
            policy,
            true,
        ) == Some(OnnxExecutionDevice::Gpu),
        engine != EngineType::Whisper && policy == InferenceDevicePolicy::Auto ==> first_device(
            engine,
            policy,
            false,
        ) == Some(OnnxExecutionDevice::Cpu),
        may_fall_back(engine, policy, cuda_available) <==> policy == InferenceDevicePolicy::Auto
            && first_device(engine, policy, cuda_available) == Some(OnnxExecutionDevice::Gpu),
{
}

/// What the settings ask for is what a status says was asked for, and the number of the graphics
/// device is the one that was set, or 0 where that is negative.
pub proof fn law_status_says_what_was_asked_for(
    config: DeviceConfig,
    model_id: Option<Seq<char>>,
    cuda_available: bool,
    effective_device: OnnxExecutionDevice,
    fallback_used: bool,
    reason: Seq<char>,
    last_error: Option<Seq<char>>,
    now_ms: u64,
)
    ensures
        ({
            let s = status_for(
                config,
                model_id,
                cuda_available,
                effective_device,
                fallback_used,
                reason,
                last_error,
                now_ms,
            );
            &&& s.policy == config.inference_device_policy
            &&& device_name(s.requested_device) == crate::settings::policy_name(s.policy)
            &&& config.inference_gpu_device_id >= 0 ==> s.requested_gpu_device_id
                == config.inference_gpu_device_id
            &&& config.inference_gpu_device_id < 0 ==> s.requested_gpu_device_id == 0
            &&& s.effective_device == effective_device && s.fallback_used == fallback_used
            &&& s.cuda_available == cuda_available && s.reason == reason
            &&& s.last_error == last_error && s.model_id == model_id && s.updated_ms == now_ms
        }),
{
}

/// Before a model is loaded the status names none and no error; after a failure it names the model,
/// and the error is the reason.
pub proof fn law_failures_name_model_and_reason(
    config: DeviceConfig,
    model_id: Seq<char>,
    message: Seq<char>,
    cuda_available: bool,
    now_ms: u64,
)
    ensures
        ({
            let p = pending_status(config, message, cuda_available, now_ms);
            let f = failure_status(config, model_id, message, cuda_available, now_ms);
            &&& p.model_id is None && p.last_error is None && p.reason == message
            &&& f.model_id == Some(model_id) && f.last_error == Some(message) && f.reason == message
            &&& !p.fallback_used && !f.fallback_used
            &&& p.effective_device == OnnxExecutionDevice::Cpu && f.effective_device
                == OnnxExecutionDevice::Cpu
            &&& p.cuda_available == cuda_available && f.cuda_available == cuda_available
            &&& p.updated_ms == now_ms && f.updated_ms == now_ms
        }),
{
}

/// The processor is tried last, and alone where it is asked for or no graphics device is there; with
/// one, that device is tried first, and the processor only where it may be fallen back to.
pub proof fn law_processor_is_tried_last(id: i32, fallback: bool, cuda: bool)
    ensures
        ({
            let cpu = OnnxExecutionParams {
                device: OnnxExecutionDevice::Cpu,
                gpu_device_id: id,
                allow_cpu_fallback: fallback,
            };
            let gpu = OnnxExecutionParams { device: OnnxExecutionDevice::Gpu, ..cpu };
            let auto = OnnxExecutionParams { device: OnnxExecutionDevice::Auto, ..cpu };
            &&& providers_for(cpu, cuda) == seq![ExecutionProvider::Cpu]
            &&& providers_for(gpu, false) == seq![ExecutionProvider::Cpu]
            &&& providers_for(gpu, cuda) == providers_for(auto, cuda)
            &&& providers_for(gpu, true).first() == ExecutionProvider::Cuda(id)
            &&& providers_for(gpu, true).len() == (if fallback {
                2int
            } else {
                1
            })
            &&& fallback ==> providers_for(gpu, true).last() == ExecutionProvider::Cpu
        }),
{
    let cpu = OnnxExecutionParams {
        device: OnnxExecutionDevice::Cpu,
        gpu_device_id: id,
        allow_cpu_fallback: fallback,
    };
    let gpu = OnnxExecutionParams { device: OnnxExecutionDevice::Gpu, ..cpu };
    assert(providers_for(gpu, false) =~= seq![ExecutionProvider::Cpu]);
}

/// A reason that speaks of a graphics device ends with the number of the device that is used.
pub proof fn law_reasons_name_the_device(engine: EngineType, config: DeviceConfig, cuda: bool)
    requires
        first_device(engine, config.inference_device_policy, cuda) == Some(OnnxExecutionDevice::Gpu),
    ensures
        ({
            let r = first_reason(engine, config, cuda);
            let n = text::dec_signed(gpu_id(config) as int);
            r.len() >= n.len() && r.skip(r.len() - n.len()) == n
        }),
{
    let r = first_reason(engine, config, cuda);
    let n = text::dec_signed(gpu_id(config) as int);
    assert(r.skip(r.len() - n.len()) =~= n);
}

/// A reason says that a graphics device is used, and which, exactly if one is; and that the processor
/// was asked for exactly if it was.
pub proof fn law_resolutions_name_the_device(params: OnnxExecutionParams, cuda: bool)
    ensures
        ({
            let r = resolution_reason(params, cuda);
            let n = text::dec_signed(params.gpu_device_id as int);
            &&& uses_gpu(params, cuda) ==> r.len() >= n.len() && r.skip(r.len() - n.len()) == n
            &&& params.device == OnnxExecutionDevice::Cpu ==> r == "CPU mode requested"@
            &&& params.device == OnnxExecutionDevice::Auto && !cuda ==> text::has_suffix(
                r,
                "falling back to CPU"@,
            )
            &&& params.device == OnnxExecutionDevice::Gpu && !cuda ==> text::has_suffix(
                r,
                "using CPU"@,
            )
        }),
{
    let r = resolution_reason(params, cuda);
    let n = text::dec_signed(params.gpu_device_id as int);
    reveal_strlit("CUDA provider unavailable, falling back to CPU");
    reveal_strlit("falling back to CPU");
    reveal_strlit("GPU mode requested but CUDA provider unavailable; using CPU");
    reveal_strlit("using CPU");
    if uses_gpu(params, cuda) {
        assert(r.skip(r.len() - n.len()) =~= n);
    }
    if params.device == OnnxExecutionDevice::Auto && !cuda {
        assert(r.subrange(r.len() - 19, r.len() as int) =~= "falling back to CPU"@);
    }
    if params.device == OnnxExecutionDevice::Gpu && !cuda {
        assert(r.subrange(r.len() - 9, r.len() as int) =~= "using CPU"@);
    }
}

} // verus!
