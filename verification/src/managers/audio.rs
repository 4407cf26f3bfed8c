//! The microphone: whether its stream is open, who records, and what is muted.
//!
//! The manager decides; opening streams, talking to the recorder and muting the speakers is done
//! by its caller, who reports what came of it.

use crate::text;
use crate::text::{contains, copy_opt, same_text};
use vstd::prelude::*;
use vstd::string::*;

verus! {

/// The rate at which the models expect samples, per second.
pub const WHISPER_SAMPLE_RATE: usize = 16000;

/// What a short recording is filled up to.
pub const PADDED_SAMPLES: usize = 20000;

/// Whether something records, and for whom.
pub enum RecordingState {
    Idle,
    Recording { binding_id: String },
}

/// Whether the microphone stays open between recordings.
#[derive(Clone, Copy, Debug, PartialEq, Eq, Structural)]
pub enum MicrophoneMode {
    AlwaysOn,
    OnDemand,
}

/// Why a recording did not start.
pub enum RecordingStartError {
    Busy { active_binding_id: Option<String> },
    NoInputDevice,
    VadModelMissing,
    MicrophoneOpenFailed(String),
    RecorderUnavailable,
    RecorderStartFailed(String),
}

/// The short name of each start error.
pub open spec fn error_code(e: RecordingStartError) -> Seq<char> {
    match e {
        RecordingStartError::Busy { .. } => "busy"@,
        RecordingStartError::NoInputDevice => "no_input_device"@,
        RecordingStartError::VadModelMissing => "vad_model_missing"@,
        RecordingStartError::MicrophoneOpenFailed(_) => "mic_open_failed"@,
        RecordingStartError::RecorderUnavailable => "recorder_unavailable"@,
        RecordingStartError::RecorderStartFailed(_) => "recorder_start_failed"@,
    }
}

/// What each start error says.
pub open spec fn error_detail(e: RecordingStartError) -> Seq<char> {
    match e {
        RecordingStartError::Busy { active_binding_id: Some(b) } =>
            "Recording already active for binding "@ + b@,
        RecordingStartError::Busy { active_binding_id: None } => "Recording already active"@,
        RecordingStartError::NoInputDevice => "No input device found"@,
        RecordingStartError::VadModelMissing => "Silero VAD model is missing"@,
        RecordingStartError::MicrophoneOpenFailed(msg) => msg@,
        RecordingStartError::RecorderUnavailable => "Recorder is not available"@,
        RecordingStartError::RecorderStartFailed(msg) => msg@,
    }
}

impl RecordingStartError {
    /// The error's short name.
    pub fn code(&self) -> (r: &'static str)
        ensures
            r@ == error_code(*self),
    {
        match self {
            RecordingStartError::Busy { .. } => "busy",
            RecordingStartError::NoInputDevice => "no_input_device",
            RecordingStartError::VadModelMissing => "vad_model_missing",
            RecordingStartError::MicrophoneOpenFailed(_) => "mic_open_failed",
            RecordingStartError::RecorderUnavailable => "recorder_unavailable",
            RecordingStartError::RecorderStartFailed(_) => "recorder_start_failed",
        }
    }

    /// What the error says.
    pub fn detail(&self) -> (r: String)
        ensures
            r@ == error_detail(*self),
    {
        match self {
            RecordingStartError::Busy { active_binding_id } => match active_binding_id {
                Some(binding) => {
                    let mut r = "Recording already active for binding ".to_owned();
                    r.append(binding.as_str());
                    r
                },
                None => "Recording already active".to_owned(),
            },
            RecordingStartError::NoInputDevice => "No input device found".to_owned(),
            RecordingStartError::VadModelMissing => "Silero VAD model is missing".to_owned(),
            RecordingStartError::MicrophoneOpenFailed(msg) => msg.clone(),
            RecordingStartError::RecorderUnavailable => "Recorder is not available".to_owned(),
            RecordingStartError::RecorderStartFailed(msg) => msg.clone(),
        }
    }
}

/// The start error that a failure to open the microphone amounts to.
pub fn map_open_failure_to_start_error(message: &str) -> (e: RecordingStartError)
    ensures
        if text::occurs_in(message@, "No input device found"@) {
            e is NoInputDevice
        } else if text::occurs_in(message@, "Silero VAD model not found"@) {
            e is VadModelMissing
        } else {
            e matches RecordingStartError::MicrophoneOpenFailed(m) && m@ == message@
        },
{
    if contains(message, "No input device found") {
        RecordingStartError::NoInputDevice
    } else if contains(message, "Silero VAD model not found") {
        RecordingStartError::VadModelMissing
    } else {
        RecordingStartError::MicrophoneOpenFailed(message.to_owned())
    }
}

/// What the manager holds.
pub struct MicView {
    /// The binding that records, if one does.
    pub recording: Option<Seq<char>>,
    pub mode: MicrophoneMode,
    pub selected: Option<Seq<char>>,
    pub mute_while_recording: bool,
    pub has_recorder: bool,
    pub is_open: bool,
    pub did_mute: bool,
}

/// The microphone's book-keeping.
pub struct AudioRecordingManager {
    state: RecordingState,
    mode: MicrophoneMode,
    selected_microphone: Option<String>,
    mute_while_recording: bool,
    has_recorder: bool,
    is_open: bool,
    did_mute: bool,
}

pub open spec fn recording_of(s: RecordingState) -> Option<Seq<char>> {
    match s {
        RecordingState::Idle => None,
        RecordingState::Recording { binding_id } => Some(binding_id@),
    }
}

impl View for AudioRecordingManager {
    type V = MicView;

    closed spec fn view(&self) -> MicView {
        MicView {
            recording: recording_of(self.state),
            mode: self.mode,
            selected: text::opt_view(self.selected_microphone),
            mute_while_recording: self.mute_while_recording,
            has_recorder: self.has_recorder,
            is_open: self.is_open,
            did_mute: self.did_mute,
        }
    }
}

/// An open stream belongs to a recorder, and the speakers are muted only while it is open.
pub open spec fn mic_consistent(m: MicView) -> bool {
    &&& m.is_open ==> m.has_recorder
    &&& m.did_mute ==> m.is_open
}

/// The microphone mode that a setting asks for.
pub open spec fn mode_of(always_on: bool) -> MicrophoneMode {
    if always_on {
        MicrophoneMode::AlwaysOn
    } else {
        MicrophoneMode::OnDemand
    }
}

/// The microphone mode that a setting asks for.
pub fn mode_from_settings(always_on_microphone: bool) -> (m: MicrophoneMode)
    ensures
        m == mode_of(always_on_microphone),
{
    if always_on_microphone {
        MicrophoneMode::AlwaysOn
    } else {
        MicrophoneMode::OnDemand
    }
}

/// What has to be done to open the stream.
#[derive(Clone, Copy, Debug, PartialEq, Eq, Structural)]
pub enum StreamStart {
    AlreadyOpen,
    /// Open the recorder that there is.
    Open,
    /// Create a recorder, then open it.
    CreateAndOpen,
}

/// What has to be done to close the stream.
#[derive(Clone, Copy, Debug, PartialEq, Eq, Structural)]
pub struct StreamStop {
    /// Unmute the speakers.
    pub unmute: bool,
    /// Stop the recorder and drop what it recorded.
    pub stop_recorder: bool,
    /// Close the recorder.
    pub close_recorder: bool,
}

/// What has to be done when the microphone mode changes.
#[derive(Clone, Copy, Debug, PartialEq, Eq, Structural)]
pub enum ModeChange {
    Nothing,
    StopStream,
    StartStream,
}

/// What has to be done to start a recording.
#[derive(Clone, Copy, Debug, PartialEq, Eq, Structural)]
pub enum StartPlan {
    /// Open the stream, then start the recorder.
    OpenThenStart,
    /// Start the recorder.
    Start,
}

/// What has to be done to cancel a recording.
#[derive(Clone, Copy, Debug, PartialEq, Eq, Structural)]
pub struct CancelPlan {
    pub unmute: bool,
    pub stop_recorder: bool,
    pub stop_stream: bool,
}

/// The manager once its stream is closed.
pub open spec fn stream_stopped(m: MicView) -> MicView {
    if !m.is_open {
        m
    } else {
        MicView { recording: None, is_open: false, did_mute: false, ..m }
    }
}

/// What closing the stream takes.
pub open spec fn stop_needs(m: MicView) -> StreamStop {
    StreamStop {
        unmute: m.is_open && m.did_mute,
        stop_recorder: m.is_open && m.recording is Some,
        close_recorder: m.is_open,
    }
}

/// What a change of mode takes: a microphone that is always on opens at once, one that is opened
/// on demand closes unless something records.
pub open spec fn mode_change_needs(m: MicView, new_mode: MicrophoneMode) -> ModeChange {
    match (m.mode, new_mode) {
        (MicrophoneMode::AlwaysOn, MicrophoneMode::OnDemand) => if m.recording is None {
            ModeChange::StopStream
        } else {
            ModeChange::Nothing
        },
        (MicrophoneMode::OnDemand, MicrophoneMode::AlwaysOn) => ModeChange::StartStream,
        _ => ModeChange::Nothing,
    }
}

/// A recording that is too short for a model is filled up with silence.
pub open spec fn padded<T>(samples: Seq<T>, silence: T) -> Seq<T> {
    if 0 < samples.len() < WHISPER_SAMPLE_RATE {
        samples + Seq::new((PADDED_SAMPLES - samples.len()) as nat, |i: int| silence)
    } else {
        samples
    }
}

/// Fills a recording that is too short for a model up with silence.
pub fn pad_short_recording<T: Copy>(samples: Vec<T>, silence: T) -> (r: Vec<T>)
    ensures
        r@ == padded(samples@, silence),
{
    let mut r = samples;
    if r.len() > 0 && r.len() < WHISPER_SAMPLE_RATE {
        let n: usize = r.len();
        while r.len() < PADDED_SAMPLES
            invariant
                n == samples@.len(),
                n <= r@.len() <= PADDED_SAMPLES,
                r@ == samples@ + Seq::new((r@.len() - n) as nat, |i: int| silence),
            decreases PADDED_SAMPLES - r@.len(),
        {
            let ghost before = r@;
            r.push(silence);
            assert(r@ =~= samples@ + Seq::new((r@.len() - n) as nat, |i: int| silence));
        }
    } else {
        assert(r@ =~= samples@);
    }
    r
}

/// The position of the device with the given name.
pub fn device_position(names: &Vec<String>, wanted: &str) -> (r: Option<usize>)
    ensures
        match r {
            Some(i) => i < names@.len() && names@[i as int]@ == wanted@ && forall|k: int|
                0 <= k < i ==> (#[trigger] names@[k])@ != wanted@,
            None => forall|k: int| 0 <= k < names@.len() ==> (#[trigger] names@[k])@ != wanted@,
        },
{
    let mut i: usize = 0;
    while i < names.len()
        invariant
            i <= names@.len(),
            forall|k: int| 0 <= k < i ==> (#[trigger] names@[k])@ != wanted@,
        decreases names@.len() - i,
    {
        if same_text(names[i].as_str(), wanted) {
            return Some(i);
        }
        i += 1;
    }
    None
}

/// A command line: the program and its arguments.
pub open spec fn mute_command(mute: bool, tool: nat) -> Seq<Seq<char>> {
    let value = if mute {
        "1"@
    } else {
        "0"@
    };
    if tool == 0 {
        seq!["wpctl"@, "set-mute"@, "@DEFAULT_AUDIO_SINK@"@, value]
    } else if tool == 1 {
        seq!["pactl"@, "set-sink-mute"@, "@DEFAULT_SINK@"@, value]
    } else {
        seq![
            "amixer"@,
            "set"@,
            "Master"@,
            if mute {
                "mute"@
            } else {
                "unmute"@
            },
        ]
    }
}

/// How the speakers are muted or unmuted after some tools have failed: the command line of the
/// next tool, the program first; nothing once all have been tried.
pub fn set_mute(mute: bool, failed: usize) -> (r: Option<Vec<String>>)
    ensures
        match r {
            Some(args) => failed < 3 && text::views(args@) == mute_command(mute, failed as nat),
            None => failed >= 3,
        },
{
    let mut args: Vec<String> = Vec::new();
    if failed == 0 {
        args.push("wpctl".to_owned());
        args.push("set-mute".to_owned());
        args.push("@DEFAULT_AUDIO_SINK@".to_owned());
    } else if failed == 1 {
        args.push("pactl".to_owned());
        args.push("set-sink-mute".to_owned());
        args.push("@DEFAULT_SINK@".to_owned());
    } else if failed == 2 {
        args.push("amixer".to_owned());
        args.push("set".to_owned());
        args.push("Master".to_owned());
        if mute {
            args.push("mute".to_owned());
        } else {
            args.push("unmute".to_owned());
        }
        assert(text::views(args@) =~= mute_command(mute, 2));
        return Some(args);
    } else {
        return None;
    }
    if mute {
        args.push("1".to_owned());
    } else {
        args.push("0".to_owned());
    }
    assert(text::views(args@) =~= mute_command(mute, failed as nat));
    Some(args)
}

/// The voice detector's model file: the installed one where it exists, else the one beside the
/// program.
pub fn resolve_vad_model_path(installed_exists: bool, local_exists: bool) -> (r: Option<String>)
    ensures
        match r {
            Some(p) => if installed_exists {
                p@ == "/usr/share/dikt/models/silero_vad_v4.onnx"@
            } else {
                local_exists && p@ == "resources/models/silero_vad_v4.onnx"@
            },
            None => !installed_exists && !local_exists,
        },
{
    if installed_exists {
        Some("/usr/share/dikt/models/silero_vad_v4.onnx".to_owned())
    } else if local_exists {
        Some("resources/models/silero_vad_v4.onnx".to_owned())
    } else {
        None
    }
}

impl AudioRecordingManager {
    /// The book-keeping is consistent.
    pub open spec fn wf(&self) -> bool {
        mic_consistent(self@)
    }

    /// A manager whose stream is closed.
    pub fn new(
        always_on_microphone: bool,
        selected_microphone: Option<String>,
        mute_while_recording: bool,
    ) -> (m: Self)
        ensures
            m.wf(),
            m@ == (MicView {
                recording: None,
                mode: mode_of(always_on_microphone),
                selected: text::opt_view(selected_microphone),
                mute_while_recording,
                has_recorder: false,
                is_open: false,
                did_mute: false,
            }),
    {
        AudioRecordingManager {
            state: RecordingState::Idle,
            mode: mode_from_settings(always_on_microphone),
            selected_microphone,
            mute_while_recording,
            has_recorder: false,
            is_open: false,
            did_mute: false,
        }
    }

    /// The stream that was to stay open could not be opened: it is opened on demand instead.
    pub fn fall_back_to_on_demand(&mut self)
        requires
            old(self).wf(),
        ensures
            final(self).wf(),
            final(self)@ == (MicView { mode: MicrophoneMode::OnDemand, ..old(self)@ }),
    {
        self.mode = MicrophoneMode::OnDemand;
    }

    /// The mode that the microphone is in.
    pub fn mode(&self) -> (m: MicrophoneMode)
        ensures
            m == self@.mode,
    {
        self.mode
    }

    /// The microphone that is selected.
    pub fn selected_microphone(&self) -> (r: Option<String>)
        ensures
            text::opt_view(r) == self@.selected,
    {
        copy_opt(&self.selected_microphone)
    }

    /// Whether the speakers are to be muted now; they then count as muted.
    pub fn apply_mute(&mut self) -> (mute: bool)
        requires
            old(self).wf(),
        ensures
            final(self).wf(),
            mute == (old(self)@.mute_while_recording && old(self)@.is_open),
            final(self)@ == (MicView { did_mute: old(self)@.did_mute || mute, ..old(self)@ }),
    {
        if self.mute_while_recording && self.is_open {
            self.did_mute = true;
            true
        } else {
            false
        }
    }

    /// Whether the speakers are to be unmuted: exactly if they were muted.
    pub fn remove_mute(&mut self) -> (unmute: bool)
        requires
            old(self).wf(),
        ensures
            final(self).wf(),
            unmute == old(self)@.did_mute,
            final(self)@ == (MicView { did_mute: false, ..old(self)@ }),
    {
        let unmute: bool = self.did_mute;
        self.did_mute = false;
        unmute
    }

    /// What has to be done to open the stream.
    pub fn start_microphone_stream(&mut self) -> (r: StreamStart)
        requires
            old(self).wf(),
        ensures
            final(self).wf(),
            r == (if old(self)@.is_open {
                StreamStart::AlreadyOpen
            } else if old(self)@.has_recorder {
                StreamStart::Open
            } else {
                StreamStart::CreateAndOpen
            }),
            final(self)@ == (if old(self)@.is_open {
                old(self)@
            } else {
                MicView { did_mute: false, ..old(self)@ }
            }),
    {
        if self.is_open {
            return StreamStart::AlreadyOpen;
        }
        self.did_mute = false;
        if self.has_recorder {
            StreamStart::Open
        } else {
            StreamStart::CreateAndOpen
        }
    }

    /// A recorder was created.
    pub fn recorder_created(&mut self)
        requires
            old(self).wf(),
        ensures
            final(self).wf(),
            final(self)@ == (MicView { has_recorder: true, ..old(self)@ }),
    {
        self.has_recorder = true;
    }

    /// The recorder was opened.
    pub fn stream_opened(&mut self)
        requires
            old(self).wf(),
            old(self)@.has_recorder,
        ensures
            final(self).wf(),
            final(self)@ == (MicView { is_open: true, ..old(self)@ }),
    {
        self.is_open = true;
    }

    /// Closes the stream: what has to be done for it.
    pub fn stop_microphone_stream(&mut self) -> (r: StreamStop)
        requires
            old(self).wf(),
        ensures
            final(self).wf(),
            r == stop_needs(old(self)@),
            final(self)@ == stream_stopped(old(self)@),
    {
        if !self.is_open {
            return StreamStop { unmute: false, stop_recorder: false, close_recorder: false };
        }
        let unmute: bool = self.did_mute;
        self.did_mute = false;
        let stop_recorder: bool = match self.state {
            RecordingState::Recording { .. } => true,
            RecordingState::Idle => false,
        };
        self.state = RecordingState::Idle;
        self.is_open = false;
        StreamStop { unmute, stop_recorder, close_recorder: true }
    }

    /// What has to be done before the microphone's mode changes.
    pub fn mode_change(&self, new_mode: MicrophoneMode) -> (r: ModeChange)
        ensures
            r == mode_change_needs(self@, new_mode),
    {
        match (self.mode, new_mode) {
            (MicrophoneMode::AlwaysOn, MicrophoneMode::OnDemand) => match self.state {
                RecordingState::Idle => ModeChange::StopStream,
                RecordingState::Recording { .. } => ModeChange::Nothing,
            },
            (MicrophoneMode::OnDemand, MicrophoneMode::AlwaysOn) => ModeChange::StartStream,
            _ => ModeChange::Nothing,
        }
    }

    /// The microphone's mode changes. A stream that was to be opened for it and could not be
    /// leaves the mode as it was.
    pub fn update_mode(&mut self, new_mode: MicrophoneMode, stream_failed: bool)
        requires
            old(self).wf(),
        ensures
            final(self).wf(),
            final(self)@ == (if mode_change_needs(old(self)@, new_mode) == ModeChange::StartStream
                && stream_failed {
                old(self)@
            } else {
                MicView { mode: new_mode, ..old(self)@ }
            }),
    {
        if self.mode_change(new_mode) == ModeChange::StartStream && stream_failed {
            return;
        }
        self.mode = new_mode;
    }

    /// Sets whether the speakers are muted while something records.
    pub fn set_mute_while_recording(&mut self, value: bool)
        requires
            old(self).wf(),
        ensures
            final(self).wf(),
            final(self)@ == (MicView { mute_while_recording: value, ..old(self)@ }),
    {
        self.mute_while_recording = value;
    }

    /// Selects a microphone, and tells whether the stream is open and has to be reopened for it.
    pub fn set_selected_microphone(&mut self, value: Option<String>) -> (reopen: bool)
        requires
            old(self).wf(),
        ensures
            final(self).wf(),
            final(self)@ == (MicView { selected: text::opt_view(value), ..old(self)@ }),
            reopen == old(self)@.is_open,
    {
        self.selected_microphone = value;
        self.is_open
    }

    /// What has to be done to start a recording, or who records already.
    pub fn plan_start(&self) -> (r: Result<StartPlan, RecordingStartError>)
        ensures
            match r {
                Ok(plan) => self@.recording is None && plan == (if self@.mode
                    == MicrophoneMode::OnDemand {
                    StartPlan::OpenThenStart
                } else {
                    StartPlan::Start
                }),
                Err(e) => self@.recording is Some && (e matches RecordingStartError::Busy {
                    active_binding_id: Some(b),
                } && Some(b@) == self@.recording),
            },
    {
        match &self.state {
            RecordingState::Idle => Ok(
                if self.mode == MicrophoneMode::OnDemand {
                    StartPlan::OpenThenStart
                } else {
                    StartPlan::Start
                },
            ),
            RecordingState::Recording { binding_id } => Err(
                RecordingStartError::Busy { active_binding_id: Some(binding_id.clone()) },
            ),
        }
    }

    /// The recorder was asked to start: `None` where there was no recorder. The binding records
    /// exactly if nothing else did and the recorder started.
    pub fn try_start_recording(
        &mut self,
        binding_id: &str,
        opened: Result<(), String>,
        started: Option<Result<(), String>>,
    ) -> (r: Result<(), RecordingStartError>)
        requires
            old(self).wf(),
        ensures
            final(self).wf(),
            r is Ok ==> final(self)@ == (MicView { recording: Some(binding_id@), ..old(self)@ }),
            r is Err ==> final(self)@ == old(self)@,
            r is Ok <==> old(self)@.recording is None && (old(self)@.mode
                == MicrophoneMode::OnDemand ==> opened is Ok) && started is Some && started->0 is Ok,
            r matches Err(e) ==> if old(self)@.recording is Some {
                e matches RecordingStartError::Busy { active_binding_id: Some(b) } && Some(b@)
                    == old(self)@.recording
            } else if old(self)@.mode == MicrophoneMode::OnDemand && opened is Err {
                if text::occurs_in(opened->Err_0@, "No input device found"@) {
                    e is NoInputDevice
                } else if text::occurs_in(opened->Err_0@, "Silero VAD model not found"@) {
                    e is VadModelMissing
                } else {
                    e matches RecordingStartError::MicrophoneOpenFailed(m) && m@
                        == opened->Err_0@
                }
            } else {
                match started {
                    Some(Err(detail)) => e matches RecordingStartError::RecorderStartFailed(d)
                        && d@ == detail@,
                    _ => e is RecorderUnavailable,
                }
            },
    {
        match self.plan_start() {
            Err(busy) => Err(busy),
            Ok(plan) => {
                if plan == StartPlan::OpenThenStart {
                    if let Err(message) = opened {
                        return Err(map_open_failure_to_start_error(message.as_str()));
                    }
                }
                match started {
                    Some(Ok(())) => {
                        self.state = RecordingState::Recording { binding_id: binding_id.to_owned() };
                        Ok(())
                    },
                    Some(Err(detail)) => Err(RecordingStartError::RecorderStartFailed(detail)),
                    None => Err(RecordingStartError::RecorderUnavailable),
                }
            },
        }
    }

    /// Whether the binding is the one that records.
    pub fn is_active_binding(&self, binding_id: &str) -> (r: bool)
        ensures
            r == (self@.recording == Some(binding_id@)),
    {
        match &self.state {
            RecordingState::Recording { binding_id: active } => same_text(
                active.as_str(),
                binding_id,
            ),
            RecordingState::Idle => false,
        }
    }

    /// Ends the binding's recording. Nothing comes back where it does not record; otherwise
    /// whether the stream has to be closed once the recorder has handed over its samples.
    pub fn stop_recording(&mut self, binding_id: &str) -> (r: Option<bool>)
        requires
            old(self).wf(),
        ensures
            final(self).wf(),
            match r {
                Some(close) => old(self)@.recording == Some(binding_id@) && final(self)@ == (
                MicView { recording: None, ..old(self)@ }) && close == (old(self)@.mode
                    == MicrophoneMode::OnDemand),
                None => old(self)@.recording != Some(binding_id@) && final(self)@ == old(self)@,
            },
    {
        if self.is_active_binding(binding_id) {
            self.state = RecordingState::Idle;
            Some(self.mode == MicrophoneMode::OnDemand)
        } else {
            None
        }
    }

    /// Whether something records.
    pub fn is_recording(&self) -> (r: bool)
        ensures
            r == (self@.recording is Some),
    {
        match self.state {
            RecordingState::Recording { .. } => true,
            RecordingState::Idle => false,
        }
    }

    /// Cancels whatever records: what has to be done for it.
    pub fn cancel_recording(&mut self) -> (r: Option<CancelPlan>)
        requires
            old(self).wf(),
        ensures
            final(self).wf(),
            match r {
                Some(plan) => old(self)@.recording is Some && final(self)@ == (MicView {
                    recording: None,
                    did_mute: false,
                    ..old(self)@
                }) && plan == (CancelPlan {
                    unmute: old(self)@.did_mute,
                    stop_recorder: old(self)@.has_recorder,
                    stop_stream: old(self)@.mode == MicrophoneMode::OnDemand,
                }),
                None => old(self)@.recording is None && final(self)@ == old(self)@,
            },
    {
        if !self.is_recording() {
            return None;
        }
        self.state = RecordingState::Idle;
        let unmute: bool = self.remove_mute();
        Some(
            CancelPlan {
                unmute,
                stop_recorder: self.has_recorder,
                stop_stream: self.mode == MicrophoneMode::OnDemand,
            },
        )
    }
}

/// A recording of at least one sample is never handed to a model shorter than a second, and keeps
/// every sample it had.
pub proof fn law_padding_keeps_samples<T>(samples: Seq<T>, silence: T)
    ensures
        samples.is_prefix_of(padded(samples, silence)),
        samples.len() > 0 ==> padded(samples, silence).len() >= WHISPER_SAMPLE_RATE,
        samples.len() == 0 ==> padded(samples, silence).len() == 0,
        samples.len() >= WHISPER_SAMPLE_RATE ==> padded(samples, silence) == samples,
        padded(padded(samples, silence), silence) == padded(samples, silence),
{
    assert(padded(samples, silence).take(samples.len() as int) =~= samples);
}

/// However the stream is closed, nothing records afterwards, nothing stays muted, and closing it
/// again asks for nothing.
pub proof fn law_closed_stream_is_quiet(m: MicView)
    requires
        mic_consistent(m),
    ensures
        mic_consistent(stream_stopped(m)),
        !stream_stopped(m).is_open,
        !stream_stopped(m).did_mute,
        m.is_open ==> stream_stopped(m).recording is None,
        stream_stopped(stream_stopped(m)) == stream_stopped(m),
        stop_needs(stream_stopped(m)) == (StreamStop {
            unmute: false,
            stop_recorder: false,
            close_recorder: false,
        }),
{
}

/// A recording of less than a second, 16000 samples, is filled up with silence to 20000; the samples
/// stay in front. Nothing recorded stays nothing.
pub proof fn law_short_recordings_end_in_silence<T>(samples: Seq<T>, silence: T, i: int)
    requires
        0 < samples.len() < 16000,
        0 <= i < 20000,
    ensures
        padded(samples, silence).len() == 20000,
        i < samples.len() ==> padded(samples, silence)[i] == samples[i],
        i >= samples.len() ==> padded(samples, silence)[i] == silence,
{
}

/// Closing an open stream closes the recorder, stops it where something was recorded, and gives back
/// the sound where it was taken; a stream that is not open needs nothing and changes nothing. What
/// was set stays.
pub proof fn law_open_stream_is_closed_down(m: MicView)
    ensures
        m.is_open ==> stop_needs(m).close_recorder && (stop_needs(m).unmute <==> m.did_mute) && (
        stop_needs(m).stop_recorder <==> m.recording is Some),
        !m.is_open ==> stop_needs(m) == (StreamStop {
            unmute: false,
            stop_recorder: false,
            close_recorder: false,
        }) && stream_stopped(m) == m,
        stream_stopped(m).mode == m.mode && stream_stopped(m).selected == m.selected
            && stream_stopped(m).mute_while_recording == m.mute_while_recording && stream_stopped(
            m,
        ).has_recorder == m.has_recorder,
{
}

/// A microphone that is to stay open is opened, one that is no longer to is closed unless it records,
/// and where nothing changes nothing is done.
pub proof fn law_mode_change_opens_or_closes(m: MicView)
    ensures
        m.mode == MicrophoneMode::OnDemand ==> mode_change_needs(m, mode_of(true))
            == ModeChange::StartStream && mode_change_needs(m, mode_of(false))
            == ModeChange::Nothing,
        m.mode == MicrophoneMode::AlwaysOn && m.recording is None ==> mode_change_needs(
            m,
            mode_of(false),
        ) == ModeChange::StopStream,
        m.mode == MicrophoneMode::AlwaysOn && m.recording is Some ==> mode_change_needs(
            m,
            mode_of(false),
        ) == ModeChange::Nothing,
        m.mode == MicrophoneMode::AlwaysOn ==> mode_change_needs(m, mode_of(true))
            == ModeChange::Nothing,
{
}

/// Muting and unmuting are the same command to the same device, but for its last word.
pub proof fn law_unmuting_undoes_muting(tool: nat)
    ensures
        mute_command(true, tool).len() == 4,
        mute_command(false, tool).len() == 4,
        mute_command(true, tool).drop_last() == mute_command(false, tool).drop_last(),
        tool < 2 ==> mute_command(true, tool).last() == "1"@ && mute_command(false, tool).last()
            == "0"@,
        tool >= 2 ==> mute_command(true, tool).last() == "mute"@ && mute_command(
            false,
            tool,
        ).last() == "unmute"@,
        mute_command(true, 0)[0] == "wpctl"@,
        mute_command(true, 1)[0] == "pactl"@,
        mute_command(true, 2)[0] == "amixer"@,
{
    assert(mute_command(true, tool).drop_last() =~= mute_command(false, tool).drop_last());
}

/// What an error of the system said is told as it was; who records is told by its name.
pub proof fn law_start_errors_say_what_happened(msg: String)
    ensures
        error_detail(RecordingStartError::MicrophoneOpenFailed(msg)) == msg@,
        error_detail(RecordingStartError::RecorderStartFailed(msg)) == msg@,
        ({
            let d = error_detail(RecordingStartError::Busy { active_binding_id: Some(msg) });
            d.skip(d.len() - msg@.len()) == msg@
        }),
        error_code(RecordingStartError::Busy { active_binding_id: Some(msg) }) == error_code(
            RecordingStartError::Busy { active_binding_id: None },
        ),
{
    let d = error_detail(RecordingStartError::Busy { active_binding_id: Some(msg) });
    assert(d.skip(d.len() - msg@.len()) =~= msg@);
}

/// A recording of a second or more stays as it is.
pub proof fn law_long_recordings_stay<T>(samples: Seq<T>, silence: T)
    requires
        samples.len() >= 16000 || samples.len() == 0,
    ensures
        padded(samples, silence) == samples,
{
}

} // verus!
