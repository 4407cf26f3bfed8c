//! The recorder's side of the sample stream: what is kept of it, and what is handed out.

use vstd::prelude::*;
use vstd::string::*;

verus! {

/// The rate at which the models expect samples, per second.
pub const TARGET_SAMPLE_RATE: u32 = 16000;

/// What the voice detector made of a frame.
pub enum FrameVerdict<T> {
    /// There is no detector, or it failed: the frame counts as speech.
    Undecided,
    /// Speech, with the samples to keep.
    Speech(Vec<T>),
    Noise,
}

/// A frame and what the voice detector made of it.
pub struct JudgedFrame<T> {
    pub samples: Vec<T>,
    pub verdict: FrameVerdict<T>,
}

/// What is kept of a frame.
pub open spec fn kept<T>(f: JudgedFrame<T>) -> Seq<T> {
    match f.verdict {
        FrameVerdict::Undecided => f.samples@,
        FrameVerdict::Speech(buf) => buf@,
        FrameVerdict::Noise => Seq::empty(),
    }
}

/// What is kept of a run of frames.
pub open spec fn kept_all<T>(frames: Seq<JudgedFrame<T>>) -> Seq<T>
    decreases frames.len(),
{
    if frames.len() == 0 {
        Seq::empty()
    } else {
        kept_all(frames.drop_last()) + kept(frames.last())
    }
}

/// The last `max` samples; all of them for 0.
pub open spec fn window<T>(samples: Seq<T>, max: nat) -> Seq<T> {
    if max == 0 || samples.len() <= max {
        samples
    } else {
        samples.skip(samples.len() - max)
    }
}

/// A command to the recorder.
pub enum RecorderCommand<T> {
    Start,
    /// Stop; the frames are what the resampler still held.
    Stop(Vec<JudgedFrame<T>>),
    Snapshot,
    SnapshotWindow(usize),
    Shutdown,
}

/// What the recorder answers.
pub enum RecorderReply<T> {
    /// A recording has begun: the level display and the voice detector start afresh.
    Started,
    Samples(Vec<T>),
    /// The recorder shuts down.
    Shutdown,
}

/// What the recorder holds.
pub struct RecorderView<T> {
    pub recording: bool,
    pub samples: Seq<T>,
}

/// The recorder's buffer.
pub struct RecorderBuffer<T> {
    recording: bool,
    processed: Vec<T>,
}

impl<T> View for RecorderBuffer<T> {
    type V = RecorderView<T>;

    closed spec fn view(&self) -> RecorderView<T> {
        RecorderView { recording: self.recording, samples: self.processed@ }
    }
}

/// The recorder after a command.
pub open spec fn commanded<T>(r: RecorderView<T>, cmd: RecorderCommand<T>) -> RecorderView<T> {
    match cmd {
        RecorderCommand::Start => RecorderView { recording: true, samples: Seq::empty() },
        RecorderCommand::Stop(_) => RecorderView { recording: false, samples: Seq::empty() },
        _ => r,
    }
}

/// The samples that a command hands out.
pub open spec fn handed_out<T>(r: RecorderView<T>, cmd: RecorderCommand<T>) -> Option<Seq<T>> {
    match cmd {
        RecorderCommand::Stop(frames) => Some(r.samples + kept_all(frames@)),
        RecorderCommand::Snapshot => Some(r.samples),
        RecorderCommand::SnapshotWindow(max) => Some(window(r.samples, max as nat)),
        _ => None,
    }
}

/// The recorder after a frame: one that comes while nothing records is dropped.
pub open spec fn heard<T>(r: RecorderView<T>, frame: JudgedFrame<T>) -> RecorderView<T> {
    if r.recording {
        RecorderView { samples: r.samples + kept(frame), ..r }
    } else {
        r
    }
}

fn extend<T: Copy>(out: &mut Vec<T>, samples: &Vec<T>, from: usize)
    requires
        from <= samples@.len(),
    ensures
        final(out)@ == old(out)@ + samples@.skip(from as int),
{
    let mut i: usize = from;
    assert(out@ =~= old(out)@ + samples@.subrange(from as int, from as int));
    while i < samples.len()
        invariant
            from <= i <= samples@.len(),
            out@ == old(out)@ + samples@.subrange(from as int, i as int),
        decreases samples@.len() - i,
    {
        out.push(samples[i]);
        i += 1;
        assert(out@ =~= old(out)@ + samples@.subrange(from as int, i as int));
    }
    assert(samples@.subrange(from as int, samples@.len() as int) =~= samples@.skip(from as int));
}

fn keep_frame<T: Copy>(out: &mut Vec<T>, frame: &JudgedFrame<T>)
    ensures
        final(out)@ == old(out)@ + kept(*frame),
{
    match &frame.verdict {
        FrameVerdict::Undecided => {
            extend(out, &frame.samples, 0);
            assert(frame.samples@.skip(0) =~= frame.samples@);
        },
        FrameVerdict::Speech(buf) => {
            extend(out, buf, 0);
            assert(buf@.skip(0) =~= buf@);
        },
        FrameVerdict::Noise => {
            assert(out@ + Seq::<T>::empty() =~= out@);
        },
    }
}

impl<T: Copy> RecorderBuffer<T> {
    /// A recorder that holds nothing.
    pub fn new() -> (r: Self)
        ensures
            r@ == (RecorderView { recording: false, samples: Seq::<T>::empty() }),
    {
        RecorderBuffer { recording: false, processed: Vec::new() }
    }

    /// A frame arrived.
    pub fn handle_frame(&mut self, frame: &JudgedFrame<T>)
        ensures
            final(self)@ == heard(old(self)@, *frame),
    {
        if !self.recording {
            return;
        }
        keep_frame(&mut self.processed, frame);
    }

    /// A command arrived.
    pub fn process_cmd(&mut self, cmd: RecorderCommand<T>) -> (r: RecorderReply<T>)
        ensures
            final(self)@ == commanded(old(self)@, cmd),
            match handed_out(old(self)@, cmd) {
                Some(samples) => r matches RecorderReply::Samples(v) && v@ == samples,
                None => match cmd {
                    RecorderCommand::Start => r is Started,
                    _ => r is Shutdown,
                },
            },
    {
        match cmd {
            RecorderCommand::Start => {
                self.processed = Vec::new();
                self.recording = true;
                RecorderReply::Started
            },
            RecorderCommand::Stop(frames) => {
                self.recording = false;
                let ghost before = self.processed@;
                let mut i: usize = 0;
                assert(before + kept_all(frames@.take(0)) =~= before);
                while i < frames.len()
                    invariant
                        i <= frames@.len(),
                        !self.recording,
                        self.processed@ == before + kept_all(frames@.take(i as int)),
                    decreases frames@.len() - i,
                {
                    keep_frame(&mut self.processed, &frames[i]);
                    proof {
                        let next = frames@.take(i + 1);
                        assert(next.drop_last() =~= frames@.take(i as int));
                        assert(next.last() == frames@[i as int]);
                        assert(self.processed@ =~= before + kept_all(next));
                    }
                    i += 1;
                }
                assert(frames@.take(frames@.len() as int) =~= frames@);
                let mut out: Vec<T> = Vec::new();
                std::mem::swap(&mut out, &mut self.processed);
                RecorderReply::Samples(out)
            },
            RecorderCommand::Snapshot => {
                let mut out: Vec<T> = Vec::new();
                extend(&mut out, &self.processed, 0);
                assert(out@ =~= self.processed@);
                RecorderReply::Samples(out)
            },
            RecorderCommand::SnapshotWindow(max_samples) => {
                let mut out: Vec<T> = Vec::new();
                let n: usize = self.processed.len();
                let start: usize = if max_samples == 0 || n <= max_samples {
                    0
                } else {
                    n - max_samples
                };
                extend(&mut out, &self.processed, start);
                assert(out@ =~= window(self.processed@, max_samples as nat));
                RecorderReply::Samples(out)
            },
            RecorderCommand::Shutdown => RecorderReply::Shutdown,
        }
    }
}

/// How samples are encoded.
#[derive(Clone, Copy, Debug, PartialEq, Eq, Structural)]
pub enum SampleFormat {
    F32,
    I16,
    I32,
    Other,
}

/// A configuration that an input device offers.
#[derive(Clone, Copy, Debug)]
pub struct ConfigRange {
    pub min_rate: u32,
    pub max_rate: u32,
    pub format: SampleFormat,
}

/// The device can deliver the rate that the models expect.
pub open spec fn fits(c: ConfigRange) -> bool {
    c.min_rate <= TARGET_SAMPLE_RATE <= c.max_rate
}

/// How much a format is preferred.
pub open spec fn format_score(f: SampleFormat) -> int {
    match f {
        SampleFormat::F32 => 4,
        SampleFormat::I16 => 3,
        SampleFormat::I32 => 2,
        SampleFormat::Other => 1,
    }
}

fn score(f: SampleFormat) -> (r: u8)
    ensures
        r == format_score(f),
{
    match f {
        SampleFormat::F32 => 4,
        SampleFormat::I16 => 3,
        SampleFormat::I32 => 2,
        SampleFormat::Other => 1,
    }
}

/// The configuration to use: among those that fit, the first with the most preferred format. The
/// device's default is used where none fits.
pub fn get_preferred_config(configs: &Vec<ConfigRange>) -> (r: Option<usize>)
    ensures
        match r {
            Some(i) => {
                &&& i < configs@.len() && fits(configs@[i as int])
                &&& forall|k: int|
                    0 <= k < configs@.len() && fits(#[trigger] configs@[k]) ==> format_score(
                        configs@[k].format,
                    ) <= format_score(configs@[i as int].format)
                &&& forall|k: int|
                    0 <= k < i && fits(#[trigger] configs@[k]) ==> format_score(configs@[k].format)
                        < format_score(configs@[i as int].format)
            },
            None => forall|k: int| 0 <= k < configs@.len() ==> !fits(#[trigger] configs@[k]),
        },
{
    let mut best: Option<usize> = None;
    let mut i: usize = 0;
    while i < configs.len()
        invariant
            i <= configs@.len(),
            match best {
                Some(b) => {
                    &&& b < i && fits(configs@[b as int])
                    &&& forall|k: int|
                        0 <= k < i && fits(#[trigger] configs@[k]) ==> format_score(
                            configs@[k].format,
                        ) <= format_score(configs@[b as int].format)
                    &&& forall|k: int|
                        0 <= k < b && fits(#[trigger] configs@[k]) ==> format_score(
                            configs@[k].format,
                        ) < format_score(configs@[b as int].format)
                },
                None => forall|k: int| 0 <= k < i ==> !fits(#[trigger] configs@[k]),
            },
        decreases configs@.len() - i,
    {
        let c = configs[i];
        if c.min_rate <= TARGET_SAMPLE_RATE && c.max_rate >= TARGET_SAMPLE_RATE {
            match best {
                None => {
                    best = Some(i);
                },
                Some(b) => {
                    if score(c.format) > score(configs[b].format) {
                        best = Some(i);
                    }
                },
            }
        }
        i += 1;
    }
    best
}

/// Where the start of the recorder's worker failed.
#[derive(Clone, Copy, Debug, PartialEq, Eq, Structural)]
pub enum StartupStage {
    PreferredConfig,
    BuildStream,
    PlayStream,
    /// The worker did not report in time.
    Report,
}

/// What is said of a failure at a stage.
pub open spec fn stage_text(stage: StartupStage) -> Seq<char> {
    match stage {
        StartupStage::PreferredConfig => "Failed to fetch preferred config: "@,
        StartupStage::BuildStream => "Failed to build input stream: "@,
        StartupStage::PlayStream => "Failed to start input stream: "@,
        StartupStage::Report => "Timed out waiting for recorder startup: "@,
    }
}

/// The message for a recorder that did not start.
pub fn startup_failure_message(stage: StartupStage, error: &str) -> (r: String)
    ensures
        r@ == stage_text(stage) + error@,
{
    let mut r = match stage {
        StartupStage::PreferredConfig => "Failed to fetch preferred config: ".to_owned(),
        StartupStage::BuildStream => "Failed to build input stream: ".to_owned(),
        StartupStage::PlayStream => "Failed to start input stream: ".to_owned(),
        StartupStage::Report => "Timed out waiting for recorder startup: ".to_owned(),
    };
    r.append(error);
    r
}

/// What was handed out at the end of a recording is what was kept of every frame since its start,
/// the flushed ones last; and the recorder then holds nothing.
pub proof fn law_recording_is_what_was_heard<T>(
    r: RecorderView<T>,
    frames: Seq<JudgedFrame<T>>,
    flushed: Vec<JudgedFrame<T>>,
)
    ensures
        ({
            let started = commanded(r, RecorderCommand::<T>::Start);
            let full = heard_run(started, frames);
            let stop = RecorderCommand::Stop(flushed);
            &&& handed_out(full, stop) == Some(kept_all(frames) + kept_all(flushed@))
            &&& commanded(full, stop) == (RecorderView { recording: false, samples: Seq::<T>::empty() })
        }),
{
    let started = commanded(r, RecorderCommand::<T>::Start);
    lemma_heard_run(started, frames);
    assert(Seq::<T>::empty() + kept_all(frames) =~= kept_all(frames));
}

/// The recorder after a run of frames.
pub open spec fn heard_run<T>(r: RecorderView<T>, frames: Seq<JudgedFrame<T>>) -> RecorderView<T>
    decreases frames.len(),
{
    if frames.len() == 0 {
        r
    } else {
        heard(heard_run(r, frames.drop_last()), frames.last())
    }
}

proof fn lemma_heard_run<T>(r: RecorderView<T>, frames: Seq<JudgedFrame<T>>)
    requires
        r.recording,
    ensures
        heard_run(r, frames) == (RecorderView { recording: true, samples: r.samples + kept_all(
            frames,
        ) }),
    decreases frames.len(),
{
    if frames.len() > 0 {
        lemma_heard_run(r, frames.drop_last());
        assert(r.samples + kept_all(frames.drop_last()) + kept(frames.last()) =~= r.samples
            + kept_all(frames));
    } else {
        assert(r.samples + Seq::<T>::empty() =~= r.samples);
    }
}

/// A snapshot changes nothing, and a window is the end of the snapshot and no longer than asked.
pub proof fn law_snapshot_window_is_a_suffix<T>(r: RecorderView<T>, max: usize)
    ensures
        commanded(r, RecorderCommand::<T>::Snapshot) == r,
        commanded(r, RecorderCommand::<T>::SnapshotWindow(max)) == r,
        window(r.samples, max as nat).is_suffix_of(r.samples),
        max > 0 ==> window(r.samples, max as nat).len() <= max,
        handed_out(r, RecorderCommand::<T>::SnapshotWindow(0)) == handed_out(
            r,
            RecorderCommand::<T>::Snapshot,
        ),
{
    let w = window(r.samples, max as nat);
    assert(r.samples.subrange(r.samples.len() - w.len(), r.samples.len() as int) =~= w);
}

/// While a recording runs, all that the detector hands out as speech is recorded, however much it
/// is; of a frame without a verdict the frame is; noise leaves no trace. While none runs, nothing
/// is recorded.
pub proof fn law_speech_is_recorded_in_full<T>(
    r: RecorderView<T>,
    samples: Vec<T>,
    speech: Vec<T>,
)
    ensures
        ({
            let spoken = heard(r, JudgedFrame { samples, verdict: FrameVerdict::Speech(speech) });
            let raw = heard(r, JudgedFrame { samples, verdict: FrameVerdict::Undecided });
            let noise = heard(r, JudgedFrame { samples, verdict: FrameVerdict::Noise });
            &&& r.recording ==> spoken.recording && spoken.samples == r.samples + speech@
            &&& r.recording ==> raw.recording && raw.samples == r.samples + samples@
            &&& noise == r
            &&& !r.recording ==> spoken == r && raw == r
        }),
{
    assert(r.samples + Seq::<T>::empty() =~= r.samples);
}

/// When a recording stops, what is handed out is what was recorded followed by what the frames still
/// under way add, each as if it had come before the stop; the recorder is then idle and empty.
pub proof fn law_stop_flushes_the_last_frames<T>(
    r: RecorderView<T>,
    last: Vec<JudgedFrame<T>>,
    fewer: Vec<JudgedFrame<T>>,
    samples: Vec<T>,
    speech: Vec<T>,
)
    ensures
        last@.len() == 0 ==> handed_out(r, RecorderCommand::Stop(last)) == Some(r.samples),
        last@ == fewer@.push(
            JudgedFrame { samples, verdict: FrameVerdict::Speech(speech) },
        ) ==> handed_out(r, RecorderCommand::Stop(last)) == Some(
            handed_out(r, RecorderCommand::Stop(fewer))->0 + speech@,
        ),
        last@ == fewer@.push(
            JudgedFrame { samples, verdict: FrameVerdict::Undecided },
        ) ==> handed_out(r, RecorderCommand::Stop(last)) == Some(
            handed_out(r, RecorderCommand::Stop(fewer))->0 + samples@,
        ),
        last@ == fewer@.push(JudgedFrame { samples, verdict: FrameVerdict::Noise }) ==> handed_out(
            r,
            RecorderCommand::Stop(last),
        ) == handed_out(r, RecorderCommand::Stop(fewer)),
        !commanded(r, RecorderCommand::Stop(last)).recording,
        commanded(r, RecorderCommand::Stop(last)).samples.len() == 0,
{
    assert(r.samples + Seq::<T>::empty() =~= r.samples);
    if last@.len() > 0 {
        let before = kept_all(last@.drop_last());
        let one = kept(last@.last());
        assert(r.samples + (before + one) =~= r.samples + before + one);
        assert(r.samples + before + Seq::<T>::empty() =~= r.samples + before);
        if last@.drop_last() =~= fewer@ {
        }
    }
}

/// A start begins with nothing, whatever was there before. A snapshot hands out all that is
/// recorded, and a window of it the last samples, as many as asked for or all where there are fewer.
/// Neither changes anything, nor does a shutdown, which hands out nothing.
pub proof fn law_snapshots_are_the_recording<T>(r: RecorderView<T>, max: usize)
    ensures
        commanded(r, RecorderCommand::<T>::Start).recording,
        commanded(r, RecorderCommand::<T>::Start).samples.len() == 0,
        handed_out(r, RecorderCommand::<T>::Start) is None,
        handed_out(r, RecorderCommand::<T>::Shutdown) is None,
        commanded(r, RecorderCommand::<T>::Shutdown) == r,
        commanded(r, RecorderCommand::<T>::Snapshot) == r,
        commanded(r, RecorderCommand::<T>::SnapshotWindow(max)) == r,
        handed_out(r, RecorderCommand::<T>::Snapshot) == Some(r.samples),
        handed_out(r, RecorderCommand::<T>::SnapshotWindow(max)) matches Some(w) && {
            &&& w.len() == (if max == 0 || r.samples.len() <= max {
                r.samples.len()
            } else {
                max as nat
            })
            &&& forall|i: int|
                0 <= i < w.len() ==> #[trigger] w[i] == r.samples[r.samples.len() - w.len() + i]
        },
{
}

/// A device is used at the rate of 16000 samples a second wherever it offers that; among the ways to
/// do so floating-point samples come before 16-bit ones, these before 32-bit ones, and these before
/// any other.
pub proof fn law_formats_are_preferred_in_order(c: ConfigRange)
    ensures
        fits(c) <==> c.min_rate <= 16000 && 16000 <= c.max_rate,
        format_score(SampleFormat::F32) > format_score(SampleFormat::I16),
        format_score(SampleFormat::I16) > format_score(SampleFormat::I32),
        format_score(SampleFormat::I32) > format_score(SampleFormat::Other),
{
}

} // verus!
