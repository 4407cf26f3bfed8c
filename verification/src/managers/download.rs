//! A model's download: what to ask for, what to do with the answer, and what to tell about it.
//!
//! The session decides; requests, streams and files are handled by its caller.

use super::catalog::ModelView;
use super::model;
use super::model::{
    state_event, EntryView, ManagerView, ModelManager, ModelState, ModelStateEvent, StateView,
};
use crate::text;
use crate::text::{concat2, decimal};
use vstd::prelude::*;
use vstd::string::*;

verus! {

/// How many bytes lie between two reports of progress, at least.
pub const PROGRESS_STEP_BYTES: u64 = 1_048_576;

/// Where a model is fetched from, and where it goes.
pub struct DownloadSource {
    pub url: String,
    pub filename: String,
    pub is_directory: bool,
}

/// The file that a download is written to.
pub open spec fn partial_name(filename: Seq<char>) -> Seq<char> {
    filename + ".partial"@
}

/// The file that a download is written to.
pub fn partial_file_name(filename: &str) -> (r: String)
    ensures
        r@ == partial_name(filename@),
{
    concat2(filename, ".partial")
}

/// The file that an archive is unpacked from.
pub fn archive_file_name(filename: &str) -> (r: String)
    ensures
        r@ == filename@ + ".tar.gz"@,
{
    concat2(filename, ".tar.gz")
}

/// Where the model is fetched from, or why it cannot be fetched.
pub fn find_source(manager: &ModelManager, model_id: &str) -> (r: Result<DownloadSource, String>)
    ensures
        match model::entry(manager@.entries, model_id@) {
            None => r matches Err(e) && e@ == model::not_found_text(model_id@),
            Some(m) => match m.info.url {
                None => r matches Err(e) && e@ == "No download URL for model"@,
                Some(url) => r matches Ok(s) && s.url@ == url && s.filename@ == m.info.filename
                    && s.is_directory == m.info.is_directory,
            },
        },
{
    match manager.get_model_info(model_id) {
        None => Err(concat2("Model not found: ", model_id)),
        Some(info) => match info.url {
            None => Err("No download URL for model".to_owned()),
            Some(url) => Ok(
                DownloadSource { url, filename: info.filename, is_directory: info.is_directory },
            ),
        },
    }
}

/// What is done about what already stands where the model goes.
#[derive(Clone, Copy, Debug, PartialEq, Eq, Structural)]
pub enum ExistingStep {
    /// Nothing stands there: download.
    Download,
    /// The model is there: remove what was downloaded of it before, and be done.
    AlreadyThere,
    /// It is of no use: remove it, then download.
    Discard,
}

/// What is done about what already stands where the model goes. A directory counts as the model
/// where it could be validated, repaired if need be; a file always does.
pub fn check_existing(
    is_directory: bool,
    exists: bool,
    validated: Option<bool>,
) -> (r: ExistingStep)
    ensures
        r == (if !exists {
            ExistingStep::Download
        } else if !is_directory || validated == Some(true) {
            ExistingStep::AlreadyThere
        } else {
            ExistingStep::Discard
        }),
{
    if !exists {
        return ExistingStep::Download;
    }
    if !is_directory {
        return ExistingStep::AlreadyThere;
    }
    match validated {
        Some(valid) => if valid {
            ExistingStep::AlreadyThere
        } else {
            ExistingStep::Discard
        },
        None => ExistingStep::Discard,
    }
}

/// Where a download can fail.
#[derive(Clone, Copy, Debug, PartialEq, Eq, Structural)]
pub enum DownloadStage {
    Request,
    OpenPartial,
    CreatePartial,
    Stream,
    Write,
    PrepareArchive,
    Extract,
    Finalize,
}

/// What is said of a failure at a stage.
pub open spec fn stage_text(stage: DownloadStage) -> Seq<char> {
    match stage {
        DownloadStage::Request => "Download request failed: "@,
        DownloadStage::OpenPartial => "Failed to open partial file: "@,
        DownloadStage::CreatePartial => "Failed to create partial file: "@,
        DownloadStage::Stream => "Download stream failed: "@,
        DownloadStage::Write => "Failed to write model data: "@,
        DownloadStage::PrepareArchive => "Failed to prepare archive for extraction: "@,
        DownloadStage::Extract => "Extraction failed: "@,
        DownloadStage::Finalize => "Failed to finalize model download: "@,
    }
}

/// What the service's answer asks for.
pub enum ResponseStep {
    /// The whole file comes although a part was asked for: remove what was downloaded before, and
    /// ask for all of it.
    Restart,
    /// Read the body.
    Stream,
    /// The answer is an error: tell it, and give up with this message.
    Refused(ModelStateEvent, String),
}

/// What a session holds.
pub struct SessionView {
    pub model_id: Seq<char>,
    pub resume_from: u64,
    pub total_bytes: u64,
    pub downloaded: u64,
    pub last_notify: u64,
}

/// A download that is under way.
pub struct DownloadSession {
    model_id: String,
    resume_from: u64,
    total_bytes: u64,
    downloaded: u64,
    last_notify_bytes: u64,
}

impl View for DownloadSession {
    type V = SessionView;

    closed spec fn view(&self) -> SessionView {
        SessionView {
            model_id: self.model_id@,
            resume_from: self.resume_from,
            total_bytes: self.total_bytes,
            downloaded: self.downloaded,
            last_notify: self.last_notify_bytes,
        }
    }
}

/// No progress was reported beyond what has been downloaded.
pub open spec fn session_consistent(s: SessionView) -> bool {
    s.resume_from <= s.last_notify <= s.downloaded
}

/// The status means success.
pub open spec fn is_success(status: u16) -> bool {
    200 <= status < 300
}

/// The session after the service's answer.
pub open spec fn answered(s: SessionView, status: u16) -> SessionView {
    if s.resume_from > 0 && status == 200 {
        SessionView { resume_from: 0, downloaded: 0, last_notify: 0, ..s }
    } else {
        s
    }
}

/// The session after so many bytes have arrived.
pub open spec fn advanced(s: SessionView, bytes: u64) -> SessionView {
    let downloaded = (s.downloaded + bytes) as u64;
    SessionView {
        downloaded,
        last_notify: if downloaded - s.last_notify >= PROGRESS_STEP_BYTES {
            downloaded
        } else {
            s.last_notify
        },
        ..s
    }
}

/// What is told of progress.
pub open spec fn progress_state(s: SessionView, cancel_flag: bool) -> StateView {
    StateView::Downloading {
        bytes_downloaded: s.downloaded,
        bytes_total: s.total_bytes,
        cancel_flag,
    }
}

/// The manager with so many bytes of a model downloaded.
pub open spec fn progressed(m: ManagerView, id: Seq<char>, bytes: u64) -> ManagerView {
    match model::entry(m.entries, id) {
        Some(e) => model::with_entry(
            m,
            id,
            EntryView { info: ModelView { partial_size: bytes, ..e.info }, ..e },
        ),
        None => m,
    }
}

impl DownloadSession {
    /// No progress was reported beyond what has been downloaded.
    pub open spec fn wf(&self) -> bool {
        session_consistent(self@)
    }

    /// Begins a download of the model from a byte on: the session and the event that tells of it,
    /// or why it does not begin.
    pub fn begin(manager: &mut ModelManager, model_id: &str, resume_from: u64) -> (r: Result<
        (Self, ModelStateEvent),
        String,
    >)
        requires
            old(manager).wf(),
        ensures
            final(manager).wf(),
            final(manager)@ == model::download_begun(old(manager)@, model_id@, resume_from),
            match model::entry(old(manager)@.entries, model_id@) {
                None => r matches Err(e) && e@ == model::not_found_text(model_id@),
                Some(e) => if model::may_begin(e) {
                    r matches Ok(p) && p.0.wf() && p.0@ == (SessionView {
                        model_id: model_id@,
                        resume_from,
                        total_bytes: (e.info.size_mb * 1_048_576) as u64,
                        downloaded: resume_from,
                        last_notify: resume_from,
                    }) && p.1@ == (model_id@, progress_state(p.0@, false))
                } else {
                    r matches Err(m) && m@ == model::in_progress_text(model_id@)
                },
            },
    {
        match manager.begin_download(model_id, resume_from) {
            Ok(total_bytes) => {
                let s = DownloadSession {
                    model_id: model_id.to_owned(),
                    resume_from,
                    total_bytes,
                    downloaded: resume_from,
                    last_notify_bytes: resume_from,
                };
                let e = state_event(
                    model_id,
                    ModelState::Downloading {
                        bytes_downloaded: resume_from,
                        bytes_total: total_bytes,
                        cancel_flag: false,
                    },
                );
                Ok((s, e))
            },
            Err(e) => Err(e),
        }
    }

    /// The range to ask for, where a part is already there.
    pub fn range_header(&self) -> (r: Option<String>)
        ensures
            match r {
                Some(h) => self@.resume_from > 0 && h@ == "bytes="@ + text::dec(
                    self@.resume_from as nat,
                ) + "-"@,
                None => self@.resume_from == 0,
            },
    {
        if self.resume_from == 0 {
            return None;
        }
        let mut h = concat2("bytes=", decimal(self.resume_from).as_str());
        h.append("-");
        Some(h)
    }

    /// Whether what arrives is appended to what is already there.
    pub fn appends(&self) -> (r: bool)
        ensures
            r == (self@.resume_from > 0),
    {
        self.resume_from > 0
    }

    /// The service has answered.
    pub fn response_arrived(&mut self, status: u16, status_text: &str) -> (r: ResponseStep)
        requires
            old(self).wf(),
        ensures
            final(self).wf(),
            final(self)@ == answered(old(self)@, status),
            if old(self)@.resume_from > 0 && status == 200 {
                r is Restart
            } else if is_success(status) {
                r is Stream
            } else {
                r matches ResponseStep::Refused(e, m) && e@ == (
                    old(self)@.model_id,
                    StateView::Error { message: "HTTP "@ + status_text@, retryable: true },
                ) && m@ == "Failed to download: HTTP "@ + status_text@
            },
    {
        if self.resume_from > 0 && status == 200 {
            self.resume_from = 0;
            self.downloaded = 0;
            self.last_notify_bytes = 0;
            return ResponseStep::Restart;
        }
        if 200 <= status && status < 300 {
            return ResponseStep::Stream;
        }
        let e = state_event(
            self.model_id.as_str(),
            ModelState::Error { message: concat2("HTTP ", status_text), retryable: true },
        );
        ResponseStep::Refused(e, concat2("Failed to download: HTTP ", status_text))
    }

    /// Whether the download was cancelled: the event that tells that the model can be downloaded
    /// again.
    pub fn check_cancelled(&self, manager: &ModelManager) -> (r: Option<ModelStateEvent>)
        ensures
            match r {
                Some(ev) => (model::entry(manager@.entries, self@.model_id) matches Some(e)
                    && e.cancel == Some(true)) && ev@ == (self@.model_id, StateView::Available),
                None => !(model::entry(manager@.entries, self@.model_id) matches Some(e)
                    && e.cancel == Some(true)),
            },
    {
        if manager.is_cancelled(self.model_id.as_str()) {
            Some(state_event(self.model_id.as_str(), ModelState::Available))
        } else {
            None
        }
    }

    /// So many bytes were written: progress is recorded, and told from time to time, with whether
    /// the download has been cancelled meanwhile.
    pub fn chunk_written(&mut self, manager: &mut ModelManager, bytes: u64) -> (r: Option<
        ModelStateEvent,
    >)
        requires
            old(self).wf(),
            old(manager).wf(),
            old(self)@.downloaded + bytes <= u64::MAX,
        ensures
            final(self).wf(),
            final(manager).wf(),
            final(self)@ == advanced(old(self)@, bytes),
            final(manager)@ == progressed(
                old(manager)@,
                old(self)@.model_id,
                final(self)@.downloaded,
            ),
            match r {
                Some(e) => final(self)@.downloaded - old(self)@.last_notify >= PROGRESS_STEP_BYTES
                    && e@ == (
                    old(self)@.model_id,
                    progress_state(
                        final(self)@,
                        model::entry(old(manager)@.entries, old(self)@.model_id) matches Some(x)
                            && x.cancel == Some(true),
                    ),
                ),
                None => final(self)@.downloaded - old(self)@.last_notify < PROGRESS_STEP_BYTES,
            },
    {
        let cancelled: bool = manager.is_cancelled(self.model_id.as_str());
        self.downloaded = self.downloaded + bytes;
        manager.record_progress(self.model_id.as_str(), self.downloaded);
        if self.downloaded - self.last_notify_bytes >= PROGRESS_STEP_BYTES {
            self.last_notify_bytes = self.downloaded;
            return Some(
                state_event(
                    self.model_id.as_str(),
                    ModelState::Downloading {
                        bytes_downloaded: self.downloaded,
                        bytes_total: self.total_bytes,
                        cancel_flag: cancelled,
                    },
                ),
            );
        }
        None
    }

    /// A stage failed: the event, and the message to give up with. An archive that cannot be
    /// unpacked is given up with the error alone.
    pub fn failed(&self, stage: DownloadStage, error: &str) -> (r: (ModelStateEvent, String))
        ensures
            r.0@ == (
                self@.model_id,
                StateView::Error { message: stage_text(stage) + error@, retryable: true },
            ),
            r.1@ == (if stage == DownloadStage::Extract {
                error@
            } else {
                stage_text(stage) + error@
            }),
    {
        let head = match stage {
            DownloadStage::Request => "Download request failed: ",
            DownloadStage::OpenPartial => "Failed to open partial file: ",
            DownloadStage::CreatePartial => "Failed to create partial file: ",
            DownloadStage::Stream => "Download stream failed: ",
            DownloadStage::Write => "Failed to write model data: ",
            DownloadStage::PrepareArchive => "Failed to prepare archive for extraction: ",
            DownloadStage::Extract => "Extraction failed: ",
            DownloadStage::Finalize => "Failed to finalize model download: ",
        };
        let message = concat2(head, error);
        let given = if stage == DownloadStage::Extract {
            error.to_owned()
        } else {
            message.clone()
        };
        let e = state_event(
            self.model_id.as_str(),
            ModelState::Error { message, retryable: true },
        );
        (e, given)
    }

    /// The archive is being unpacked: the event that tells so.
    pub fn extraction_begins(&self, manager: &mut ModelManager) -> (e: ModelStateEvent)
        requires
            old(manager).wf(),
        ensures
            final(manager).wf(),
            final(manager)@ == (match model::entry(old(manager)@.entries, self@.model_id) {
                Some(x) => model::with_entry(
                    old(manager)@,
                    self@.model_id,
                    EntryView { extracting: true, ..x },
                ),
                None => old(manager)@,
            }),
            e@ == (
                self@.model_id,
                StateView::Extracting { progress_message: "Extracting files..."@ },
            ),
    {
        manager.set_extracting(self.model_id.as_str(), true);
        state_event(
            self.model_id.as_str(),
            ModelState::Extracting { progress_message: "Extracting files...".to_owned() },
        )
    }

    /// The model has been downloaded: the event that tells so, and the id to write to the settings
    /// where another model was selected for it.
    pub fn finish(self, manager: &mut ModelManager) -> (r: (ModelStateEvent, Option<String>))
        requires
            old(manager).wf(),
        ensures
            final(manager).wf(),
            final(manager)@ == model::auto_selected(
                model::download_finished(old(manager)@, self@.model_id),
            ),
            r.0@ == (self@.model_id, StateView::Ready),
            match r.1 {
                Some(id) => id@ == final(manager)@.selected && !model::keeps_selection(
                    model::download_finished(old(manager)@, self@.model_id),
                ),
                None => model::keeps_selection(
                    model::download_finished(old(manager)@, self@.model_id),
                ),
            },
    {
        let e = manager.finish_download(self.model_id.as_str());
        let selected = manager.auto_select_model_if_needed();
        (e, selected)
    }
}

/// The bytes that were counted after a run of chunks.
pub open spec fn advanced_all(s: SessionView, chunks: Seq<u64>) -> SessionView
    decreases chunks.len(),
{
    if chunks.len() == 0 {
        s
    } else {
        advanced(advanced_all(s, chunks.drop_last()), chunks.last())
    }
}

/// The sum of the chunks' sizes.
pub open spec fn total(chunks: Seq<u64>) -> nat
    decreases chunks.len(),
{
    if chunks.len() == 0 {
        0
    } else {
        total(chunks.drop_last()) + chunks.last() as nat
    }
}

/// What is counted as downloaded is what was there before and every chunk since; reports never go
/// beyond it and never lag behind by the step or more.
pub proof fn law_progress_counts_every_chunk(s: SessionView, chunks: Seq<u64>)
    requires
        session_consistent(s),
        s.downloaded - s.last_notify < PROGRESS_STEP_BYTES,
        s.downloaded + total(chunks) <= u64::MAX,
    ensures
        advanced_all(s, chunks).downloaded == s.downloaded + total(chunks),
        session_consistent(advanced_all(s, chunks)),
        advanced_all(s, chunks).downloaded - advanced_all(s, chunks).last_notify
            < PROGRESS_STEP_BYTES,
    decreases chunks.len(),
{
    if chunks.len() > 0 {
        law_progress_counts_every_chunk(s, chunks.drop_last());
    }
}

/// A download that starts over counts from nothing, asks for no range, and starts over only once.
pub proof fn law_restart_is_from_scratch(s: SessionView, status: u16)
    requires
        session_consistent(s),
        s.resume_from > 0,
    ensures
        answered(s, 200).downloaded == 0,
        answered(s, 200).resume_from == 0,
        answered(answered(s, 200), status) == answered(s, 200),
        status != 200 ==> answered(s, status) == s,
{
}

/// Every byte that was written counts, and progress is told whenever a whole megabyte, 1048576
/// bytes, has come since it was told last, and not before.
pub proof fn law_progress_is_told_every_megabyte(s: SessionView, bytes: u64)
    requires
        session_consistent(s),
        s.downloaded + bytes <= u64::MAX,
    ensures
        ({
            let after = advanced(s, bytes);
            &&& after.downloaded == s.downloaded + bytes
            &&& s.downloaded + bytes - s.last_notify >= 1_048_576 ==> after.last_notify
                == after.downloaded
            &&& s.downloaded + bytes - s.last_notify < 1_048_576 ==> after.last_notify
                == s.last_notify
            &&& after.resume_from == s.resume_from && after.total_bytes == s.total_bytes
                && after.model_id == s.model_id
        }),
{
}

/// Progress is recorded with the model that it belongs to: the number of bytes is what is there of
/// it, nothing else of it changes, and no other model changes.
pub proof fn law_progress_is_recorded(m: ManagerView, id: Seq<char>, bytes: u64)
    requires
        model::entries_consistent(m.entries),
        model::entry(m.entries, id) is Some,
    ensures
        ({
            let after = progressed(m, id, bytes);
            let e = model::entry(m.entries, id)->0;
            &&& after.selected == m.selected
            &&& model::entry(after.entries, id) == Some(
                EntryView { info: ModelView { partial_size: bytes, ..e.info }, ..e },
            )
            &&& forall|other: Seq<char>|
                other != id ==> #[trigger] model::entry(after.entries, other) == model::entry(
                    m.entries,
                    other,
                )
        }),
{
    model::law_models_are_found_by_id(m.entries, id);
    let e = model::entry(m.entries, id)->0;
    model::law_one_model_changes(
        m,
        id,
        EntryView { info: ModelView { partial_size: bytes, ..e.info }, ..e },
    );
}

/// An answer in the two hundreds brings the model, any other does not. Only the whole file, where a
/// part was asked for, starts a download over; it then asks for all of it.
pub proof fn law_answers_are_judged_by_their_status(s: SessionView, status: u16)
    ensures
        is_success(status) <==> status / 100 == 2,
        s.resume_from == 0 ==> answered(s, status) == s,
        answered(s, status).total_bytes == s.total_bytes,
        answered(s, status).model_id == s.model_id,
        s.resume_from > 0 && status == 206 ==> answered(s, status) == s,
        s.resume_from > 0 ==> answered(s, 200).last_notify == 0,
{
}

/// No two files share the file that their download is written to, and none is its own.
pub proof fn law_partial_files_differ(a: Seq<char>, b: Seq<char>)
    ensures
        partial_name(a) == partial_name(b) ==> a == b,
        partial_name(a) != a,
        a.is_prefix_of(partial_name(a)),
{
    reveal_strlit(".partial");
    assert(partial_name(a).take(a.len() as int) =~= a);
    assert(partial_name(b).take(b.len() as int) =~= b);
    assert(partial_name(a).len() == a.len() + 8);
    assert(partial_name(b).len() == b.len() + 8);
}

/// What is told of a download is how many bytes are there, of how many.
pub proof fn law_told_progress_is_the_sessions(s: SessionView, bytes: u64, cancel: bool)
    requires
        s.downloaded + bytes <= u64::MAX,
    ensures
        progress_state(advanced(s, bytes), cancel) == (StateView::Downloading {
            bytes_downloaded: (s.downloaded + bytes) as u64,
            bytes_total: s.total_bytes,
            cancel_flag: cancel,
        }),
{
}

} // verus!
