//! The models: which are downloaded, which is selected, and what is under way.
//!
//! The manager decides and remembers; files are looked at, fetched and moved by its caller.

use super::catalog;
use super::catalog::{
    discover_custom_whisper_models, offered_catalog, FoundFile, ModelInfo, ModelView,
};
use crate::text;
use crate::text::{concat2, join_path, same_text};
use vstd::prelude::*;
use vstd::string::*;

verus! {

/// The greatest size of a model that can be counted in bytes, in megabytes.
pub const MAX_SIZE_MB: u64 = 0xFFF_FFFF_FFFF;

/// Where a model stands.
#[derive(Clone)]
pub enum ModelState {
    /// It can be downloaded.
    Available,
    /// It is being downloaded; the flag tells whether that was cancelled when the state was taken. It
    /// is a copy: a later cancel does not change it, and the manager has to be asked again.
    Downloading { bytes_downloaded: u64, bytes_total: u64, cancel_flag: bool },
    /// Its archive is being unpacked.
    Extracting { progress_message: String },
    /// It can be used.
    Ready,
    /// Something went wrong.
    Error { message: String, retryable: bool },
}

/// What a `ModelState` holds.
pub enum StateView {
    Available,
    Downloading { bytes_downloaded: u64, bytes_total: u64, cancel_flag: bool },
    Extracting { progress_message: Seq<char> },
    Ready,
    Error { message: Seq<char>, retryable: bool },
}

impl View for ModelState {
    type V = StateView;

    open spec fn view(&self) -> StateView {
        match self {
            ModelState::Available => StateView::Available,
            ModelState::Downloading { bytes_downloaded, bytes_total, cancel_flag } =>
                StateView::Downloading {
                bytes_downloaded: *bytes_downloaded,
                bytes_total: *bytes_total,
                cancel_flag: *cancel_flag,
            },
            ModelState::Extracting { progress_message } => StateView::Extracting {
                progress_message: progress_message@,
            },
            ModelState::Ready => StateView::Ready,
            ModelState::Error { message, retryable } => StateView::Error {
                message: message@,
                retryable: *retryable,
            },
        }
    }
}

impl ModelState {
    /// Whether the model can be downloaded.
    pub fn can_download(&self) -> (r: bool)
        ensures
            r == (self is Available || self is Error),
    {
        match self {
            ModelState::Available => true,
            ModelState::Error { .. } => true,
            _ => false,
        }
    }

    /// Whether the model is being downloaded.
    pub fn is_downloading(&self) -> (r: bool)
        ensures
            r == (self is Downloading),
    {
        match self {
            ModelState::Downloading { .. } => true,
            _ => false,
        }
    }

    /// Whether the model's archive is being unpacked.
    pub fn is_extracting(&self) -> (r: bool)
        ensures
            r == (self is Extracting),
    {
        match self {
            ModelState::Extracting { .. } => true,
            _ => false,
        }
    }

    /// Whether the model can be used.
    pub fn is_ready(&self) -> (r: bool)
        ensures
            r == (self is Ready),
    {
        match self {
            ModelState::Ready => true,
            _ => false,
        }
    }

    /// Whether the download had been cancelled when the state was taken, where there was one. A later
    /// cancel is not seen here: ask the manager again.
    pub fn cancel_flag(&self) -> (r: Option<bool>)
        ensures
            r == (match self@ {
                StateView::Downloading { cancel_flag, .. } => Some(cancel_flag),
                _ => None,
            }),
    {
        match self {
            ModelState::Downloading { cancel_flag, .. } => Some(*cancel_flag),
            _ => None,
        }
    }
}

/// A model's state has changed.
#[derive(Clone)]
pub struct ModelStateEvent {
    pub model_id: String,
    pub state: ModelState,
}

impl View for ModelStateEvent {
    type V = (Seq<char>, StateView);

    open spec fn view(&self) -> (Seq<char>, StateView) {
        (self.model_id@, self.state@)
    }
}

/// An event for a model.
pub fn state_event(model_id: &str, state: ModelState) -> (e: ModelStateEvent)
    ensures
        e@ == (model_id@, state@),
{
    ModelStateEvent { model_id: model_id.to_owned(), state }
}

/// A model with what is under way for it.
pub struct ModelEntry {
    pub info: ModelInfo,
    /// Whether its download was cancelled, while one is under way.
    pub cancel: Option<bool>,
    pub extracting: bool,
}

/// What a `ModelEntry` holds.
pub struct EntryView {
    pub info: ModelView,
    pub cancel: Option<bool>,
    pub extracting: bool,
}

impl View for ModelEntry {
    type V = EntryView;

    open spec fn view(&self) -> EntryView {
        EntryView { info: self.info@, cancel: self.cancel, extracting: self.extracting }
    }
}

/// What the manager holds.
pub struct ManagerView {
    pub selected: Seq<char>,
    pub entries: Seq<EntryView>,
}

/// The models and which of them is selected.
pub struct ModelManager {
    selected_model: String,
    entries: Vec<ModelEntry>,
}

pub open spec fn entry_views(entries: Seq<ModelEntry>) -> Seq<EntryView> {
    Seq::new(entries.len(), |i: int| entries[i]@)
}

impl View for ModelManager {
    type V = ManagerView;

    closed spec fn view(&self) -> ManagerView {
        ManagerView { selected: self.selected_model@, entries: entry_views(self.entries@) }
    }
}

/// The models of the entries.
pub open spec fn infos(entries: Seq<EntryView>) -> Seq<ModelView> {
    Seq::new(entries.len(), |i: int| entries[i].info)
}

/// No two models share an id, and their sizes can be counted in bytes.
pub open spec fn entries_consistent(entries: Seq<EntryView>) -> bool {
    &&& forall|i: int, j: int|
        0 <= i < j < entries.len() ==> (#[trigger] entries[i]).info.id != (
        #[trigger] entries[j]).info.id
    &&& forall|i: int| 0 <= i < entries.len() ==> (#[trigger] entries[i]).info.size_mb <= MAX_SIZE_MB
}

/// The place of the model with an id, from `from` on.
pub open spec fn place_from(entries: Seq<EntryView>, id: Seq<char>, from: int) -> Option<int>
    decreases entries.len() - from,
{
    if from < 0 || from >= entries.len() {
        None
    } else if entries[from].info.id == id {
        Some(from)
    } else {
        place_from(entries, id, from + 1)
    }
}

/// The place of the model with an id.
pub open spec fn place(entries: Seq<EntryView>, id: Seq<char>) -> Option<int> {
    place_from(entries, id, 0)
}

/// The model with an id.
pub open spec fn entry(entries: Seq<EntryView>, id: Seq<char>) -> Option<EntryView> {
    match place(entries, id) {
        Some(i) => Some(entries[i]),
        None => None,
    }
}

/// The manager with the model of an id replaced; unchanged where there is none.
pub open spec fn with_entry(m: ManagerView, id: Seq<char>, e: EntryView) -> ManagerView {
    match place(m.entries, id) {
        Some(i) => ManagerView { entries: m.entries.update(i, e), ..m },
        None => m,
    }
}

/// The model can be selected.
pub open spec fn usable(entries: Seq<EntryView>, id: Seq<char>) -> bool {
    entry(entries, id) matches Some(e) && e.info.is_downloaded
}

/// The first model that is downloaded and, where it matters, recommended.
pub open spec fn first_downloaded(entries: Seq<EntryView>, recommended: bool, from: int) -> Option<
    int,
>
    decreases entries.len() - from,
{
    if from < 0 || from >= entries.len() {
        None
    } else if entries[from].info.is_downloaded && (recommended ==> entries[from].info.is_recommended) {
        Some(from)
    } else {
        first_downloaded(entries, recommended, from + 1)
    }
}

/// The model that is selected where the selected one cannot be used: a recommended one before any
/// other, none where none is downloaded.
pub open spec fn fallback(entries: Seq<EntryView>) -> Seq<char> {
    match first_downloaded(entries, true, 0) {
        Some(i) => entries[i].info.id,
        None => match first_downloaded(entries, false, 0) {
            Some(i) => entries[i].info.id,
            None => Seq::empty(),
        },
    }
}

/// The selected model is kept while it can be used.
pub open spec fn keeps_selection(m: ManagerView) -> bool {
    m.selected.len() > 0 && usable(m.entries, m.selected)
}

/// The manager with a model selected that can be used, if there is one.
pub open spec fn auto_selected(m: ManagerView) -> ManagerView {
    if keeps_selection(m) {
        m
    } else {
        ManagerView { selected: fallback(m.entries), ..m }
    }
}

/// What was found of a model's files.
#[derive(Clone, Copy, Debug)]
pub struct FileStatus {
    /// The model's file, or a directory that holds the model, is there.
    pub present: bool,
    /// The size of what was downloaded of it, 0 for nothing.
    pub partial_size: u64,
}

/// A model once its files have been looked at.
pub open spec fn refreshed_entry(e: EntryView, f: FileStatus) -> EntryView {
    EntryView {
        info: ModelView {
            is_downloaded: f.present,
            is_downloading: false,
            partial_size: f.partial_size,
            ..e.info
        },
        ..e
    }
}

/// The manager once all files have been looked at.
pub open spec fn refreshed(m: ManagerView, found: Seq<FileStatus>) -> ManagerView {
    ManagerView {
        entries: Seq::new(m.entries.len(), |i: int| refreshed_entry(m.entries[i], found[i])),
        ..m
    }
}

/// Where a model stands.
pub open spec fn state_of(e: EntryView) -> StateView {
    if e.info.is_downloading {
        StateView::Downloading {
            bytes_downloaded: e.info.partial_size,
            bytes_total: (e.info.size_mb * 1_048_576) as u64,
            cancel_flag: e.cancel == Some(true),
        }
    } else if e.info.is_downloaded {
        if e.extracting {
            StateView::Extracting { progress_message: "Extracting files..."@ }
        } else {
            StateView::Ready
        }
    } else {
        StateView::Available
    }
}

/// A model that is no longer being downloaded.
pub open spec fn untracked(e: EntryView) -> EntryView {
    EntryView {
        info: ModelView { is_downloading: false, ..e.info },
        cancel: None,
        ..e
    }
}

/// The manager once a model's download is no longer under way.
pub open spec fn tracking_cleared(m: ManagerView, id: Seq<char>) -> ManagerView {
    match entry(m.entries, id) {
        Some(e) => with_entry(m, id, untracked(e)),
        None => m,
    }
}

/// What is said of a download that is already under way.
pub open spec fn in_progress_text(id: Seq<char>) -> Seq<char> {
    "Download already in progress for model: "@ + id
}

/// What is said of a model that there is not.
pub open spec fn not_found_text(id: Seq<char>) -> Seq<char> {
    "Model not found: "@ + id
}

/// A download of the model may begin: none is under way.
pub open spec fn may_begin(e: EntryView) -> bool {
    !e.info.is_downloading && e.cancel is None
}

/// The manager once a download was asked for: it is under way, or one that was half forgotten is
/// cleared.
pub open spec fn download_begun(m: ManagerView, id: Seq<char>, resume_from: u64) -> ManagerView {
    match entry(m.entries, id) {
        Some(e) => if e.info.is_downloading {
            m
        } else {
            let started = EntryView {
                info: ModelView { is_downloading: true, partial_size: resume_from, ..e.info },
                cancel: Some(false),
                ..e
            };
            with_entry(
                m,
                id,
                if e.cancel is None {
                    started
                } else {
                    untracked(started)
                },
            )
        },
        None => m,
    }
}

/// The manager once a model has been downloaded.
pub open spec fn download_finished(m: ManagerView, id: Seq<char>) -> ManagerView {
    match entry(m.entries, id) {
        Some(e) => with_entry(
            m,
            id,
            EntryView {
                info: ModelView {
                    is_downloading: false,
                    is_downloaded: true,
                    partial_size: 0,
                    ..e.info
                },
                cancel: None,
                ..e
            },
        ),
        None => m,
    }
}

proof fn lemma_place(entries: Seq<EntryView>, id: Seq<char>, from: int)
    requires
        0 <= from,
    ensures
        match place_from(entries, id, from) {
            Some(i) => from <= i < entries.len() && entries[i].info.id == id && forall|k: int|
                from <= k < i ==> (#[trigger] entries[k]).info.id != id,
            None => forall|k: int| from <= k < entries.len() ==> (#[trigger] entries[k]).info.id != id,
        },
    decreases entries.len() - from,
{
    if from < entries.len() && entries[from].info.id != id {
        lemma_place(entries, id, from + 1);
    }
}

proof fn lemma_same_ids(a: Seq<EntryView>, b: Seq<EntryView>, id: Seq<char>, from: int)
    requires
        0 <= from,
        a.len() == b.len(),
        forall|k: int| 0 <= k < a.len() ==> (#[trigger] a[k]).info.id == b[k].info.id,
    ensures
        place_from(a, id, from) == place_from(b, id, from),
    decreases a.len() - from,
{
    if from < a.len() {
        assert(a[from].info.id == b[from].info.id);
        lemma_same_ids(a, b, id, from + 1);
    }
}

impl ModelManager {
    /// The models are consistent.
    pub open spec fn wf(&self) -> bool {
        entries_consistent(self@.entries)
    }

    /// A manager of the given models with one of them selected.
    pub fn with_models(models: Vec<ModelInfo>, selected: String) -> (m: Self)
        requires
            catalog::ids_unique(catalog::model_views(models@)),
            catalog::sizes_fit(catalog::model_views(models@)),
        ensures
            m.wf(),
            m@.selected == selected@,
            infos(m@.entries) == catalog::model_views(models@),
            forall|i: int|
                0 <= i < m@.entries.len() ==> (#[trigger] m@.entries[i]).cancel is None
                    && !m@.entries[i].extracting,
    {
        let ghost all = catalog::model_views(models@);
        let mut left = models;
        let mut entries: Vec<ModelEntry> = Vec::new();
        let n: usize = left.len();
        let mut i: usize = 0;
        while i < n
            invariant
                i <= n,
                n == left@.len(),
                n == all.len(),
                all == catalog::model_views(left@),
                entries@.len() == i,
                forall|k: int|
                    0 <= k < i ==> (#[trigger] entries@[k])@ == (EntryView {
                        info: all[k],
                        cancel: None,
                        extracting: false,
                    }),
            decreases n - i,
        {
            entries.push(ModelEntry { info: left[i].copy(), cancel: None, extracting: false });
            i += 1;
        }
        let m = ModelManager { selected_model: selected, entries };
        proof {
            assert forall|k: int| 0 <= k < m@.entries.len() implies (#[trigger] m@.entries[k]).info
                == all[k] by {
                assert(m@.entries[k] == entries@[k]@);
            }
            assert(infos(m@.entries) =~= all);
            assert forall|i: int, j: int| 0 <= i < j < m@.entries.len() implies (
            #[trigger] m@.entries[i]).info.id != (#[trigger] m@.entries[j]).info.id by {
                assert(all[i].id != all[j].id);
            }
        }
        m
    }

    /// A manager of the offered models and of the custom models among the files found.
    pub fn new(files: &Vec<FoundFile>, selected: String) -> (m: Self)
        ensures
            m.wf(),
            m@.selected == selected@,
            infos(m@.entries) == catalog::discovered(catalog::offered_models(), files@),
            forall|i: int|
                0 <= i < m@.entries.len() ==> (#[trigger] m@.entries[i]).cancel is None
                    && !m@.entries[i].extracting,
    {
        let mut models = offered_catalog();
        proof {
            catalog::law_offered_models_are_distinct();
            catalog::law_discovery_only_adds(catalog::offered_models(), files@);
        }
        discover_custom_whisper_models(&mut models, files);
        Self::with_models(models, selected)
    }

    fn find(&self, model_id: &str) -> (r: Option<usize>)
        ensures
            match r {
                Some(i) => place(self@.entries, model_id@) == Some(i as int) && i
                    < self.entries@.len() && self@.entries[i as int] == self.entries@[i as int]@
                    && self@.entries[i as int].info.id == model_id@,
                None => place(self@.entries, model_id@) is None,
            },
    {
        let mut i: usize = 0;
        while i < self.entries.len()
            invariant
                i <= self.entries@.len(),
                place(self@.entries, model_id@) == place_from(
                    self@.entries,
                    model_id@,
                    i as int,
                ),
            decreases self.entries@.len() - i,
        {
            assert(self@.entries[i as int] == self.entries@[i as int]@);
            if same_text(self.entries[i].info.id.as_str(), model_id) {
                return Some(i);
            }
            i += 1;
        }
        None
    }

    fn replace(&mut self, i: usize, e: ModelEntry)
        requires
            i < old(self).entries@.len(),
            old(self).wf(),
            e@.info.id == old(self)@.entries[i as int].info.id,
            e@.info.size_mb == old(self)@.entries[i as int].info.size_mb,
        ensures
            final(self).wf(),
            final(self)@ == (ManagerView {
                entries: old(self)@.entries.update(i as int, e@),
                ..old(self)@
            }),
    {
        let ghost before = self@.entries;
        self.entries.set(i, e);
        proof {
            assert(self@.entries =~= before.update(i as int, e@));
            assert forall|a: int, b: int| 0 <= a < b < self@.entries.len() implies (
            #[trigger] self@.entries[a]).info.id != (#[trigger] self@.entries[b]).info.id by {
                assert(before[a].info.id != before[b].info.id);
            }
            assert forall|a: int| 0 <= a < self@.entries.len() implies (
            #[trigger] self@.entries[a]).info.size_mb <= MAX_SIZE_MB by {
                assert(before[a].info.size_mb <= MAX_SIZE_MB);
            }
        }
    }

    /// All models, in the catalog's order.
    pub fn get_available_models(&self) -> (r: Vec<ModelInfo>)
        ensures
            catalog::model_views(r@) == infos(self@.entries),
    {
        let mut r: Vec<ModelInfo> = Vec::new();
        let mut i: usize = 0;
        while i < self.entries.len()
            invariant
                i <= self.entries@.len(),
                catalog::model_views(r@) == infos(self@.entries).take(i as int),
            decreases self.entries@.len() - i,
        {
            let ghost before = r@;
            r.push(self.entries[i].info.copy());
            i += 1;
            proof {
                let all = infos(self@.entries);
                assert(self@.entries[i - 1] == self.entries@[i - 1]@);
                assert(catalog::model_views(r@) =~= catalog::model_views(before).push(all[i - 1]));
                assert(all.take(i as int) =~= all.take(i - 1).push(all[i - 1]));
            }
        }
        assert(infos(self@.entries).take(i as int) =~= infos(self@.entries));
        r
    }

    /// The model with an id.
    pub fn get_model_info(&self, model_id: &str) -> (r: Option<ModelInfo>)
        ensures
            match r {
                Some(m) => entry(self@.entries, model_id@) matches Some(e) && m@ == e.info,
                None => entry(self@.entries, model_id@) is None,
            },
    {
        match self.find(model_id) {
            Some(i) => Some(self.entries[i].info.copy()),
            None => None,
        }
    }

    /// Where a model's files belong, under the directory of all models.
    pub fn get_model_path(&self, models_dir: &str, model_id: &str) -> (r: Option<String>)
        ensures
            text::opt_view(r) == (match entry(self@.entries, model_id@) {
                Some(e) => Some(text::joined_path(models_dir@, e.info.filename)),
                None => None,
            }),
    {
        match self.find(model_id) {
            Some(i) => Some(join_path(models_dir, self.entries[i].info.filename.as_str())),
            None => None,
        }
    }

    /// The files of the models were looked at.
    pub fn update_download_status(&mut self, found: &Vec<FileStatus>)
        requires
            old(self).wf(),
            found@.len() == old(self)@.entries.len(),
        ensures
            final(self).wf(),
            final(self)@ == refreshed(old(self)@, found@),
    {
        let ghost start = self@;
        let n: usize = self.entries.len();
        let mut i: usize = 0;
        while i < n
            invariant
                i <= n,
                n == self.entries@.len(),
                n == start.entries.len(),
                n == found@.len(),
                self.wf(),
                self@.selected == start.selected,
                forall|k: int|
                    0 <= k < n ==> #[trigger] self@.entries[k] == (if k < i {
                        refreshed_entry(start.entries[k], found@[k])
                    } else {
                        start.entries[k]
                    }),
            decreases n - i,
        {
            let f = found[i];
            assert(self@.entries[i as int] == self.entries@[i as int]@);
            let mut info = self.entries[i].info.copy();
            info.is_downloaded = f.present;
            info.is_downloading = false;
            info.partial_size = f.partial_size;
            let cancel = self.entries[i].cancel;
            let extracting: bool = self.entries[i].extracting;
            self.replace(i, ModelEntry { info, cancel, extracting });
            assert(self@.entries.len() == self.entries@.len());
            i += 1;
        }
        assert(self@.entries =~= refreshed(start, found@).entries);
    }

    fn first(&self, recommended: bool) -> (r: Option<usize>)
        ensures
            match r {
                Some(i) => first_downloaded(self@.entries, recommended, 0) == Some(i as int) && i
                    < self.entries@.len() && self@.entries[i as int] == self.entries@[i as int]@,
                None => first_downloaded(self@.entries, recommended, 0) is None,
            },
    {
        let mut i: usize = 0;
        while i < self.entries.len()
            invariant
                i <= self.entries@.len(),
                first_downloaded(self@.entries, recommended, 0) == first_downloaded(
                    self@.entries,
                    recommended,
                    i as int,
                ),
            decreases self.entries@.len() - i,
        {
            assert(self@.entries[i as int] == self.entries@[i as int]@);
            if self.entries[i].info.is_downloaded && (!recommended
                || self.entries[i].info.is_recommended) {
                return Some(i);
            }
            i += 1;
        }
        None
    }

    /// Selects a model that can be used where the selected one cannot: the id to write to the
    /// settings, empty where there is none.
    pub fn auto_select_model_if_needed(&mut self) -> (r: Option<String>)
        requires
            old(self).wf(),
        ensures
            final(self).wf(),
            final(self)@ == auto_selected(old(self)@),
            match r {
                Some(id) => !keeps_selection(old(self)@) && id@ == final(self)@.selected,
                None => keeps_selection(old(self)@),
            },
    {
        if !self.selected_model.as_str().is_empty() {
            if let Some(i) = self.find(self.selected_model.as_str()) {
                if self.entries[i].info.is_downloaded {
                    return None;
                }
            }
        }
        let id = match self.first(true) {
            Some(i) => self.entries[i].info.id.clone(),
            None => match self.first(false) {
                Some(i) => self.entries[i].info.id.clone(),
                None => String::new(),
            },
        };
        self.selected_model = id.clone();
        Some(id)
    }

    /// Where the model stands.
    pub fn get_model_state(&self, model_id: &str) -> (r: Option<ModelState>)
        requires
            self.wf(),
        ensures
            match r {
                Some(s) => entry(self@.entries, model_id@) matches Some(e) && s@ == state_of(e),
                None => entry(self@.entries, model_id@) is None,
            },
    {
        match self.find(model_id) {
            Some(i) => {
                let e = &self.entries[i];
                assert(self@.entries[i as int].info.size_mb <= MAX_SIZE_MB);
                if e.info.is_downloading {
                    let cancel_flag: bool = match e.cancel {
                        Some(c) => c,
                        None => false,
                    };
                    Some(
                        ModelState::Downloading {
                            bytes_downloaded: e.info.partial_size,
                            bytes_total: e.info.size_mb * 1_048_576,
                            cancel_flag,
                        },
                    )
                } else if e.info.is_downloaded {
                    if e.extracting {
                        Some(
                            ModelState::Extracting {
                                progress_message: "Extracting files...".to_owned(),
                            },
                        )
                    } else {
                        Some(ModelState::Ready)
                    }
                } else {
                    Some(ModelState::Available)
                }
            },
            None => None,
        }
    }

    /// Whether the model is being downloaded.
    pub fn is_model_downloading(&self, model_id: &str) -> (r: bool)
        ensures
            r == (entry(self@.entries, model_id@) matches Some(e) && e.info.is_downloading),
    {
        match self.find(model_id) {
            Some(i) => self.entries[i].info.is_downloading,
            None => false,
        }
    }

    /// Whether the model's download was cancelled.
    pub fn is_cancelled(&self, model_id: &str) -> (r: bool)
        ensures
            r == (entry(self@.entries, model_id@) matches Some(e) && e.cancel == Some(true)),
    {
        match self.find(model_id) {
            Some(i) => match self.entries[i].cancel {
                Some(c) => c,
                None => false,
            },
            None => false,
        }
    }

    /// A download of the model is asked for, from a byte on: the model's size in bytes, or why it
    /// does not begin.
    pub fn begin_download(&mut self, model_id: &str, resume_from: u64) -> (r: Result<u64, String>)
        requires
            old(self).wf(),
        ensures
            final(self).wf(),
            final(self)@ == download_begun(old(self)@, model_id@, resume_from),
            match entry(old(self)@.entries, model_id@) {
                None => r matches Err(e) && e@ == not_found_text(model_id@),
                Some(e) => if may_begin(e) {
                    r matches Ok(total) && total == e.info.size_mb * 1_048_576
                } else {
                    r matches Err(m) && m@ == in_progress_text(model_id@)
                },
            },
    {
        match self.find(model_id) {
            None => Err(concat2("Model not found: ", model_id)),
            Some(i) => {
                assert(self@.entries[i as int].info.size_mb <= MAX_SIZE_MB);
                if self.entries[i].info.is_downloading {
                    return Err(concat2("Download already in progress for model: ", model_id));
                }
                let inflight: bool = self.entries[i].cancel.is_some();
                let mut info = self.entries[i].info.copy();
                let total: u64 = info.size_mb * 1_048_576;
                info.partial_size = resume_from;
                let extracting: bool = self.entries[i].extracting;
                if inflight {
                    info.is_downloading = false;
                    self.replace(i, ModelEntry { info, cancel: None, extracting });
                    return Err(concat2("Download already in progress for model: ", model_id));
                }
                info.is_downloading = true;
                self.replace(i, ModelEntry { info, cancel: Some(false), extracting });
                Ok(total)
            },
        }
    }

    /// So many bytes of the model have been downloaded.
    pub fn record_progress(&mut self, model_id: &str, bytes: u64)
        requires
            old(self).wf(),
        ensures
            final(self).wf(),
            final(self)@ == (match entry(old(self)@.entries, model_id@) {
                Some(e) => with_entry(
                    old(self)@,
                    model_id@,
                    EntryView { info: ModelView { partial_size: bytes, ..e.info }, ..e },
                ),
                None => old(self)@,
            }),
    {
        if let Some(i) = self.find(model_id) {
            let mut info = self.entries[i].info.copy();
            info.partial_size = bytes;
            let cancel = self.entries[i].cancel;
            let extracting: bool = self.entries[i].extracting;
            self.replace(i, ModelEntry { info, cancel, extracting });
        }
    }

    /// The model's archive is being unpacked, or no longer is.
    pub fn set_extracting(&mut self, model_id: &str, extracting: bool)
        requires
            old(self).wf(),
        ensures
            final(self).wf(),
            final(self)@ == (match entry(old(self)@.entries, model_id@) {
                Some(e) => with_entry(old(self)@, model_id@, EntryView { extracting, ..e }),
                None => old(self)@,
            }),
    {
        if let Some(i) = self.find(model_id) {
            let info = self.entries[i].info.copy();
            let cancel = self.entries[i].cancel;
            self.replace(i, ModelEntry { info, cancel, extracting });
        }
    }

    /// The model has been downloaded.
    pub fn finish_download(&mut self, model_id: &str) -> (e: ModelStateEvent)
        requires
            old(self).wf(),
        ensures
            final(self).wf(),
            final(self)@ == download_finished(old(self)@, model_id@),
            e@ == (model_id@, StateView::Ready),
    {
        if let Some(i) = self.find(model_id) {
            let mut info = self.entries[i].info.copy();
            info.is_downloading = false;
            info.is_downloaded = true;
            info.partial_size = 0;
            let extracting: bool = self.entries[i].extracting;
            self.replace(i, ModelEntry { info, cancel: None, extracting });
        }
        state_event(model_id, ModelState::Ready)
    }

    /// The model's download is no longer under way.
    pub fn clear_download_tracking(&mut self, model_id: &str)
        requires
            old(self).wf(),
        ensures
            final(self).wf(),
            final(self)@ == tracking_cleared(old(self)@, model_id@),
    {
        if let Some(i) = self.find(model_id) {
            let mut info = self.entries[i].info.copy();
            info.is_downloading = false;
            let extracting: bool = self.entries[i].extracting;
            self.replace(i, ModelEntry { info, cancel: None, extracting });
        }
    }

    /// Cancels the model's download, if one is under way.
    pub fn cancel_download(&mut self, model_id: &str)
        requires
            old(self).wf(),
        ensures
            final(self).wf(),
            final(self)@ == (match entry(old(self)@.entries, model_id@) {
                Some(e) => if e.cancel is Some {
                    with_entry(old(self)@, model_id@, EntryView { cancel: Some(true), ..e })
                } else {
                    old(self)@
                },
                None => old(self)@,
            }),
    {
        if let Some(i) = self.find(model_id) {
            if self.entries[i].cancel.is_some() {
                let info = self.entries[i].info.copy();
                let extracting: bool = self.entries[i].extracting;
                self.replace(i, ModelEntry { info, cancel: Some(true), extracting });
            }
        }
    }

    /// A model's files were deleted and the files of all models looked at. Nothing happens for a
    /// model that there is not; otherwise the event, and whether the selection was given up.
    pub fn delete_model(&mut self, model_id: &str, found: &Vec<FileStatus>) -> (r: Option<
        (ModelStateEvent, bool),
    >)
        requires
            old(self).wf(),
            found@.len() == old(self)@.entries.len(),
        ensures
            final(self).wf(),
            match r {
                Some(p) => {
                    &&& entry(old(self)@.entries, model_id@) is Some
                    &&& p.0@ == (model_id@, StateView::Available)
                    &&& p.1 == (old(self)@.selected == model_id@)
                    &&& final(self)@ == (ManagerView {
                        selected: if p.1 {
                            Seq::empty()
                        } else {
                            old(self)@.selected
                        },
                        ..refreshed(old(self)@, found@)
                    })
                },
                None => entry(old(self)@.entries, model_id@) is None && final(self)@ == old(self)@,
            },
    {
        if self.find(model_id).is_none() {
            return None;
        }
        self.update_download_status(found);
        let was_selected: bool = same_text(self.selected_model.as_str(), model_id);
        if was_selected {
            self.selected_model = String::new();
        }
        Some((state_event(model_id, ModelState::Available), was_selected))
    }

    /// Selects a model: the events, or why it cannot be selected.
    pub fn set_active_model(&mut self, model_id: &str) -> (r: Result<Vec<ModelStateEvent>, String>)
        requires
            old(self).wf(),
        ensures
            final(self).wf(),
            match entry(old(self)@.entries, model_id@) {
                None => final(self)@ == old(self)@ && (r matches Err(e) && e@ == not_found_text(
                    model_id@,
                )),
                Some(e) => if !e.info.is_downloaded {
                    final(self)@ == old(self)@ && (r matches Err(m) && m@
                        == "Model not downloaded: "@ + model_id@)
                } else {
                    final(self)@ == (ManagerView { selected: model_id@, ..old(self)@ }) && (
                    r matches Ok(events) && event_views(events@) == activation_events(
                        old(self)@.selected,
                        model_id@,
                    ))
                },
            },
    {
        match self.find(model_id) {
            None => Err(concat2("Model not found: ", model_id)),
            Some(i) => {
                if !self.entries[i].info.is_downloaded {
                    return Err(concat2("Model not downloaded: ", model_id));
                }
                let previous = self.selected_model.clone();
                self.selected_model = model_id.to_owned();
                let mut events: Vec<ModelStateEvent> = Vec::new();
                if !previous.as_str().is_empty() && !same_text(previous.as_str(), model_id) {
                    events.push(state_event(previous.as_str(), ModelState::Ready));
                }
                events.push(state_event(model_id, ModelState::Ready));
                assert(event_views(events@) =~= activation_events(old(self)@.selected, model_id@));
                Ok(events)
            },
        }
    }

    /// The settings' selection is taken over where it can be: the id to write back to the
    /// settings, where it cannot.
    pub fn sync_selected_model_from_settings(&mut self, selected: String) -> (r: Option<String>)
        requires
            old(self).wf(),
        ensures
            final(self).wf(),
            if selected@.len() == 0 || usable(old(self)@.entries, selected@) {
                final(self)@ == (ManagerView { selected: selected@, ..old(self)@ }) && r is None
            } else {
                final(self)@ == auto_selected(old(self)@) && match r {
                    Some(id) => !keeps_selection(old(self)@) && id@ == final(self)@.selected,
                    None => keeps_selection(old(self)@),
                }
            },
    {
        if selected.as_str().is_empty() {
            self.selected_model = selected;
            return None;
        }
        if let Some(i) = self.find(selected.as_str()) {
            if self.entries[i].info.is_downloaded {
                self.selected_model = selected;
                return None;
            }
        }
        self.auto_select_model_if_needed()
    }

    /// The id of the selected model, empty for none.
    pub fn get_current_model(&self) -> (r: String)
        ensures
            r@ == self@.selected,
    {
        self.selected_model.clone()
    }

    /// Whether any model is downloaded.
    pub fn has_any_models_available(&self) -> (r: bool)
        ensures
            r == (first_downloaded(self@.entries, false, 0) is Some),
    {
        self.first(false).is_some()
    }
}

/// What a list of events holds.
pub open spec fn event_views(events: Seq<ModelStateEvent>) -> Seq<(Seq<char>, StateView)> {
    Seq::new(events.len(), |i: int| events[i]@)
}

/// The events of a selection: the model that was selected before, and the one that is now.
pub open spec fn activation_events(
    previous: Seq<char>,
    id: Seq<char>,
) -> Seq<(Seq<char>, StateView)> {
    if previous.len() > 0 && previous != id {
        seq![(previous, StateView::Ready), (id, StateView::Ready)]
    } else {
        seq![(id, StateView::Ready)]
    }
}

proof fn lemma_updated(m: ManagerView, id: Seq<char>, e: EntryView)
    requires
        entry(m.entries, id) is Some,
        e.info.id == id,
    ensures
        entry(with_entry(m, id, e).entries, id) == Some(e),
        forall|other: Seq<char>|
            other != id ==> #[trigger] entry(with_entry(m, id, e).entries, other) == entry(
                m.entries,
                other,
            ),
{
    lemma_place(m.entries, id, 0);
    let i = place(m.entries, id)->0;
    let after = with_entry(m, id, e).entries;
    assert forall|k: int| 0 <= k < after.len() implies (#[trigger] after[k]).info.id
        == m.entries[k].info.id by {}
    lemma_same_ids(after, m.entries, id, 0);
    assert forall|other: Seq<char>| other != id implies #[trigger] entry(after, other) == entry(
        m.entries,
        other,
    ) by {
        lemma_same_ids(after, m.entries, other, 0);
        lemma_place(m.entries, other, 0);
    }
}

/// While a model is being downloaded, no second download of it begins: the request changes nothing
/// and is refused. A download of another model is not affected.
pub proof fn law_one_download_per_model(m: ManagerView, id: Seq<char>, first: u64, second: u64)
    requires
        entries_consistent(m.entries),
        entry(m.entries, id) matches Some(e) && may_begin(e),
    ensures
        ({
            let started = download_begun(m, id, first);
            let e = entry(started.entries, id);
            &&& e is Some && !may_begin(e->0)
            &&& download_begun(started, id, second) == started
            &&& forall|other: Seq<char>|
                other != id ==> #[trigger] entry(started.entries, other) == entry(m.entries, other)
        }),
{
    lemma_place(m.entries, id, 0);
    let e = entry(m.entries, id)->0;
    let started = EntryView {
        info: ModelView { is_downloading: true, partial_size: first, ..e.info },
        cancel: Some(false),
        ..e
    };
    lemma_updated(m, id, started);
}

/// A model whose download is finished is ready, one whose download was given up can be downloaded
/// again; either way a new download may begin.
pub proof fn law_download_ends_cleanly(m: ManagerView, id: Seq<char>)
    requires
        entry(m.entries, id) is Some,
    ensures
        ({
            let done = entry(download_finished(m, id).entries, id);
            let given_up = entry(tracking_cleared(m, id).entries, id);
            &&& done matches Some(e) && may_begin(e) && e.info.is_downloaded && (!e.extracting
                ==> state_of(e) == StateView::Ready)
            &&& given_up matches Some(e) && may_begin(e) && !(state_of(e) is Downloading)
        }),
{
    lemma_place(m.entries, id, 0);
    let e = entry(m.entries, id)->0;
    let done = EntryView {
        info: ModelView { is_downloading: false, is_downloaded: true, partial_size: 0, ..e.info },
        cancel: None,
        ..e
    };
    lemma_updated(m, id, done);
    lemma_updated(m, id, untracked(e));
}

proof fn lemma_first_downloaded(entries: Seq<EntryView>, recommended: bool, from: int)
    requires
        0 <= from,
    ensures
        match first_downloaded(entries, recommended, from) {
            Some(i) => from <= i < entries.len() && entries[i].info.is_downloaded && (recommended
                ==> entries[i].info.is_recommended),
            None => forall|k: int|
                from <= k < entries.len() ==> !((#[trigger] entries[k]).info.is_downloaded && (
                recommended ==> entries[k].info.is_recommended)),
        },
    decreases entries.len() - from,
{
    if from < entries.len() && !(entries[from].info.is_downloaded && (recommended
        ==> entries[from].info.is_recommended)) {
        lemma_first_downloaded(entries, recommended, from + 1);
    }
}

/// After an automatic selection the selected model can be used, unless no model is downloaded: then
/// none is selected. A selection that can be used is never changed.
pub proof fn law_selection_is_usable(m: ManagerView)
    requires
        entries_consistent(m.entries),
    ensures
        ({
            let s = auto_selected(m);
            &&& s.entries == m.entries
            &&& usable(m.entries, s.selected) || (s.selected.len() == 0 && forall|k: int|
                0 <= k < m.entries.len() ==> !(#[trigger] m.entries[k]).info.is_downloaded)
            &&& keeps_selection(m) ==> s == m
            &&& auto_selected(s).selected == s.selected
        }),
{
    lemma_first_downloaded(m.entries, true, 0);
    lemma_first_downloaded(m.entries, false, 0);
    if !keeps_selection(m) {
        let chosen = if first_downloaded(m.entries, true, 0) is Some {
            first_downloaded(m.entries, true, 0)
        } else {
            first_downloaded(m.entries, false, 0)
        };
        if let Some(i) = chosen {
            let id = m.entries[i].info.id;
            lemma_place(m.entries, id, 0);
            let p = place(m.entries, id)->0;
            assert(p == i) by {
                if p < i {
                    assert(m.entries[p].info.id != m.entries[i].info.id);
                }
                if i < p {
                    assert(m.entries[i].info.id != m.entries[p].info.id);
                }
            }
        }
    }
}

/// Where ids are unique, asking for a model's id gives that model, and asking for an id that no
/// model has gives none.
pub proof fn law_models_are_found_by_id(entries: Seq<EntryView>, id: Seq<char>)
    requires
        entries_consistent(entries),
    ensures
        forall|i: int|
            0 <= i < entries.len() && (#[trigger] entries[i]).info.id == id ==> entry(entries, id)
                == Some(entries[i]),
        (forall|i: int| 0 <= i < entries.len() ==> (#[trigger] entries[i]).info.id != id) ==> entry(
            entries,
            id,
        ) is None,
        entry(entries, id) is Some ==> (entry(entries, id)->0).info.id == id,
{
    lemma_place(entries, id, 0);
    assert forall|i: int|
        0 <= i < entries.len() && (#[trigger] entries[i]).info.id == id implies entry(entries, id)
        == Some(entries[i]) by {
        let p = place(entries, id)->0;
        if p < i {
            assert(entries[p].info.id != entries[i].info.id);
        }
    }
}

/// What is stored of a model is what is then found of it, and of no other model.
pub proof fn law_one_model_changes(m: ManagerView, id: Seq<char>, e: EntryView)
    requires
        entry(m.entries, id) is Some,
        e.info.id == id,
    ensures
        entry(with_entry(m, id, e).entries, id) == Some(e),
        forall|other: Seq<char>|
            other != id ==> #[trigger] entry(with_entry(m, id, e).entries, other) == entry(
                m.entries,
                other,
            ),
        with_entry(m, id, e).selected == m.selected,
        with_entry(m, id, e).entries.len() == m.entries.len(),
{
    lemma_place(m.entries, id, 0);
    lemma_updated(m, id, e);
}

proof fn lemma_first_of(entries: Seq<EntryView>, recommended: bool, from: int, i: int)
    requires
        0 <= from <= i < entries.len(),
        entries[i].info.is_downloaded && (recommended ==> entries[i].info.is_recommended),
        forall|k: int|
            from <= k < i ==> !((#[trigger] entries[k]).info.is_downloaded && (recommended
                ==> entries[k].info.is_recommended)),
    ensures
        first_downloaded(entries, recommended, from) == Some(i),
    decreases i - from,
{
    if from < i {
        assert(!(entries[from].info.is_downloaded && (recommended
            ==> entries[from].info.is_recommended)));
        lemma_first_of(entries, recommended, from + 1, i);
    }
}

/// Without a selection that can be used, the first model that is downloaded and recommended is
/// selected, although one that is not recommended stands before it.
pub proof fn law_recommended_model_is_preferred(m: ManagerView, i: int)
    requires
        entries_consistent(m.entries),
        0 <= i < m.entries.len(),
        m.entries[i].info.is_downloaded && m.entries[i].info.is_recommended,
        forall|k: int|
            0 <= k < i ==> !((#[trigger] m.entries[k]).info.is_downloaded
                && m.entries[k].info.is_recommended),
        m.selected.len() == 0 || forall|k: int|
            0 <= k < m.entries.len() && (#[trigger] m.entries[k]).info.id == m.selected
                ==> !m.entries[k].info.is_downloaded,
    ensures
        auto_selected(m).selected == m.entries[i].info.id,
{
    lemma_first_of(m.entries, true, 0, i);
    lemma_place(m.entries, m.selected, 0);
}

/// Where no recommended model is downloaded, the first that is downloaded is selected.
pub proof fn law_any_downloaded_model_will_do(m: ManagerView, i: int)
    requires
        entries_consistent(m.entries),
        0 <= i < m.entries.len(),
        m.entries[i].info.is_downloaded,
        forall|k: int| 0 <= k < i ==> !(#[trigger] m.entries[k]).info.is_downloaded,
        forall|k: int|
            0 <= k < m.entries.len() ==> !((#[trigger] m.entries[k]).info.is_downloaded
                && m.entries[k].info.is_recommended),
        m.selected.len() == 0 || forall|k: int|
            0 <= k < m.entries.len() && (#[trigger] m.entries[k]).info.id == m.selected
                ==> !m.entries[k].info.is_downloaded,
    ensures
        auto_selected(m).selected == m.entries[i].info.id,
{
    lemma_first_downloaded(m.entries, true, 0);
    lemma_first_of(m.entries, false, 0, i);
    lemma_place(m.entries, m.selected, 0);
}

/// A selected model that is downloaded stays selected, whatever else is downloaded or recommended.
pub proof fn law_usable_selection_stays(m: ManagerView, i: int)
    requires
        entries_consistent(m.entries),
        0 <= i < m.entries.len(),
        m.entries[i].info.is_downloaded,
        m.entries[i].info.id == m.selected,
        m.selected.len() > 0,
    ensures
        auto_selected(m) == m,
{
    law_models_are_found_by_id(m.entries, m.selected);
}

/// A model that was looked up on disk is there exactly if its file is, with what was downloaded of
/// it, and it is not being downloaded. Nothing else changes.
pub proof fn law_files_decide_what_is_there(m: ManagerView, found: Seq<FileStatus>, i: int)
    requires
        0 <= i < m.entries.len(),
        found.len() == m.entries.len(),
    ensures
        ({
            let before = m.entries[i];
            let after = refreshed(m, found).entries[i];
            &&& refreshed(m, found).entries.len() == m.entries.len()
            &&& refreshed(m, found).selected == m.selected
            &&& after.info.is_downloaded == found[i].present
            &&& after.info.partial_size == found[i].partial_size
            &&& !after.info.is_downloading
            &&& after.cancel == before.cancel && after.extracting == before.extracting
            &&& (ModelView {
                is_downloaded: before.info.is_downloaded,
                is_downloading: before.info.is_downloading,
                partial_size: before.info.partial_size,
                ..after.info
            }) == before.info
        }),
{
}

/// A model that is being downloaded says how much of it is there, of how many bytes, and whether the
/// download was cancelled; one that is downloaded is ready unless its archive is being unpacked; any
/// other can be downloaded.
pub proof fn law_state_tells_what_happens(e: EntryView)
    requires
        e.info.size_mb <= MAX_SIZE_MB,
    ensures
        e.info.is_downloading ==> state_of(e) is Downloading && state_of(e)->bytes_downloaded
            == e.info.partial_size && state_of(e)->bytes_total == e.info.size_mb * 1024 * 1024
            && state_of(e)->cancel_flag == (e.cancel == Some(true)),
        !e.info.is_downloading && e.info.is_downloaded && !e.extracting ==> state_of(e)
            == StateView::Ready,
        !e.info.is_downloading && e.info.is_downloaded && e.extracting ==> state_of(
            e,
        ) is Extracting,
        !e.info.is_downloading && !e.info.is_downloaded ==> state_of(e) == StateView::Available,
{
}

/// A download that begins goes on from where it is resumed and is not cancelled. Nothing else of the
/// model changes.
pub proof fn law_begun_download_is_under_way(m: ManagerView, id: Seq<char>, resume_from: u64)
    requires
        entries_consistent(m.entries),
        entry(m.entries, id) is Some,
        !(entry(m.entries, id)->0).info.is_downloading,
        (entry(m.entries, id)->0).cancel is None,
    ensures
        ({
            let e = entry(m.entries, id)->0;
            entry(download_begun(m, id, resume_from).entries, id) == Some(
                EntryView {
                    info: ModelView { is_downloading: true, partial_size: resume_from, ..e.info },
                    cancel: Some(false),
                    extracting: e.extracting,
                },
            )
        }),
        download_begun(m, id, resume_from).selected == m.selected,
{
    law_models_are_found_by_id(m.entries, id);
    let e = entry(m.entries, id)->0;
    lemma_updated(
        m,
        id,
        EntryView {
            info: ModelView { is_downloading: true, partial_size: resume_from, ..e.info },
            cancel: Some(false),
            extracting: e.extracting,
        },
    );
}

/// A download that is over leaves the model downloaded, with nothing of it in parts; one that is
/// given up leaves what was there of it. In both cases nothing else of it changes, nor of the others.
pub proof fn law_ended_download_leaves_the_rest(m: ManagerView, id: Seq<char>, other: Seq<char>)
    requires
        entries_consistent(m.entries),
        entry(m.entries, id) is Some,
        other != id,
    ensures
        ({
            let e = entry(m.entries, id)->0;
            let done = download_finished(m, id);
            let given_up = tracking_cleared(m, id);
            &&& entry(done.entries, id) == Some(
                EntryView {
                    info: ModelView {
                        is_downloading: false,
                        is_downloaded: true,
                        partial_size: 0,
                        ..e.info
                    },
                    cancel: None,
                    extracting: e.extracting,
                },
            )
            &&& entry(given_up.entries, id) == Some(
                EntryView {
                    info: ModelView { is_downloading: false, ..e.info },
                    cancel: None,
                    extracting: e.extracting,
                },
            )
            &&& entry(done.entries, other) == entry(m.entries, other)
            &&& entry(given_up.entries, other) == entry(m.entries, other)
            &&& done.selected == m.selected && given_up.selected == m.selected
        }),
{
    law_models_are_found_by_id(m.entries, id);
    let e = entry(m.entries, id)->0;
    lemma_updated(m, id, untracked(e));
    lemma_updated(
        m,
        id,
        EntryView {
            info: ModelView {
                is_downloading: false,
                is_downloaded: true,
                partial_size: 0,
                ..e.info
            },
            cancel: None,
            ..e
        },
    );
}

/// Choosing a model tells that it is ready, after telling so of the one that was chosen before, if
/// that was another.
pub proof fn law_chosen_model_is_told_last(previous: Seq<char>, id: Seq<char>)
    ensures
        activation_events(previous, id).last() == (id, StateView::Ready),
        previous.len() > 0 && previous != id ==> activation_events(previous, id).len() == 2
            && activation_events(previous, id)[0] == (previous, StateView::Ready),
        previous.len() == 0 || previous == id ==> activation_events(previous, id).len() == 1,
{
}

} // verus!
