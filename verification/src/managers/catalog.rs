//! The models that can be used for transcription.

use crate::text;
use crate::text::{
    copy_list, copy_opt, ends_with, list_contains, same_text, split_words, starts_with,
    trim_end_matches,
};
use vstd::prelude::*;
use vstd::string::*;

verus! {

/// The kinds of engine that run models.
#[derive(Clone, Copy, Debug, PartialEq, Eq, Structural)]
pub enum EngineType {
    Whisper,
    Parakeet,
    Moonshine,
    SenseVoice,
}

/// A model.
pub struct ModelInfo {
    pub id: String,
    pub name: String,
    pub description: String,
    pub filename: String,
    pub url: Option<String>,
    pub size_mb: u64,
    pub is_downloaded: bool,
    pub is_downloading: bool,
    pub partial_size: u64,
    pub is_directory: bool,
    pub engine_type: EngineType,
    /// Accuracy in percent.
    pub accuracy_score: u32,
    /// Speed in percent.
    pub speed_score: u32,
    pub supports_translation: bool,
    pub is_recommended: bool,
    pub supported_languages: Vec<String>,
    pub is_custom: bool,
}

/// What a `ModelInfo` holds.
pub struct ModelView {
    pub id: Seq<char>,
    pub name: Seq<char>,
    pub description: Seq<char>,
    pub filename: Seq<char>,
    pub url: Option<Seq<char>>,
    pub size_mb: u64,
    pub is_downloaded: bool,
    pub is_downloading: bool,
    pub partial_size: u64,
    pub is_directory: bool,
    pub engine_type: EngineType,
    pub accuracy_score: u32,
    pub speed_score: u32,
    pub supports_translation: bool,
    pub is_recommended: bool,
    pub supported_languages: Seq<Seq<char>>,
    pub is_custom: bool,
}

impl View for ModelInfo {
    type V = ModelView;

    open spec fn view(&self) -> ModelView {
        ModelView {
            id: self.id@,
            name: self.name@,
            description: self.description@,
            filename: self.filename@,
            url: text::opt_view(self.url),
            size_mb: self.size_mb,
            is_downloaded: self.is_downloaded,
            is_downloading: self.is_downloading,
            partial_size: self.partial_size,
            is_directory: self.is_directory,
            engine_type: self.engine_type,
            accuracy_score: self.accuracy_score,
            speed_score: self.speed_score,
            supports_translation: self.supports_translation,
            is_recommended: self.is_recommended,
            supported_languages: text::views(self.supported_languages@),
            is_custom: self.is_custom,
        }
    }
}

impl ModelInfo {
    /// A copy.
    pub fn copy(&self) -> (r: Self)
        ensures
            r@ == self@,
    {
        ModelInfo {
            id: self.id.clone(),
            name: self.name.clone(),
            description: self.description.clone(),
            filename: self.filename.clone(),
            url: copy_opt(&self.url),
            size_mb: self.size_mb,
            is_downloaded: self.is_downloaded,
            is_downloading: self.is_downloading,
            partial_size: self.partial_size,
            is_directory: self.is_directory,
            engine_type: self.engine_type,
            accuracy_score: self.accuracy_score,
            speed_score: self.speed_score,
            supports_translation: self.supports_translation,
            is_recommended: self.is_recommended,
            supported_languages: copy_list(&self.supported_languages),
            is_custom: self.is_custom,
        }
    }
}

/// The languages of the Whisper models.
pub open spec fn whisper_languages() -> Seq<Seq<char>> {
    text::words("en zh zh-Hans zh-Hant de es ru ko fr ja pt tr pl ca nl ar sv it id hi fi vi he uk el ms cs ro da hu ta no th ur hr bg lt la mi ml cy sk te fa lv bn sr az sl kn et mk br eu is hy ne mn bs kk sq sw gl mr pa si km sn yo so af oc ka be tg sd gu am yi lo uz fo ht ps tk nn mt sa lb my bo tl mg as tt haw ln ha ba jw su yue"@)
}

/// The languages of the Parakeet model.
pub open spec fn parakeet_languages() -> Seq<Seq<char>> {
    text::words("bg hr cs da nl en et fi fr de el hu it lv lt mt pl pt ro sk sl es sv ru uk"@)
}

/// The languages of the SenseVoice model.
pub open spec fn sense_voice_languages() -> Seq<Seq<char>> {
    text::words("zh zh-Hans zh-Hant en yue ja ko"@)
}

/// The models that are offered. Whisper Large has no download address: its file is put into the
/// models' directory by hand.
pub open spec fn offered_models() -> Seq<ModelView> {
    seq![
        ModelView {
            id: "small"@,
            name: "Whisper Small"@,
            description: "Fast and fairly accurate."@,
            filename: "ggml-small.bin"@,
            url: Some("https://github.com/rohithmahesh3/Dikt/releases/download/models/ggml-small.bin"@),
            size_mb: 487,
            is_downloaded: false,
            is_downloading: false,
            partial_size: 0,
            is_directory: false,
            engine_type: EngineType::Whisper,
            accuracy_score: 60,
            speed_score: 85,
            supports_translation: true,
            is_recommended: false,
            supported_languages: whisper_languages(),
            is_custom: false,
        },
        ModelView {
            id: "medium"@,
            name: "Whisper Medium"@,
            description: "Good accuracy, medium speed"@,
            filename: "whisper-medium-q4_1.bin"@,
            url: Some("https://github.com/rohithmahesh3/Dikt/releases/download/models/whisper-medium-q4_1.bin"@),
            size_mb: 492,
            is_downloaded: false,
            is_downloading: false,
            partial_size: 0,
            is_directory: false,
            engine_type: EngineType::Whisper,
            accuracy_score: 75,
            speed_score: 60,
            supports_translation: true,
            is_recommended: false,
            supported_languages: whisper_languages(),
            is_custom: false,
        },
        ModelView {
            id: "turbo"@,
            name: "Whisper Turbo"@,
            description: "Balanced accuracy and speed."@,
            filename: "ggml-large-v3-turbo.bin"@,
            url: Some("https://github.com/rohithmahesh3/Dikt/releases/download/models/ggml-large-v3-turbo.bin"@),
            size_mb: 1600,
            is_downloaded: false,
            is_downloading: false,
            partial_size: 0,
            is_directory: false,
            engine_type: EngineType::Whisper,
            accuracy_score: 80,
            speed_score: 40,
            supports_translation: false,
            is_recommended: false,
            supported_languages: whisper_languages(),
            is_custom: false,
        },
        ModelView {
            id: "large"@,
            name: "Whisper Large"@,
            description: "Best accuracy, but slow. Installed by hand."@,
            filename: "ggml-large-v3.bin"@,
            url: None,
            size_mb: 3100,
            is_downloaded: false,
            is_downloading: false,
            partial_size: 0,
            is_directory: false,
            engine_type: EngineType::Whisper,
            accuracy_score: 85,
            speed_score: 30,
            supports_translation: true,
            is_recommended: false,
            supported_languages: whisper_languages(),
            is_custom: false,
        },
        ModelView {
            id: "parakeet-tdt-0.6b-v3"@,
            name: "Parakeet V3"@,
            description: "Fast and accurate. Supports 25 European languages."@,
            filename: "parakeet-tdt-0.6b-v3-int8"@,
            url: Some("https://github.com/rohithmahesh3/Dikt/releases/download/models/parakeet-v3-int8.tar.gz"@),
            size_mb: 478,
            is_downloaded: false,
            is_downloading: false,
            partial_size: 0,
            is_directory: true,
            engine_type: EngineType::Parakeet,
            accuracy_score: 80,
            speed_score: 85,
            supports_translation: false,
            is_recommended: true,
            supported_languages: parakeet_languages(),
            is_custom: false,
        },
        ModelView {
            id: "sense-voice-int8"@,
            name: "SenseVoice"@,
            description: "Very fast. Chinese, English, Japanese, Korean, Cantonese."@,
            filename: "sense-voice-int8"@,
            url: Some("https://github.com/rohithmahesh3/Dikt/releases/download/models/sense-voice-int8.tar.gz"@),
            size_mb: 160,
            is_downloaded: false,
            is_downloading: false,
            partial_size: 0,
            is_directory: true,
            engine_type: EngineType::SenseVoice,
            accuracy_score: 65,
            speed_score: 95,
            supports_translation: false,
            is_recommended: false,
            supported_languages: sense_voice_languages(),
            is_custom: false,
        },
    ]
}

/// What a list of models holds.
pub open spec fn model_views(models: Seq<ModelInfo>) -> Seq<ModelView> {
    Seq::new(models.len(), |i: int| models[i]@)
}

/// The models that are offered.
pub fn offered_catalog() -> (r: Vec<ModelInfo>)
    ensures
        model_views(r@) == offered_models(),
{
    let mut r: Vec<ModelInfo> = Vec::new();
    r.push(
        ModelInfo {
            id: "small".to_owned(),
            name: "Whisper Small".to_owned(),
            description: "Fast and fairly accurate.".to_owned(),
            filename: "ggml-small.bin".to_owned(),
            url: Some("https://github.com/rohithmahesh3/Dikt/releases/download/models/ggml-small.bin".to_owned()),
            size_mb: 487,
            is_downloaded: false,
            is_downloading: false,
            partial_size: 0,
            is_directory: false,
            engine_type: EngineType::Whisper,
            accuracy_score: 60,
            speed_score: 85,
            supports_translation: true,
            is_recommended: false,
            supported_languages: split_words("en zh zh-Hans zh-Hant de es ru ko fr ja pt tr pl ca nl ar sv it id hi fi vi he uk el ms cs ro da hu ta no th ur hr bg lt la mi ml cy sk te fa lv bn sr az sl kn et mk br eu is hy ne mn bs kk sq sw gl mr pa si km sn yo so af oc ka be tg sd gu am yi lo uz fo ht ps tk nn mt sa lb my bo tl mg as tt haw ln ha ba jw su yue"),
            is_custom: false,
        },
    );
    r.push(
        ModelInfo {
            id: "medium".to_owned(),
            name: "Whisper Medium".to_owned(),
            description: "Good accuracy, medium speed".to_owned(),
            filename: "whisper-medium-q4_1.bin".to_owned(),
            url: Some("https://github.com/rohithmahesh3/Dikt/releases/download/models/whisper-medium-q4_1.bin".to_owned()),
            size_mb: 492,
            is_downloaded: false,
            is_downloading: false,
            partial_size: 0,
            is_directory: false,
            engine_type: EngineType::Whisper,
            accuracy_score: 75,
            speed_score: 60,
            supports_translation: true,
            is_recommended: false,
            supported_languages: split_words("en zh zh-Hans zh-Hant de es ru ko fr ja pt tr pl ca nl ar sv it id hi fi vi he uk el ms cs ro da hu ta no th ur hr bg lt la mi ml cy sk te fa lv bn sr az sl kn et mk br eu is hy ne mn bs kk sq sw gl mr pa si km sn yo so af oc ka be tg sd gu am yi lo uz fo ht ps tk nn mt sa lb my bo tl mg as tt haw ln ha ba jw su yue"),
            is_custom: false,
        },
    );
    r.push(
        ModelInfo {
            id: "turbo".to_owned(),
            name: "Whisper Turbo".to_owned(),
            description: "Balanced accuracy and speed.".to_owned(),
            filename: "ggml-large-v3-turbo.bin".to_owned(),
            url: Some("https://github.com/rohithmahesh3/Dikt/releases/download/models/ggml-large-v3-turbo.bin".to_owned()),
            size_mb: 1600,
            is_downloaded: false,
            is_downloading: false,
            partial_size: 0,
            is_directory: false,
            engine_type: EngineType::Whisper,
            accuracy_score: 80,
            speed_score: 40,
            supports_translation: false,
            is_recommended: false,
            supported_languages: split_words("en zh zh-Hans zh-Hant de es ru ko fr ja pt tr pl ca nl ar sv it id hi fi vi he uk el ms cs ro da hu ta no th ur hr bg lt la mi ml cy sk te fa lv bn sr az sl kn et mk br eu is hy ne mn bs kk sq sw gl mr pa si km sn yo so af oc ka be tg sd gu am yi lo uz fo ht ps tk nn mt sa lb my bo tl mg as tt haw ln ha ba jw su yue"),
            is_custom: false,
        },
    );
    r.push(
        ModelInfo {
            id: "large".to_owned(),
            name: "Whisper Large".to_owned(),
            description: "Best accuracy, but slow. Installed by hand.".to_owned(),
            filename: "ggml-large-v3.bin".to_owned(),
            url: None,
            size_mb: 3100,
            is_downloaded: false,
            is_downloading: false,
            partial_size: 0,
            is_directory: false,
            engine_type: EngineType::Whisper,
            accuracy_score: 85,
            speed_score: 30,
            supports_translation: true,
            is_recommended: false,
            supported_languages: split_words("en zh zh-Hans zh-Hant de es ru ko fr ja pt tr pl ca nl ar sv it id hi fi vi he uk el ms cs ro da hu ta no th ur hr bg lt la mi ml cy sk te fa lv bn sr az sl kn et mk br eu is hy ne mn bs kk sq sw gl mr pa si km sn yo so af oc ka be tg sd gu am yi lo uz fo ht ps tk nn mt sa lb my bo tl mg as tt haw ln ha ba jw su yue"),
            is_custom: false,
        },
    );
    r.push(
        ModelInfo {
            id: "parakeet-tdt-0.6b-v3".to_owned(),
            name: "Parakeet V3".to_owned(),
            description: "Fast and accurate. Supports 25 European languages.".to_owned(),
            filename: "parakeet-tdt-0.6b-v3-int8".to_owned(),
            url: Some("https://github.com/rohithmahesh3/Dikt/releases/download/models/parakeet-v3-int8.tar.gz".to_owned()),
            size_mb: 478,
            is_downloaded: false,
            is_downloading: false,
            partial_size: 0,
            is_directory: true,
            engine_type: EngineType::Parakeet,
            accuracy_score: 80,
            speed_score: 85,
            supports_translation: false,
            is_recommended: true,
            supported_languages: split_words("bg hr cs da nl en et fi fr de el hu it lv lt mt pl pt ro sk sl es sv ru uk"),
            is_custom: false,
        },
    );
    r.push(
        ModelInfo {
            id: "sense-voice-int8".to_owned(),
            name: "SenseVoice".to_owned(),
            description: "Very fast. Chinese, English, Japanese, Korean, Cantonese.".to_owned(),
            filename: "sense-voice-int8".to_owned(),
            url: Some("https://github.com/rohithmahesh3/Dikt/releases/download/models/sense-voice-int8.tar.gz".to_owned()),
            size_mb: 160,
            is_downloaded: false,
            is_downloading: false,
            partial_size: 0,
            is_directory: true,
            engine_type: EngineType::SenseVoice,
            accuracy_score: 65,
            speed_score: 95,
            supports_translation: false,
            is_recommended: false,
            supported_languages: split_words("zh zh-Hans zh-Hant en yue ja ko"),
            is_custom: false,
        },
    );
    assert(model_views(r@) =~= offered_models());
    r
}

/// Some file name has this beginning and this end.
pub open spec fn some_file(names: Seq<Seq<char>>, prefix: Seq<char>, suffix: Seq<char>) -> bool {
    exists|i: int|
        0 <= i < names.len() && text::has_prefix(#[trigger] names[i], prefix) && text::has_suffix(
            names[i],
            suffix,
        )
}

/// The files of a directory make up a model for the engine.
pub open spec fn layout_is_valid(engine: EngineType, names: Seq<Seq<char>>) -> bool {
    match engine {
        EngineType::Parakeet => {
            &&& some_file(names, "encoder-model"@, ".onnx"@)
            &&& some_file(names, "decoder_joint-model"@, ".onnx"@)
            &&& names.contains("nemo128.onnx"@)
            &&& names.contains("vocab.txt"@)
        },
        EngineType::SenseVoice => {
            &&& names.contains("tokens.txt"@)
            &&& names.contains("model.int8.onnx"@) || names.contains("model.onnx"@)
        },
        EngineType::Moonshine => some_file(names, ""@, ".onnx"@),
        EngineType::Whisper => false,
    }
}

fn any_file(names: &Vec<String>, prefix: &str, suffix: &str) -> (r: bool)
    ensures
        r == some_file(text::views(names@), prefix@, suffix@),
{
    let mut i: usize = 0;
    while i < names.len()
        invariant
            i <= names@.len(),
            forall|k: int|
                0 <= k < i ==> !(text::has_prefix(#[trigger] text::views(names@)[k], prefix@)
                    && text::has_suffix(text::views(names@)[k], suffix@)),
        decreases names@.len() - i,
    {
        if starts_with(names[i].as_str(), prefix) && ends_with(names[i].as_str(), suffix) {
            assert(text::has_prefix(text::views(names@)[i as int], prefix@));
            return true;
        }
        i += 1;
    }
    false
}

/// Whether the files of a directory make up a model for the engine.
pub fn is_valid_directory_model_layout(engine: EngineType, names: &Vec<String>) -> (r: bool)
    ensures
        r == layout_is_valid(engine, text::views(names@)),
{
    match engine {
        EngineType::Parakeet => any_file(names, "encoder-model", ".onnx") && any_file(
            names,
            "decoder_joint-model",
            ".onnx",
        ) && list_contains(names, "nemo128.onnx") && list_contains(names, "vocab.txt"),
        EngineType::SenseVoice => list_contains(names, "tokens.txt") && (list_contains(
            names,
            "model.int8.onnx",
        ) || list_contains(names, "model.onnx")),
        EngineType::Moonshine => any_file(names, "", ".onnx"),
        EngineType::Whisper => false,
    }
}

/// What stands where a model's directory belongs.
#[derive(Clone, Copy, Debug, PartialEq, Eq, Structural)]
pub enum PathKind {
    Missing,
    File,
    Directory,
}

/// What has to be done about a model's directory.
#[derive(Clone, Copy, Debug, PartialEq, Eq, Structural)]
pub enum RepairPlan {
    /// It holds a model.
    Valid,
    /// It holds none.
    Invalid,
    /// A file stands in its place: remove it.
    RemoveFile,
    /// Exactly one of its subdirectories holds a model: move its files up.
    MoveUp,
}

/// What has to be done about a model's directory, given what stands there, whether its files make
/// up a model, and how many of its subdirectories hold one.
pub fn plan_repair(kind: PathKind, layout_valid: bool, valid_children: usize) -> (r: RepairPlan)
    ensures
        r == (match kind {
            PathKind::Missing => RepairPlan::Invalid,
            PathKind::File => RepairPlan::RemoveFile,
            PathKind::Directory => if layout_valid {
                RepairPlan::Valid
            } else if valid_children == 1 {
                RepairPlan::MoveUp
            } else {
                RepairPlan::Invalid
            },
        }),
{
    match kind {
        PathKind::Missing => RepairPlan::Invalid,
        PathKind::File => RepairPlan::RemoveFile,
        PathKind::Directory => if layout_valid {
            RepairPlan::Valid
        } else if valid_children == 1 {
            RepairPlan::MoveUp
        } else {
            RepairPlan::Invalid
        },
    }
}

/// How many files can be moved up before one meets a name that is taken; all of them where none
/// does.
pub open spec fn free_until(nested: Seq<Seq<char>>, taken: Seq<Seq<char>>, from: int) -> int
    decreases nested.len() - from,
{
    if from >= nested.len() || taken.contains(nested[from]) {
        from
    } else {
        free_until(nested, taken, from + 1)
    }
}

/// How many files of a nested directory are moved up, one after another: the move ends, and the
/// repair fails, at the first whose name is taken.
pub fn plan_moves(nested: &Vec<String>, taken: &Vec<String>) -> (r: (usize, bool))
    ensures
        r.0 == free_until(text::views(nested@), text::views(taken@), 0),
        r.1 == (r.0 == nested@.len()),
{
    let ghost all = text::views(nested@);
    let mut i: usize = 0;
    while i < nested.len()
        invariant
            i <= nested@.len(),
            all == text::views(nested@),
            free_until(all, text::views(taken@), 0) == free_until(
                all,
                text::views(taken@),
                i as int,
            ),
        decreases nested@.len() - i,
    {
        assert(all[i as int] == nested@[i as int]@);
        if list_contains(taken, nested[i].as_str()) {
            return (i, false);
        }
        i += 1;
    }
    (i, true)
}

/// Whether an archive holds nothing but one directory, which then is the model's.
pub fn has_single_root(child_dirs: usize, other_files: usize) -> (r: bool)
    ensures
        r == (other_files == 0 && child_dirs == 1),
{
    other_files == 0 && child_dirs == 1
}

/// A file in the models' directory.
pub struct FoundFile {
    pub name: String,
    pub is_file: bool,
    /// Its size in bytes, 0 where it cannot be read.
    pub size: u64,
}

/// The file's name is that of a custom model.
pub open spec fn is_custom_name(name: Seq<char>) -> bool {
    !text::has_prefix(name, "."@) && text::has_suffix(name, ".bin"@)
}

/// The id of a custom model: its file's name without the ending.
pub open spec fn custom_id(name: Seq<char>) -> Seq<char> {
    text::drop_suffixes(name, ".bin"@)
}

/// A custom model.
pub open spec fn custom_model(name: Seq<char>, size: u64) -> ModelView {
    ModelView {
        id: custom_id(name),
        name,
        description: "Custom model"@,
        filename: name,
        url: None,
        size_mb: size / 1_048_576,
        is_downloaded: true,
        is_downloading: false,
        partial_size: 0,
        is_directory: false,
        engine_type: EngineType::Whisper,
        accuracy_score: 0,
        speed_score: 0,
        supports_translation: false,
        is_recommended: false,
        supported_languages: Seq::empty(),
        is_custom: true,
    }
}

/// Some model has this id.
pub open spec fn has_id(models: Seq<ModelView>, id: Seq<char>) -> bool {
    exists|i: int| 0 <= i < models.len() && (#[trigger] models[i]).id == id
}

/// The file belongs to a single-file Whisper model.
pub open spec fn is_known_file(models: Seq<ModelView>, name: Seq<char>) -> bool {
    exists|i: int|
        0 <= i < models.len() && (#[trigger] models[i]).engine_type == EngineType::Whisper
            && !models[i].is_directory && models[i].filename == name
}

/// The models once a file has been looked at: a custom model is added unless its file or its id is
/// known.
pub open spec fn looked_at(
    known: Seq<ModelView>,
    models: Seq<ModelView>,
    file: FoundFile,
) -> Seq<ModelView> {
    if file.is_file && is_custom_name(file.name@) && !is_known_file(known, file.name@) && !has_id(
        models,
        custom_id(file.name@),
    ) {
        models.push(custom_model(file.name@, file.size))
    } else {
        models
    }
}

/// The models once all files have been looked at.
pub open spec fn discovered(known: Seq<ModelView>, files: Seq<FoundFile>) -> Seq<ModelView>
    decreases files.len(),
{
    if files.len() == 0 {
        known
    } else {
        looked_at(known, discovered(known, files.drop_last()), files.last())
    }
}

fn knows_id(models: &Vec<ModelInfo>, id: &str) -> (r: bool)
    ensures
        r == has_id(model_views(models@), id@),
{
    let mut i: usize = 0;
    while i < models.len()
        invariant
            i <= models@.len(),
            forall|k: int| 0 <= k < i ==> (#[trigger] model_views(models@)[k]).id != id@,
        decreases models@.len() - i,
    {
        if same_text(models[i].id.as_str(), id) {
            assert(model_views(models@)[i as int].id == id@);
            return true;
        }
        i += 1;
    }
    false
}

fn known_files(models: &Vec<ModelInfo>) -> (r: Vec<String>)
    ensures
        forall|name: Seq<char>|
            #![auto]
            text::views(r@).contains(name) <==> is_known_file(model_views(models@), name),
{
    let mut r: Vec<String> = Vec::new();
    let ghost all = model_views(models@);
    let mut i: usize = 0;
    while i < models.len()
        invariant
            i <= models@.len(),
            all == model_views(models@),
            forall|k: int|
                0 <= k < r@.len() ==> is_known_file(all, #[trigger] text::views(r@)[k]),
            forall|k: int|
                0 <= k < i && (#[trigger] all[k]).engine_type == EngineType::Whisper
                    && !all[k].is_directory ==> text::views(r@).contains(all[k].filename),
        decreases models@.len() - i,
    {
        let ghost before = text::views(r@);
        if models[i].engine_type == EngineType::Whisper && !models[i].is_directory {
            r.push(models[i].filename.clone());
            proof {
                let after = text::views(r@);
                assert(after =~= before.push(all[i as int].filename));
                assert(after[before.len() as int] == all[i as int].filename);
                assert(is_known_file(all, all[i as int].filename));
                assert forall|k: int| 0 <= k < r@.len() implies is_known_file(
                    all,
                    #[trigger] after[k],
                ) by {
                    if k < before.len() {
                        assert(after[k] == before[k]);
                    }
                }
                assert forall|k: int|
                    0 <= k < i && (#[trigger] all[k]).engine_type == EngineType::Whisper
                        && !all[k].is_directory implies after.contains(all[k].filename) by {
                    let j = choose|j: int| 0 <= j < before.len() && before[j] == all[k].filename;
                    assert(after[j] == all[k].filename);
                }
            }
        }
        i += 1;
    }
    r
}

/// Adds a custom model for each file of the models' directory that is none of the known ones.
pub fn discover_custom_whisper_models(models: &mut Vec<ModelInfo>, files: &Vec<FoundFile>)
    ensures
        model_views(final(models)@) == discovered(model_views(old(models)@), files@),
{
    let known = known_files(models);
    let ghost start = model_views(models@);
    let mut i: usize = 0;
    assert(files@.take(0) =~= Seq::<FoundFile>::empty());
    while i < files.len()
        invariant
            i <= files@.len(),
            forall|name: Seq<char>|
                #![auto]
                text::views(known@).contains(name) <==> is_known_file(start, name),
            model_views(models@) == discovered(start, files@.take(i as int)),
        decreases files@.len() - i,
    {
        let ghost before = models@;
        proof {
            let next = files@.take(i + 1);
            assert(next.drop_last() =~= files@.take(i as int));
            assert(next.last() == files@[i as int]);
        }
        let name = files[i].name.as_str();
        if files[i].is_file && !starts_with(name, ".") && ends_with(name, ".bin") && !list_contains(
            &known,
            name,
        ) {
            let id = trim_end_matches(name, ".bin");
            if !knows_id(models, id.as_str()) {
                models.push(
                    ModelInfo {
                        id,
                        name: files[i].name.clone(),
                        description: "Custom model".to_owned(),
                        filename: files[i].name.clone(),
                        url: None,
                        size_mb: files[i].size / 1_048_576,
                        is_downloaded: true,
                        is_downloading: false,
                        partial_size: 0,
                        is_directory: false,
                        engine_type: EngineType::Whisper,
                        accuracy_score: 0,
                        speed_score: 0,
                        supports_translation: false,
                        is_recommended: false,
                        supported_languages: Vec::new(),
                        is_custom: true,
                    },
                );
                proof {
                    assert(models@.last()@.supported_languages =~= Seq::<Seq<char>>::empty());
                    assert(model_views(models@) =~= model_views(before).push(models@.last()@));
                }
            }
        }
        i += 1;
    }
    assert(files@.take(i as int) =~= files@);
}

/// No two models share an id.
pub open spec fn ids_unique(models: Seq<ModelView>) -> bool {
    forall|i: int, j: int|
        0 <= i < j < models.len() ==> (#[trigger] models[i]).id != (#[trigger] models[j]).id
}

/// The sizes of all models fit into a count of bytes.
pub open spec fn sizes_fit(models: Seq<ModelView>) -> bool {
    forall|i: int| 0 <= i < models.len() ==> (#[trigger] models[i]).size_mb <= 0xFFF_FFFF_FFFF
}

/// Looking for custom models keeps the models that are known, in their place, and no two models
/// ever share an id; what is added is a custom model that is ready to use.
pub proof fn law_discovery_only_adds(known: Seq<ModelView>, files: Seq<FoundFile>)
    requires
        ids_unique(known),
        sizes_fit(known),
    ensures
        known.is_prefix_of(discovered(known, files)),
        ids_unique(discovered(known, files)),
        sizes_fit(discovered(known, files)),
        forall|i: int|
            known.len() <= i < discovered(known, files).len() ==> (#[trigger] discovered(
                known,
                files,
            )[i]).is_custom && discovered(known, files)[i].is_downloaded,
    decreases files.len(),
{
    if files.len() == 0 {
        assert(known.take(known.len() as int) =~= known);
    } else {
        law_discovery_only_adds(known, files.drop_last());
        let before = discovered(known, files.drop_last());
        let after = discovered(known, files);
        assert forall|i: int| 0 <= i < known.len() implies known[i] == after[i] by {
            assert(before.take(known.len() as int)[i] == before[i]);
        }
        assert(after.take(known.len() as int) =~= known);
        assert forall|i: int, j: int| 0 <= i < j < after.len() implies (#[trigger] after[i]).id != (
        #[trigger] after[j]).id by {
            if j == before.len() {
                assert(before[i].id == after[i].id);
            }
        }
    }
}

/// No two of the offered models share an id.
pub proof fn law_offered_models_are_distinct()
    ensures
        ids_unique(offered_models()),
        sizes_fit(offered_models()),
{
    reveal_strlit("small");
    reveal_strlit("medium");
    reveal_strlit("turbo");
    reveal_strlit("large");
    reveal_strlit("parakeet-tdt-0.6b-v3");
    reveal_strlit("sense-voice-int8");
    assert("small"@.len() == 5 && "medium"@.len() == 6 && "turbo"@.len() == 5 && "large"@.len()
        == 5 && "parakeet-tdt-0.6b-v3"@.len() == 20 && "sense-voice-int8"@.len() == 16);
    assert("small"@[0] == 's' && "turbo"@[0] == 't' && "large"@[0] == 'l');
}

/// A file is taken for a model exactly once: looking again at the same directory adds nothing for
/// a file that was taken, whether as a custom model or as one that was known.
pub proof fn law_found_file_is_known(known: Seq<ModelView>, models: Seq<ModelView>, file: FoundFile)
    ensures
        looked_at(known, looked_at(known, models, file), file) == looked_at(known, models, file),
{
    let after = looked_at(known, models, file);
    if after.len() > models.len() {
        assert(after[models.len() as int].id == custom_id(file.name@));
    }
}

/// A directory holds a Parakeet model once it has an encoder, a decoder, the preprocessor and the
/// vocabulary, whatever else is in it; without any one of these it holds none.
pub proof fn law_parakeet_needs_its_four_files(names: Seq<Seq<char>>, e: int, d: int)
    requires
        0 <= e < names.len(),
        0 <= d < names.len(),
        text::has_prefix(names[e], "encoder-model"@) && text::has_suffix(names[e], ".onnx"@),
        text::has_prefix(names[d], "decoder_joint-model"@) && text::has_suffix(names[d], ".onnx"@),
    ensures
        layout_is_valid(EngineType::Parakeet, names) <==> names.contains("nemo128.onnx"@)
            && names.contains("vocab.txt"@),
{
    assert(some_file(names, "encoder-model"@, ".onnx"@));
    assert(some_file(names, "decoder_joint-model"@, ".onnx"@));
}

/// Without an encoder, or without a decoder, a directory holds no Parakeet model.
pub proof fn law_parakeet_needs_encoder_and_decoder(names: Seq<Seq<char>>)
    requires
        (forall|i: int|
            0 <= i < names.len() ==> !text::has_prefix(#[trigger] names[i], "encoder-model"@)) || (
        forall|i: int|
            0 <= i < names.len() ==> !text::has_prefix(#[trigger] names[i], "decoder_joint-model"@)),
    ensures
        !layout_is_valid(EngineType::Parakeet, names),
{
}

/// A directory holds a SenseVoice model once it has the tokens and a model in either form, and a
/// Moonshine model once it has any ONNX file. A Whisper model is a file and in no directory.
pub proof fn law_other_models_need_few_files(names: Seq<Seq<char>>, i: int)
    requires
        0 <= i < names.len(),
    ensures
        names.contains("tokens.txt"@) && names.contains("model.onnx"@) ==> layout_is_valid(
            EngineType::SenseVoice,
            names,
        ),
        names.contains("tokens.txt"@) && names.contains("model.int8.onnx"@) ==> layout_is_valid(
            EngineType::SenseVoice,
            names,
        ),
        !names.contains("tokens.txt"@) ==> !layout_is_valid(EngineType::SenseVoice, names),
        !names.contains("model.onnx"@) && !names.contains("model.int8.onnx"@) ==> !layout_is_valid(
            EngineType::SenseVoice,
            names,
        ),
        text::has_suffix(names[i], ".onnx"@) ==> layout_is_valid(EngineType::Moonshine, names),
        !layout_is_valid(EngineType::Whisper, names),
{
    reveal_strlit("");
    assert(names[i].subrange(0, 0) =~= ""@);
    assert(text::has_prefix(names[i], ""@));
}

/// Every file that ends with .bin, does not begin with a dot and is no offered model's file is a
/// model of the user's own, unless a model has its id already; it is then known by that id.
pub proof fn law_every_own_model_is_found(known: Seq<ModelView>, files: Seq<FoundFile>, i: int)
    requires
        0 <= i < files.len(),
        files[i].is_file,
        !text::has_prefix(files[i].name@, "."@),
        text::has_suffix(files[i].name@, ".bin"@),
        forall|k: int|
            0 <= k < known.len() ==> (#[trigger] known[k]).filename != files[i].name@,
    ensures
        has_id(discovered(known, files), text::drop_suffixes(files[i].name@, ".bin"@)),
    decreases files.len(),
{
    let before = discovered(known, files.drop_last());
    let after = discovered(known, files);
    let id = text::drop_suffixes(files[i].name@, ".bin"@);
    assert(!is_known_file(known, files[i].name@));
    if i < files.len() - 1 {
        assert(files.drop_last()[i] == files[i]);
        law_every_own_model_is_found(known, files.drop_last(), i);
        let k = choose|k: int| 0 <= k < before.len() && (#[trigger] before[k]).id == id;
        assert(after[k] == before[k]);
    } else if has_id(before, id) {
        let k = choose|k: int| 0 <= k < before.len() && (#[trigger] before[k]).id == id;
        assert(after[k] == before[k]);
    } else {
        assert(after[before.len() as int].id == id);
    }
}

/// What is found is a Whisper model, in the file that was found, of its size in whole megabytes; it
/// is there and there is nowhere to download it from.
pub proof fn law_own_model_is_its_file(known: Seq<ModelView>, models: Seq<ModelView>, file: FoundFile)
    ensures
        ({
            let after = looked_at(known, models, file);
            let m = after.last();
            &&& after != models ==> {
                &&& after.len() == models.len() + 1 && after.drop_last() == models
                &&& file.is_file
                &&& m.filename == file.name@ && m.name == file.name@
                &&& m.id == text::drop_suffixes(file.name@, ".bin"@)
                &&& m.size_mb * 1024 * 1024 <= file.size < (m.size_mb + 1) * 1024 * 1024
                &&& m.is_downloaded && !m.is_downloading && m.partial_size == 0 && m.url is None
                &&& m.engine_type == EngineType::Whisper && !m.is_directory && m.is_custom
                    && !m.is_recommended
            }
        }),
{
    let after = looked_at(known, models, file);
    if after != models {
        assert(after.drop_last() =~= models);
    }
}

/// A file that does not end with .bin, that begins with a dot, that is an offered model's, or whose
/// id is taken, is no model of the user's own; nor is a directory.
pub proof fn law_other_files_are_no_models(known: Seq<ModelView>, models: Seq<ModelView>, file: FoundFile)
    ensures
        !file.is_file ==> looked_at(known, models, file) == models,
        !text::has_suffix(file.name@, ".bin"@) ==> looked_at(known, models, file) == models,
        text::has_prefix(file.name@, "."@) ==> looked_at(known, models, file) == models,
        forall|k: int|
            #![auto]
            0 <= k < known.len() && known[k].filename == file.name@ && !known[k].is_directory
                && known[k].engine_type == EngineType::Whisper ==> looked_at(known, models, file)
                == models,
        forall|k: int|
            #![auto]
            0 <= k < models.len() && models[k].id == text::drop_suffixes(file.name@, ".bin"@)
                ==> looked_at(known, models, file) == models,
{
}

/// Files are moved up in their order until one stands in the way of which a file is there already;
/// all before it are free.
pub proof fn law_moves_stop_at_the_first_taken_name(
    nested: Seq<Seq<char>>,
    taken: Seq<Seq<char>>,
    from: int,
)
    requires
        0 <= from <= nested.len(),
    ensures
        from <= free_until(nested, taken, from) <= nested.len(),
        forall|k: int|
            from <= k < free_until(nested, taken, from) ==> !taken.contains(#[trigger] nested[k]),
        free_until(nested, taken, from) < nested.len() ==> taken.contains(
            nested[free_until(nested, taken, from)],
        ),
    decreases nested.len() - from,
{
    if from < nested.len() && !taken.contains(nested[from]) {
        law_moves_stop_at_the_first_taken_name(nested, taken, from + 1);
    }
}

/// One model is recommended, Parakeet. The models that are directories are those that are no Whisper
/// models, and every model but the one that is installed by hand can be downloaded. Nothing is there
/// at first.
pub proof fn law_offered_models_are_complete(i: int)
    requires
        0 <= i < offered_models().len(),
    ensures
        ({
            let m = offered_models()[i];
            &&& m.is_recommended <==> m.engine_type == EngineType::Parakeet
            &&& m.is_directory <==> m.engine_type != EngineType::Whisper
            &&& m.url is None <==> m.id == "large"@
            &&& !m.is_downloaded && !m.is_downloading && m.partial_size == 0 && !m.is_custom
            &&& 0 < m.accuracy_score <= 100 && 0 < m.speed_score <= 100 && m.size_mb > 0
            &&& m.supports_translation ==> m.engine_type == EngineType::Whisper
        }),
{
    reveal_strlit("small");
    reveal_strlit("medium");
    reveal_strlit("turbo");
    reveal_strlit("large");
    reveal_strlit("parakeet-tdt-0.6b-v3");
    reveal_strlit("sense-voice-int8");
    assert("small"@[0] == 's' && "turbo"@[0] == 't' && "large"@[0] == 'l');
    assert("small"@ != "large"@ && "turbo"@ != "large"@);
}

} // verus!
