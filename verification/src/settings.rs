//! The settings' values: how they are stored as numbers, and what they mean.

use crate::json;
use crate::json::{json_text_map, write_text_map};
use crate::text;
use crate::text::{concat2, same_text};
use vstd::prelude::*;
use vstd::string::*;

verus! {

/// A level of logging.
#[derive(Clone, Copy, Debug, PartialEq, Eq, Structural)]
pub enum LogLevel {
    Trace,
    Debug,
    Info,
    Warn,
    Error,
}

/// The number that stands for a value.
pub open spec fn log_level_code(v: LogLevel) -> i32 {
    match v {
        LogLevel::Trace => 0,
        LogLevel::Debug => 1,
        LogLevel::Info => 2,
        LogLevel::Warn => 3,
        LogLevel::Error => 4,
    }
}

/// The value that a number stands for; an unknown one stands for the default.
pub open spec fn log_level_of(code: i32) -> LogLevel {
    if code == 0 {
        LogLevel::Trace
    } else if code == 1 {
        LogLevel::Debug
    } else if code == 2 {
        LogLevel::Info
    } else if code == 3 {
        LogLevel::Warn
    } else if code == 4 {
        LogLevel::Error
    } else {
        LogLevel::Debug
    }
}

impl Default for LogLevel {
    fn default() -> (v: Self)
        ensures
            v == LogLevel::Debug,
    {
        LogLevel::Debug
    }
}

impl LogLevel {
    /// The number that stands for the value.
    pub fn code(self) -> (r: i32)
        ensures
            r == log_level_code(self),
    {
        match self {
            LogLevel::Trace => 0,
            LogLevel::Debug => 1,
            LogLevel::Info => 2,
            LogLevel::Warn => 3,
            LogLevel::Error => 4,
        }
    }

    /// The value that a number stands for.
    pub fn from_code(code: i32) -> (r: Self)
        ensures
            r == log_level_of(code),
    {
        match code {
            0 => LogLevel::Trace,
            1 => LogLevel::Debug,
            2 => LogLevel::Info,
            3 => LogLevel::Warn,
            4 => LogLevel::Error,
            _ => LogLevel::Debug,
        }
    }
}

/// The sounds that tell of a recording.
#[derive(Clone, Copy, Debug, PartialEq, Eq, Structural)]
pub enum SoundTheme {
    Marimba,
    Pop,
    Custom,
}

/// The number that stands for a value.
pub open spec fn sound_theme_code(v: SoundTheme) -> i32 {
    match v {
        SoundTheme::Marimba => 0,
        SoundTheme::Pop => 1,
        SoundTheme::Custom => 2,
    }
}

/// The value that a number stands for; an unknown one stands for the default.
pub open spec fn sound_theme_of(code: i32) -> SoundTheme {
    if code == 0 {
        SoundTheme::Marimba
    } else if code == 1 {
        SoundTheme::Pop
    } else if code == 2 {
        SoundTheme::Custom
    } else {
        SoundTheme::Marimba
    }
}

impl Default for SoundTheme {
    fn default() -> (v: Self)
        ensures
            v == SoundTheme::Marimba,
    {
        SoundTheme::Marimba
    }
}

impl SoundTheme {
    /// The number that stands for the value.
    pub fn code(self) -> (r: i32)
        ensures
            r == sound_theme_code(self),
    {
        match self {
            SoundTheme::Marimba => 0,
            SoundTheme::Pop => 1,
            SoundTheme::Custom => 2,
        }
    }

    /// The value that a number stands for.
    pub fn from_code(code: i32) -> (r: Self)
        ensures
            r == sound_theme_of(code),
    {
        match code {
            0 => SoundTheme::Marimba,
            1 => SoundTheme::Pop,
            2 => SoundTheme::Custom,
            _ => SoundTheme::Marimba,
        }
    }
}

/// How long a model stays loaded while it is not used.
#[derive(Clone, Copy, Debug, PartialEq, Eq, Structural)]
pub enum ModelUnloadTimeout {
    Never,
    Immediately,
    Min2,
    Min5,
    Min10,
    Min15,
    Hour1,
    Sec5,
}

/// The number that stands for a value.
pub open spec fn unload_timeout_code(v: ModelUnloadTimeout) -> i32 {
    match v {
        ModelUnloadTimeout::Never => 0,
        ModelUnloadTimeout::Immediately => 1,
        ModelUnloadTimeout::Min2 => 2,
        ModelUnloadTimeout::Min5 => 3,
        ModelUnloadTimeout::Min10 => 4,
        ModelUnloadTimeout::Min15 => 5,
        ModelUnloadTimeout::Hour1 => 6,
        ModelUnloadTimeout::Sec5 => 7,
    }
}

/// The value that a number stands for; an unknown one stands for the default.
pub open spec fn unload_timeout_of(code: i32) -> ModelUnloadTimeout {
    if code == 0 {
        ModelUnloadTimeout::Never
    } else if code == 1 {
        ModelUnloadTimeout::Immediately
    } else if code == 2 {
        ModelUnloadTimeout::Min2
    } else if code == 3 {
        ModelUnloadTimeout::Min5
    } else if code == 4 {
        ModelUnloadTimeout::Min10
    } else if code == 5 {
        ModelUnloadTimeout::Min15
    } else if code == 6 {
        ModelUnloadTimeout::Hour1
    } else if code == 7 {
        ModelUnloadTimeout::Sec5
    } else {
        ModelUnloadTimeout::Never
    }
}

impl Default for ModelUnloadTimeout {
    fn default() -> (v: Self)
        ensures
            v == ModelUnloadTimeout::Never,
    {
        ModelUnloadTimeout::Never
    }
}

impl ModelUnloadTimeout {
    /// The number that stands for the value.
    pub fn code(self) -> (r: i32)
        ensures
            r == unload_timeout_code(self),
    {
        match self {
            ModelUnloadTimeout::Never => 0,
            ModelUnloadTimeout::Immediately => 1,
            ModelUnloadTimeout::Min2 => 2,
            ModelUnloadTimeout::Min5 => 3,
            ModelUnloadTimeout::Min10 => 4,
            ModelUnloadTimeout::Min15 => 5,
            ModelUnloadTimeout::Hour1 => 6,
            ModelUnloadTimeout::Sec5 => 7,
        }
    }

    /// The value that a number stands for.
    pub fn from_code(code: i32) -> (r: Self)
        ensures
            r == unload_timeout_of(code),
    {
        match code {
            0 => ModelUnloadTimeout::Never,
            1 => ModelUnloadTimeout::Immediately,
            2 => ModelUnloadTimeout::Min2,
            3 => ModelUnloadTimeout::Min5,
            4 => ModelUnloadTimeout::Min10,
            5 => ModelUnloadTimeout::Min15,
            6 => ModelUnloadTimeout::Hour1,
            7 => ModelUnloadTimeout::Sec5,
            _ => ModelUnloadTimeout::Never,
        }
    }
}

/// How text is put into a field.
#[derive(Clone, Copy, Debug, PartialEq, Eq, Structural)]
pub enum PasteMethod {
    CtrlV,
    Direct,
    Nothing,
    ShiftInsert,
    CtrlShiftV,
}

/// The number that stands for a value.
pub open spec fn paste_method_code(v: PasteMethod) -> i32 {
    match v {
        PasteMethod::CtrlV => 0,
        PasteMethod::Direct => 1,
        PasteMethod::Nothing => 2,
        PasteMethod::ShiftInsert => 3,
        PasteMethod::CtrlShiftV => 4,
    }
}

/// The value that a number stands for; an unknown one stands for the default.
pub open spec fn paste_method_of(code: i32) -> PasteMethod {
    if code == 0 {
        PasteMethod::CtrlV
    } else if code == 1 {
        PasteMethod::Direct
    } else if code == 2 {
        PasteMethod::Nothing
    } else if code == 3 {
        PasteMethod::ShiftInsert
    } else if code == 4 {
        PasteMethod::CtrlShiftV
    } else {
        PasteMethod::Direct
    }
}

impl Default for PasteMethod {
    fn default() -> (v: Self)
        ensures
            v == PasteMethod::Direct,
    {
        PasteMethod::Direct
    }
}

impl PasteMethod {
    /// The number that stands for the value.
    pub fn code(self) -> (r: i32)
        ensures
            r == paste_method_code(self),
    {
        match self {
            PasteMethod::CtrlV => 0,
            PasteMethod::Direct => 1,
            PasteMethod::Nothing => 2,
            PasteMethod::ShiftInsert => 3,
            PasteMethod::CtrlShiftV => 4,
        }
    }

    /// The value that a number stands for.
    pub fn from_code(code: i32) -> (r: Self)
        ensures
            r == paste_method_of(code),
    {
        match code {
            0 => PasteMethod::CtrlV,
            1 => PasteMethod::Direct,
            2 => PasteMethod::Nothing,
            3 => PasteMethod::ShiftInsert,
            4 => PasteMethod::CtrlShiftV,
            _ => PasteMethod::Direct,
        }
    }
}

/// What becomes of the clipboard.
#[derive(Clone, Copy, Debug, PartialEq, Eq, Structural)]
pub enum ClipboardHandling {
    DontModify,
    CopyToClipboard,
}

/// The number that stands for a value.
pub open spec fn clipboard_handling_code(v: ClipboardHandling) -> i32 {
    match v {
        ClipboardHandling::DontModify => 0,
        ClipboardHandling::CopyToClipboard => 1,
    }
}

/// The value that a number stands for; an unknown one stands for the default.
pub open spec fn clipboard_handling_of(code: i32) -> ClipboardHandling {
    if code == 0 {
        ClipboardHandling::DontModify
    } else if code == 1 {
        ClipboardHandling::CopyToClipboard
    } else {
        ClipboardHandling::DontModify
    }
}

impl Default for ClipboardHandling {
    fn default() -> (v: Self)
        ensures
            v == ClipboardHandling::DontModify,
    {
        ClipboardHandling::DontModify
    }
}

impl ClipboardHandling {
    /// The number that stands for the value.
    pub fn code(self) -> (r: i32)
        ensures
            r == clipboard_handling_code(self),
    {
        match self {
            ClipboardHandling::DontModify => 0,
            ClipboardHandling::CopyToClipboard => 1,
        }
    }

    /// The value that a number stands for.
    pub fn from_code(code: i32) -> (r: Self)
        ensures
            r == clipboard_handling_of(code),
    {
        match code {
            0 => ClipboardHandling::DontModify,
            1 => ClipboardHandling::CopyToClipboard,
            _ => ClipboardHandling::DontModify,
        }
    }
}

/// The key that submits a text.
#[derive(Clone, Copy, Debug, PartialEq, Eq, Structural)]
pub enum AutoSubmitKey {
    Enter,
    CtrlEnter,
    SuperEnter,
}

/// The number that stands for a value.
pub open spec fn auto_submit_key_code(v: AutoSubmitKey) -> i32 {
    match v {
        AutoSubmitKey::Enter => 0,
        AutoSubmitKey::CtrlEnter => 1,
        AutoSubmitKey::SuperEnter => 2,
    }
}

/// The value that a number stands for; an unknown one stands for the default.
pub open spec fn auto_submit_key_of(code: i32) -> AutoSubmitKey {
    if code == 0 {
        AutoSubmitKey::Enter
    } else if code == 1 {
        AutoSubmitKey::CtrlEnter
    } else if code == 2 {
        AutoSubmitKey::SuperEnter
    } else {
        AutoSubmitKey::Enter
    }
}

impl Default for AutoSubmitKey {
    fn default() -> (v: Self)
        ensures
            v == AutoSubmitKey::Enter,
    {
        AutoSubmitKey::Enter
    }
}

impl AutoSubmitKey {
    /// The number that stands for the value.
    pub fn code(self) -> (r: i32)
        ensures
            r == auto_submit_key_code(self),
    {
        match self {
            AutoSubmitKey::Enter => 0,
            AutoSubmitKey::CtrlEnter => 1,
            AutoSubmitKey::SuperEnter => 2,
        }
    }

    /// The value that a number stands for.
    pub fn from_code(code: i32) -> (r: Self)
        ensures
            r == auto_submit_key_of(code),
    {
        match code {
            0 => AutoSubmitKey::Enter,
            1 => AutoSubmitKey::CtrlEnter,
            2 => AutoSubmitKey::SuperEnter,
            _ => AutoSubmitKey::Enter,
        }
    }
}

/// The tool that types text.
#[derive(Clone, Copy, Debug, PartialEq, Eq, Structural)]
pub enum TypingTool {
    Auto,
    Wtype,
    Kwtype,
    Dotool,
    Ydotool,
}

/// The number that stands for a value.
pub open spec fn typing_tool_code(v: TypingTool) -> i32 {
    match v {
        TypingTool::Auto => 0,
        TypingTool::Wtype => 1,
        TypingTool::Kwtype => 2,
        TypingTool::Dotool => 3,
        TypingTool::Ydotool => 4,
    }
}

/// The value that a number stands for; an unknown one stands for the default.
pub open spec fn typing_tool_of(code: i32) -> TypingTool {
    if code == 0 {
        TypingTool::Auto
    } else if code == 1 {
        TypingTool::Wtype
    } else if code == 2 {
        TypingTool::Kwtype
    } else if code == 3 {
        TypingTool::Dotool
    } else if code == 4 {
        TypingTool::Ydotool
    } else {
        TypingTool::Auto
    }
}

impl Default for TypingTool {
    fn default() -> (v: Self)
        ensures
            v == TypingTool::Auto,
    {
        TypingTool::Auto
    }
}

impl TypingTool {
    /// The number that stands for the value.
    pub fn code(self) -> (r: i32)
        ensures
            r == typing_tool_code(self),
    {
        match self {
            TypingTool::Auto => 0,
            TypingTool::Wtype => 1,
            TypingTool::Kwtype => 2,
            TypingTool::Dotool => 3,
            TypingTool::Ydotool => 4,
        }
    }

    /// The value that a number stands for.
    pub fn from_code(code: i32) -> (r: Self)
        ensures
            r == typing_tool_of(code),
    {
        match code {
            0 => TypingTool::Auto,
            1 => TypingTool::Wtype,
            2 => TypingTool::Kwtype,
            3 => TypingTool::Dotool,
            4 => TypingTool::Ydotool,
            _ => TypingTool::Auto,
        }
    }
}

/// Every value is stored as a number that stands for it again.
pub proof fn law_settings_survive_storage(
    level: LogLevel,
    theme: SoundTheme,
    timeout: ModelUnloadTimeout,
    paste: PasteMethod,
    clipboard: ClipboardHandling,
    key: AutoSubmitKey,
    tool: TypingTool,
)
    ensures
        log_level_of(log_level_code(level)) == level,
        sound_theme_of(sound_theme_code(theme)) == theme,
        unload_timeout_of(unload_timeout_code(timeout)) == timeout,
        paste_method_of(paste_method_code(paste)) == paste,
        clipboard_handling_of(clipboard_handling_code(clipboard)) == clipboard,
        auto_submit_key_of(auto_submit_key_code(key)) == key,
        typing_tool_of(typing_tool_code(tool)) == tool,
{
}

/// The name of a sound theme.
pub open spec fn theme_name(t: SoundTheme) -> Seq<char> {
    match t {
        SoundTheme::Marimba => "marimba"@,
        SoundTheme::Pop => "pop"@,
        SoundTheme::Custom => "custom"@,
    }
}

impl SoundTheme {
    /// The theme's name.
    pub fn as_str(&self) -> (r: &'static str)
        ensures
            r@ == theme_name(*self),
    {
        match self {
            SoundTheme::Marimba => "marimba",
            SoundTheme::Pop => "pop",
            SoundTheme::Custom => "custom",
        }
    }

    /// The file of the theme's start sound beside the program.
    pub fn to_start_path(&self) -> (r: String)
        ensures
            r@ == "resources/"@ + theme_name(*self) + "_start.wav"@,
    {
        let mut r = concat2("resources/", self.as_str());
        r.append("_start.wav");
        r
    }

    /// The file of the theme's stop sound beside the program.
    pub fn to_stop_path(&self) -> (r: String)
        ensures
            r@ == "resources/"@ + theme_name(*self) + "_stop.wav"@,
    {
        let mut r = concat2("resources/", self.as_str());
        r.append("_stop.wav");
        r
    }
}

/// How many seconds a model stays loaded while it is not used; for ever where nothing is said.
pub open spec fn unload_seconds(t: ModelUnloadTimeout) -> Option<u64> {
    match t {
        ModelUnloadTimeout::Never => None,
        ModelUnloadTimeout::Immediately => Some(0),
        ModelUnloadTimeout::Sec5 => Some(5),
        ModelUnloadTimeout::Min2 => Some(120),
        ModelUnloadTimeout::Min5 => Some(300),
        ModelUnloadTimeout::Min10 => Some(600),
        ModelUnloadTimeout::Min15 => Some(900),
        ModelUnloadTimeout::Hour1 => Some(3600),
    }
}

impl ModelUnloadTimeout {
    /// How many seconds a model stays loaded while it is not used.
    pub fn to_seconds(self) -> (r: Option<u64>)
        ensures
            r == unload_seconds(self),
    {
        match self {
            ModelUnloadTimeout::Never => None,
            ModelUnloadTimeout::Immediately => Some(0),
            ModelUnloadTimeout::Sec5 => Some(5),
            ModelUnloadTimeout::Min2 => Some(120),
            ModelUnloadTimeout::Min5 => Some(300),
            ModelUnloadTimeout::Min10 => Some(600),
            ModelUnloadTimeout::Min15 => Some(900),
            ModelUnloadTimeout::Hour1 => Some(3600),
        }
    }
}

/// Where models are to run.
#[derive(Clone, Copy, Debug, PartialEq, Eq, Structural)]
pub enum InferenceDevicePolicy {
    Auto,
    Cpu,
    Gpu,
}

/// The name of a policy.
pub open spec fn policy_name(p: InferenceDevicePolicy) -> Seq<char> {
    match p {
        InferenceDevicePolicy::Auto => "auto"@,
        InferenceDevicePolicy::Cpu => "cpu"@,
        InferenceDevicePolicy::Gpu => "gpu"@,
    }
}

/// The policy of a name; an unknown one stands for the automatic choice.
pub open spec fn policy_named(name: Seq<char>) -> InferenceDevicePolicy {
    if name == "cpu"@ {
        InferenceDevicePolicy::Cpu
    } else if name == "gpu"@ {
        InferenceDevicePolicy::Gpu
    } else {
        InferenceDevicePolicy::Auto
    }
}

impl InferenceDevicePolicy {
    /// The policy's name.
    pub fn as_str(&self) -> (r: &'static str)
        ensures
            r@ == policy_name(*self),
    {
        match self {
            InferenceDevicePolicy::Auto => "auto",
            InferenceDevicePolicy::Cpu => "cpu",
            InferenceDevicePolicy::Gpu => "gpu",
        }
    }

    /// The policy of a name.
    pub fn from_name(name: &str) -> (r: Self)
        ensures
            r == policy_named(name@),
    {
        if same_text(name, "cpu") {
            InferenceDevicePolicy::Cpu
        } else if same_text(name, "gpu") {
            InferenceDevicePolicy::Gpu
        } else {
            InferenceDevicePolicy::Auto
        }
    }
}

/// How long recordings are kept.
#[derive(Clone, Copy, Debug, PartialEq, Eq, Structural)]
pub enum RecordingRetentionPeriod {
    /// For ever.
    Never,
    /// As many as the limit allows.
    PreserveLimit,
    Days3,
    Weeks2,
    Months3,
}

/// The name of a period.
pub open spec fn retention_name(p: RecordingRetentionPeriod) -> Seq<char> {
    match p {
        RecordingRetentionPeriod::Never => "never"@,
        RecordingRetentionPeriod::PreserveLimit => "preserve_limit"@,
        RecordingRetentionPeriod::Days3 => "days3"@,
        RecordingRetentionPeriod::Weeks2 => "weeks2"@,
        RecordingRetentionPeriod::Months3 => "months3"@,
    }
}

/// The period of a name; an unknown one stands for the limit.
pub open spec fn retention_named(name: Seq<char>) -> RecordingRetentionPeriod {
    if name == "never"@ {
        RecordingRetentionPeriod::Never
    } else if name == "days3"@ {
        RecordingRetentionPeriod::Days3
    } else if name == "weeks2"@ {
        RecordingRetentionPeriod::Weeks2
    } else if name == "months3"@ {
        RecordingRetentionPeriod::Months3
    } else {
        RecordingRetentionPeriod::PreserveLimit
    }
}

impl RecordingRetentionPeriod {
    /// The period's name.
    pub fn as_str(&self) -> (r: &'static str)
        ensures
            r@ == retention_name(*self),
    {
        match self {
            RecordingRetentionPeriod::Never => "never",
            RecordingRetentionPeriod::PreserveLimit => "preserve_limit",
            RecordingRetentionPeriod::Days3 => "days3",
            RecordingRetentionPeriod::Weeks2 => "weeks2",
            RecordingRetentionPeriod::Months3 => "months3",
        }
    }

    /// The period of a name.
    pub fn from_name(name: &str) -> (r: Self)
        ensures
            r == retention_named(name@),
    {
        if same_text(name, "never") {
            RecordingRetentionPeriod::Never
        } else if same_text(name, "days3") {
            RecordingRetentionPeriod::Days3
        } else if same_text(name, "weeks2") {
            RecordingRetentionPeriod::Weeks2
        } else if same_text(name, "months3") {
            RecordingRetentionPeriod::Months3
        } else {
            RecordingRetentionPeriod::PreserveLimit
        }
    }
}

/// What is stored by name is read back as it was.
pub proof fn law_named_settings_survive_storage(
    policy: InferenceDevicePolicy,
    period: RecordingRetentionPeriod,
)
    ensures
        policy_named(policy_name(policy)) == policy,
        retention_named(retention_name(period)) == period,
{
    reveal_strlit("auto");
    reveal_strlit("cpu");
    reveal_strlit("gpu");
    reveal_strlit("never");
    reveal_strlit("preserve_limit");
    reveal_strlit("days3");
    reveal_strlit("weeks2");
    reveal_strlit("months3");
    assert("auto"@.len() == 4 && "cpu"@[0] == 'c' && "gpu"@[0] == 'g');
    assert("preserve_limit"@.len() == 14 && "weeks2"@.len() == 6 && "months3"@.len() == 7);
    assert("never"@[0] == 'n' && "days3"@[0] == 'd');
}

/// The keys and values of a stored text, in no particular order. A text that is not an object of
/// strings throughout holds none: one value of another sort empties the whole.
pub fn stored_pairs(text: &str) -> (r: Vec<(String, String)>)
    ensures
        match json::text_map(text@) {
            Some(m) => json::holds_map(json::pair_views(r@), m),
            None => r@.len() == 0,
        },
        !json::only_texts(text@) ==> r@.len() == 0,
{
    match json_text_map(text) {
        Some(pairs) => pairs,
        None => Vec::new(),
    }
}

/// The text under which keys and values are stored; of two with the same key the later one counts.
pub fn pairs_to_store(pairs: &Vec<(String, String)>) -> (r: String)
    ensures
        json::text_map(r@) == Some(json::pair_map(json::pair_views(pairs@))),
{
    write_text_map(pairs)
}

/// A shortcut that the user can change.
pub struct ShortcutBinding {
    pub id: String,
    pub name: String,
    pub description: String,
    pub default_binding: String,
    pub current_binding: String,
}

/// A prompt for post-processing.
pub struct LLMPrompt {
    pub id: String,
    pub name: String,
    pub prompt: String,
}

/// A service for post-processing.
pub struct PostProcessProvider {
    pub id: String,
    pub label: String,
    pub base_url: String,
    pub allow_base_url_edit: bool,
}

/// A stored text, where an empty one stands for none.
pub fn text_or_none(value: String) -> (r: Option<String>)
    ensures
        text::opt_view(r) == (if value@.len() == 0 {
            None
        } else {
            Some(value@)
        }),
{
    if value.as_str().is_empty() {
        None
    } else {
        Some(value)
    }
}

/// What is stored for a text that may not be there.
pub fn text_to_store(value: &Option<String>) -> (r: String)
    ensures
        r@ == (match *value {
            Some(s) => s@,
            None => Seq::empty(),
        }),
{
    match value {
        Some(s) => s.clone(),
        None => String::new(),
    }
}

/// Stored codes count up from 0: the log levels from the most to the least talkative, the others in
/// the order in which they are offered. A code that stands for nothing reads as the default.
pub proof fn law_codes_count_from_zero(code: i32)
    ensures
        log_level_code(LogLevel::Trace) == 0,
        log_level_code(LogLevel::Debug) == log_level_code(LogLevel::Trace) + 1,
        log_level_code(LogLevel::Info) == log_level_code(LogLevel::Debug) + 1,
        log_level_code(LogLevel::Warn) == log_level_code(LogLevel::Info) + 1,
        log_level_code(LogLevel::Error) == log_level_code(LogLevel::Warn) + 1,
        code < 0 || code > 4 ==> log_level_of(code) == LogLevel::Debug,
        sound_theme_code(SoundTheme::Marimba) == 0,
        sound_theme_code(SoundTheme::Pop) == sound_theme_code(SoundTheme::Marimba) + 1,
        sound_theme_code(SoundTheme::Custom) == sound_theme_code(SoundTheme::Pop) + 1,
        code < 0 || code > 2 ==> sound_theme_of(code) == SoundTheme::Marimba,
        unload_timeout_code(ModelUnloadTimeout::Never) == 0,
        unload_timeout_code(ModelUnloadTimeout::Immediately) == unload_timeout_code(
            ModelUnloadTimeout::Never,
        ) + 1,
        unload_timeout_code(ModelUnloadTimeout::Min2) == unload_timeout_code(
            ModelUnloadTimeout::Immediately,
        ) + 1,
        unload_timeout_code(ModelUnloadTimeout::Min5) == unload_timeout_code(
            ModelUnloadTimeout::Min2,
        ) + 1,
        unload_timeout_code(ModelUnloadTimeout::Min10) == unload_timeout_code(
            ModelUnloadTimeout::Min5,
        ) + 1,
        unload_timeout_code(ModelUnloadTimeout::Min15) == unload_timeout_code(
            ModelUnloadTimeout::Min10,
        ) + 1,
        unload_timeout_code(ModelUnloadTimeout::Hour1) == unload_timeout_code(
            ModelUnloadTimeout::Min15,
        ) + 1,
        unload_timeout_code(ModelUnloadTimeout::Sec5) == unload_timeout_code(
            ModelUnloadTimeout::Hour1,
        ) + 1,
        code < 0 || code > 7 ==> unload_timeout_of(code) == ModelUnloadTimeout::Never,
        paste_method_code(PasteMethod::CtrlV) == 0,
        paste_method_code(PasteMethod::Direct) == paste_method_code(PasteMethod::CtrlV) + 1,
        paste_method_code(PasteMethod::Nothing) == paste_method_code(PasteMethod::Direct) + 1,
        paste_method_code(PasteMethod::ShiftInsert) == paste_method_code(PasteMethod::Nothing) + 1,
        paste_method_code(PasteMethod::CtrlShiftV) == paste_method_code(PasteMethod::ShiftInsert)
            + 1,
        code < 0 || code > 4 ==> paste_method_of(code) == PasteMethod::Direct,
        clipboard_handling_code(ClipboardHandling::DontModify) == 0,
        clipboard_handling_code(ClipboardHandling::CopyToClipboard) == clipboard_handling_code(
            ClipboardHandling::DontModify,
        ) + 1,
        code < 0 || code > 1 ==> clipboard_handling_of(code) == ClipboardHandling::DontModify,
        auto_submit_key_code(AutoSubmitKey::Enter) == 0,
        auto_submit_key_code(AutoSubmitKey::CtrlEnter) == auto_submit_key_code(AutoSubmitKey::Enter)
            + 1,
        auto_submit_key_code(AutoSubmitKey::SuperEnter) == auto_submit_key_code(
            AutoSubmitKey::CtrlEnter,
        ) + 1,
        code < 0 || code > 2 ==> auto_submit_key_of(code) == AutoSubmitKey::Enter,
        typing_tool_code(TypingTool::Auto) == 0,
        typing_tool_code(TypingTool::Wtype) == typing_tool_code(TypingTool::Auto) + 1,
        typing_tool_code(TypingTool::Kwtype) == typing_tool_code(TypingTool::Wtype) + 1,
        typing_tool_code(TypingTool::Dotool) == typing_tool_code(TypingTool::Kwtype) + 1,
        typing_tool_code(TypingTool::Ydotool) == typing_tool_code(TypingTool::Dotool) + 1,
        code < 0 || code > 4 ==> typing_tool_of(code) == TypingTool::Auto,
{
}

/// A name that no policy or period has reads as the automatic choice of a device, and as keeping as
/// many recordings as the limit allows.
pub proof fn law_unknown_names_read_as_defaults(name: Seq<char>)
    ensures
        (forall|p: InferenceDevicePolicy| #[trigger] policy_name(p) != name) ==> policy_named(name)
            == InferenceDevicePolicy::Auto,
        (forall|p: RecordingRetentionPeriod| #[trigger] retention_name(p) != name)
            ==> retention_named(name) == RecordingRetentionPeriod::PreserveLimit,
{
    assert(policy_name(InferenceDevicePolicy::Cpu) == "cpu"@);
    assert(policy_name(InferenceDevicePolicy::Gpu) == "gpu"@);
    assert(retention_name(RecordingRetentionPeriod::Never) == "never"@);
    assert(retention_name(RecordingRetentionPeriod::Days3) == "days3"@);
    assert(retention_name(RecordingRetentionPeriod::Weeks2) == "weeks2"@);
    assert(retention_name(RecordingRetentionPeriod::Months3) == "months3"@);
}

/// A model is kept for as long as its timeout says, in seconds; the longer ones are so many minutes.
pub proof fn law_unload_timeouts_in_seconds()
    ensures
        unload_seconds(ModelUnloadTimeout::Never) is None,
        unload_seconds(ModelUnloadTimeout::Immediately) == Some(0u64),
        unload_seconds(ModelUnloadTimeout::Sec5) == Some(5u64),
        unload_seconds(ModelUnloadTimeout::Min2)->0 == 2 * 60,
        unload_seconds(ModelUnloadTimeout::Min5)->0 == 5 * 60,
        unload_seconds(ModelUnloadTimeout::Min10)->0 == 10 * 60,
        unload_seconds(ModelUnloadTimeout::Min15)->0 == 15 * 60,
        unload_seconds(ModelUnloadTimeout::Hour1)->0 == 60 * 60,
{
}

} // verus!
