//! Putting a text into the application: by typing it, or by pasting it.

use crate::settings::{AutoSubmitKey, ClipboardHandling, PasteMethod, TypingTool};
use crate::text;
use crate::text::concat2;
use vstd::prelude::*;
use vstd::string::*;

verus! {

/// How long to wait after pasting before the clipboard may change again, in milliseconds.
pub const CLIPBOARD_SETTLE_MS: u64 = 100;

/// How a text gets into the application.
#[derive(Clone, Copy, Debug, PartialEq, Eq, Structural)]
pub enum OutputPlan {
    Type,
    Paste,
    Skip,
}

/// How a text gets into the application.
pub open spec fn plan_for(method: PasteMethod) -> OutputPlan {
    match method {
        PasteMethod::Direct => OutputPlan::Type,
        PasteMethod::CtrlV | PasteMethod::ShiftInsert | PasteMethod::CtrlShiftV => OutputPlan::Paste,
        PasteMethod::Nothing => OutputPlan::Skip,
    }
}

/// How a text gets into the application.
pub fn output_plan(method: PasteMethod) -> (r: OutputPlan)
    ensures
        r == plan_for(method),
{
    match method {
        PasteMethod::Direct => OutputPlan::Type,
        PasteMethod::CtrlV | PasteMethod::ShiftInsert | PasteMethod::CtrlShiftV => OutputPlan::Paste,
        PasteMethod::Nothing => OutputPlan::Skip,
    }
}

/// What types a text.
#[derive(Clone, Copy, Debug, PartialEq, Eq, Structural)]
pub enum TypingBackend {
    Wtype,
    Kwtype,
    Dotool,
    Ydotool,
    Xdotool,
    /// Key events of this program's own.
    Keyboard,
}

/// What types a text: the tool of the settings, or one that is there.
pub open spec fn backend_for(
    tool: TypingTool,
    has_wtype: bool,
    has_ydotool: bool,
) -> TypingBackend {
    match tool {
        TypingTool::Wtype => TypingBackend::Wtype,
        TypingTool::Kwtype => TypingBackend::Kwtype,
        TypingTool::Dotool => TypingBackend::Dotool,
        TypingTool::Ydotool => TypingBackend::Ydotool,
        TypingTool::Auto => if has_wtype {
            TypingBackend::Wtype
        } else if has_ydotool {
            TypingBackend::Ydotool
        } else {
            TypingBackend::Keyboard
        },
    }
}

/// What types a text.
pub fn typing_backend(tool: TypingTool, has_wtype: bool, has_ydotool: bool) -> (r: TypingBackend)
    ensures
        r == backend_for(tool, has_wtype, has_ydotool),
{
    match tool {
        TypingTool::Wtype => TypingBackend::Wtype,
        TypingTool::Kwtype => TypingBackend::Kwtype,
        TypingTool::Dotool => TypingBackend::Dotool,
        TypingTool::Ydotool => TypingBackend::Ydotool,
        TypingTool::Auto => if has_wtype {
            TypingBackend::Wtype
        } else if has_ydotool {
            TypingBackend::Ydotool
        } else {
            TypingBackend::Keyboard
        },
    }
}

/// The command line by which a tool types a text, the program first; nothing for key events.
pub open spec fn typing_command(backend: TypingBackend, t: Seq<char>) -> Option<Seq<Seq<char>>> {
    match backend {
        TypingBackend::Wtype => Some(seq!["wtype"@, t]),
        TypingBackend::Kwtype => Some(seq!["kwtype"@, t]),
        TypingBackend::Dotool => Some(seq!["dotool"@, "type"@, t]),
        TypingBackend::Ydotool => Some(seq!["ydotool"@, "type"@, t]),
        TypingBackend::Xdotool => Some(seq!["xdotool"@, "type"@, "--clearmodifiers"@, t]),
        TypingBackend::Keyboard => None,
    }
}

/// The command line by which a tool types a text, the program first; nothing for key events.
pub fn type_text_command(backend: TypingBackend, t: &str) -> (r: Option<Vec<String>>)
    ensures
        match r {
            Some(args) => typing_command(backend, t@) == Some(text::views(args@)),
            None => typing_command(backend, t@) is None,
        },
{
    let mut args: Vec<String> = Vec::new();
    match backend {
        TypingBackend::Wtype => args.push("wtype".to_owned()),
        TypingBackend::Kwtype => args.push("kwtype".to_owned()),
        TypingBackend::Dotool => {
            args.push("dotool".to_owned());
            args.push("type".to_owned());
        },
        TypingBackend::Ydotool => {
            args.push("ydotool".to_owned());
            args.push("type".to_owned());
        },
        TypingBackend::Xdotool => {
            args.push("xdotool".to_owned());
            args.push("type".to_owned());
            args.push("--clearmodifiers".to_owned());
        },
        TypingBackend::Keyboard => {
            return None;
        },
    }
    args.push(t.to_owned());
    assert(text::views(args@) =~= typing_command(backend, t@)->0);
    Some(args)
}

/// What a tool that has run comes to: an error tells what it printed.
pub fn tool_result(tool: &str, success: bool, printed: &str) -> (r: Result<(), String>)
    ensures
        match r {
            Ok(_) => success,
            Err(e) => !success && e@ == tool@ + " failed: "@ + printed@,
        },
{
    if success {
        return Ok(());
    }
    let mut e = concat2(tool, " failed: ");
    e.append(printed);
    Err(e)
}

/// A key that is pressed to paste or to submit.
#[derive(Clone, Copy, Debug, PartialEq, Eq, Structural)]
pub enum PasteKey {
    Control,
    Shift,
    Super,
    Insert,
    Return,
    V,
}

/// What is done with a key.
#[derive(Clone, Copy, Debug, PartialEq, Eq, Structural)]
pub enum KeyAction {
    Press,
    Release,
    /// Pressed and released.
    Click,
}

/// The strokes that paste, none where the method does not paste.
pub open spec fn paste_strokes(method: PasteMethod) -> Seq<(PasteKey, KeyAction)> {
    match method {
        PasteMethod::CtrlV => seq![
            (PasteKey::Control, KeyAction::Press),
            (PasteKey::V, KeyAction::Click),
            (PasteKey::Control, KeyAction::Release),
        ],
        PasteMethod::ShiftInsert => seq![
            (PasteKey::Shift, KeyAction::Press),
            (PasteKey::Insert, KeyAction::Click),
            (PasteKey::Shift, KeyAction::Release),
        ],
        PasteMethod::CtrlShiftV => seq![
            (PasteKey::Control, KeyAction::Press),
            (PasteKey::Shift, KeyAction::Press),
            (PasteKey::V, KeyAction::Click),
            (PasteKey::Shift, KeyAction::Release),
            (PasteKey::Control, KeyAction::Release),
        ],
        _ => Seq::empty(),
    }
}

/// The strokes that paste; nothing where the method does not paste.
pub fn paste_key_combo(method: PasteMethod) -> (r: Option<Vec<(PasteKey, KeyAction)>>)
    ensures
        match r {
            Some(strokes) => plan_for(method) == OutputPlan::Paste && strokes@ == paste_strokes(
                method,
            ),
            None => plan_for(method) != OutputPlan::Paste,
        },
{
    let mut r: Vec<(PasteKey, KeyAction)> = Vec::new();
    match method {
        PasteMethod::CtrlV => {
            r.push((PasteKey::Control, KeyAction::Press));
            r.push((PasteKey::V, KeyAction::Click));
            r.push((PasteKey::Control, KeyAction::Release));
        },
        PasteMethod::ShiftInsert => {
            r.push((PasteKey::Shift, KeyAction::Press));
            r.push((PasteKey::Insert, KeyAction::Click));
            r.push((PasteKey::Shift, KeyAction::Release));
        },
        PasteMethod::CtrlShiftV => {
            r.push((PasteKey::Control, KeyAction::Press));
            r.push((PasteKey::Shift, KeyAction::Press));
            r.push((PasteKey::V, KeyAction::Click));
            r.push((PasteKey::Shift, KeyAction::Release));
            r.push((PasteKey::Control, KeyAction::Release));
        },
        _ => {
            return None;
        },
    }
    assert(r@ =~= paste_strokes(method));
    Some(r)
}

/// The strokes that submit.
pub open spec fn submit_strokes(key: AutoSubmitKey) -> Seq<(PasteKey, KeyAction)> {
    match key {
        AutoSubmitKey::Enter => seq![(PasteKey::Return, KeyAction::Click)],
        AutoSubmitKey::CtrlEnter => seq![
            (PasteKey::Control, KeyAction::Press),
            (PasteKey::Return, KeyAction::Click),
            (PasteKey::Control, KeyAction::Release),
        ],
        AutoSubmitKey::SuperEnter => seq![
            (PasteKey::Super, KeyAction::Press),
            (PasteKey::Return, KeyAction::Click),
            (PasteKey::Super, KeyAction::Release),
        ],
    }
}

/// The strokes that submit.
pub fn press_auto_submit_key(key: AutoSubmitKey) -> (r: Vec<(PasteKey, KeyAction)>)
    ensures
        r@ == submit_strokes(key),
{
    let mut r: Vec<(PasteKey, KeyAction)> = Vec::new();
    match key {
        AutoSubmitKey::Enter => {
            r.push((PasteKey::Return, KeyAction::Click));
        },
        AutoSubmitKey::CtrlEnter => {
            r.push((PasteKey::Control, KeyAction::Press));
            r.push((PasteKey::Return, KeyAction::Click));
            r.push((PasteKey::Control, KeyAction::Release));
        },
        AutoSubmitKey::SuperEnter => {
            r.push((PasteKey::Super, KeyAction::Press));
            r.push((PasteKey::Return, KeyAction::Click));
            r.push((PasteKey::Super, KeyAction::Release));
        },
    }
    assert(r@ =~= submit_strokes(key));
    r
}

/// How long to wait after pasting, in milliseconds.
pub fn wait_after_paste_ms(handling: ClipboardHandling) -> (r: u64)
    ensures
        r == (match handling {
            ClipboardHandling::DontModify => CLIPBOARD_SETTLE_MS,
            ClipboardHandling::CopyToClipboard => 0,
        }),
{
    match handling {
        ClipboardHandling::DontModify => CLIPBOARD_SETTLE_MS,
        ClipboardHandling::CopyToClipboard => 0,
    }
}

/// Which typing tools are there.
#[derive(Clone, Copy, Debug, PartialEq, Eq, Structural)]
pub struct InstalledTools {
    pub wtype: bool,
    pub kwtype: bool,
    pub dotool: bool,
    pub ydotool: bool,
    pub xdotool: bool,
}

/// The name, if the tool is there.
pub open spec fn name_if(there: bool, name: Seq<char>) -> Seq<Seq<char>> {
    if there {
        seq![name]
    } else {
        Seq::empty()
    }
}

/// The names of the typing tools that can be chosen.
pub open spec fn tool_names(t: InstalledTools) -> Seq<Seq<char>> {
    seq!["auto"@] + name_if(t.wtype, "wtype"@) + name_if(t.kwtype, "kwtype"@) + name_if(
        t.dotool,
        "dotool"@,
    ) + name_if(t.ydotool, "ydotool"@) + name_if(t.xdotool, "xdotool"@)
}

fn push_if(r: &mut Vec<String>, there: bool, name: &str)
    ensures
        text::views(final(r)@) == text::views(old(r)@) + name_if(there, name@),
{
    if there {
        r.push(name.to_owned());
    }
    assert(text::views(r@) =~= text::views(old(r)@) + name_if(there, name@));
}

/// The names of the typing tools that can be chosen.
pub fn get_available_typing_tools(t: InstalledTools) -> (r: Vec<String>)
    ensures
        text::views(r@) == tool_names(t),
{
    let mut r: Vec<String> = Vec::new();
    r.push("auto".to_owned());
    assert(text::views(r@) =~= seq!["auto"@]);
    push_if(&mut r, t.wtype, "wtype");
    push_if(&mut r, t.kwtype, "kwtype");
    push_if(&mut r, t.dotool, "dotool");
    push_if(&mut r, t.ydotool, "ydotool");
    push_if(&mut r, t.xdotool, "xdotool");
    r
}

/// How often a key is down after some strokes.
pub open spec fn down(strokes: Seq<(PasteKey, KeyAction)>, key: PasteKey) -> int
    decreases strokes.len(),
{
    if strokes.len() == 0 {
        0
    } else {
        down(strokes.drop_last(), key) + (if strokes.last().0 != key {
            0int
        } else {
            match strokes.last().1 {
                KeyAction::Press => 1,
                KeyAction::Release => -1,
                KeyAction::Click => 0,
            }
        })
    }
}

proof fn lemma_down_push(
    strokes: Seq<(PasteKey, KeyAction)>,
    s: (PasteKey, KeyAction),
    key: PasteKey,
)
    ensures
        down(strokes.push(s), key) == down(strokes, key) + (if s.0 != key {
            0int
        } else {
            match s.1 {
                KeyAction::Press => 1,
                KeyAction::Release => -1,
                KeyAction::Click => 0,
            }
        }),
{
    assert(strokes.push(s).drop_last() =~= strokes);
}

proof fn lemma_three(
    a: (PasteKey, KeyAction),
    b: (PasteKey, KeyAction),
    c: (PasteKey, KeyAction),
    key: PasteKey,
)
    ensures
        down(seq![a, b, c], key) == down(seq![a], key) + down(seq![b], key) + down(seq![c], key),
{
    let e = Seq::<(PasteKey, KeyAction)>::empty();
    lemma_down_push(e, a, key);
    lemma_down_push(e.push(a), b, key);
    lemma_down_push(e.push(a).push(b), c, key);
    lemma_down_push(e, b, key);
    lemma_down_push(e, c, key);
    assert(e.push(a) =~= seq![a]);
    assert(e.push(b) =~= seq![b]);
    assert(e.push(c) =~= seq![c]);
    assert(e.push(a).push(b).push(c) =~= seq![a, b, c]);
}

proof fn lemma_one(a: (PasteKey, KeyAction), key: PasteKey)
    ensures
        down(seq![a], key) == (if a.0 != key {
            0int
        } else {
            match a.1 {
                KeyAction::Press => 1,
                KeyAction::Release => -1,
                KeyAction::Click => 0,
            }
        }),
{
    let e = Seq::<(PasteKey, KeyAction)>::empty();
    lemma_down_push(e, a, key);
    assert(e.push(a) =~= seq![a]);
}

/// No key is left down: whatever pasting or submitting presses, it releases.
pub proof fn law_no_key_is_left_down(method: PasteMethod, submit: AutoSubmitKey, key: PasteKey)
    ensures
        down(paste_strokes(method), key) == 0,
        down(submit_strokes(submit), key) == 0,
{
    let p = paste_strokes(method);
    match method {
        PasteMethod::CtrlV | PasteMethod::ShiftInsert => {
            lemma_three(p[0], p[1], p[2], key);
            lemma_one(p[0], key);
            lemma_one(p[1], key);
            lemma_one(p[2], key);
        },
        PasteMethod::CtrlShiftV => {
            lemma_three(p[0], p[1], p[2], key);
            lemma_one(p[0], key);
            lemma_one(p[1], key);
            lemma_one(p[2], key);
            lemma_down_push(seq![p[0], p[1], p[2]], p[3], key);
            lemma_down_push(seq![p[0], p[1], p[2]].push(p[3]), p[4], key);
            assert(seq![p[0], p[1], p[2]].push(p[3]).push(p[4]) =~= p);
        },
        _ => {},
    }
    let s = submit_strokes(submit);
    match submit {
        AutoSubmitKey::Enter => {
            lemma_one(s[0], key);
        },
        _ => {
            lemma_three(s[0], s[1], s[2], key);
            lemma_one(s[0], key);
            lemma_one(s[1], key);
            lemma_one(s[2], key);
        },
    }
}

/// A text that is to be typed is typed whole, by its tool, as the last word of the tool's command.
pub proof fn law_whole_text_is_typed(backend: TypingBackend, t: Seq<char>)
    ensures
        backend != TypingBackend::Keyboard ==> typing_command(backend, t) is Some && (
        typing_command(backend, t)->0).last() == t,
        backend == TypingBackend::Keyboard ==> typing_command(backend, t) is None,
        backend == TypingBackend::Wtype ==> (typing_command(backend, t)->0)[0] == "wtype"@,
        backend == TypingBackend::Kwtype ==> (typing_command(backend, t)->0)[0] == "kwtype"@,
        backend == TypingBackend::Dotool ==> (typing_command(backend, t)->0)[0] == "dotool"@,
        backend == TypingBackend::Ydotool ==> (typing_command(backend, t)->0)[0] == "ydotool"@,
        backend == TypingBackend::Xdotool ==> (typing_command(backend, t)->0)[0] == "xdotool"@,
{
}

/// A tool that was chosen is used whatever is installed. Otherwise the first that is installed of
/// wtype and ydotool is, and without either the program types by itself.
pub proof fn law_chosen_tool_types(tool: TypingTool, wtype: bool, ydotool: bool)
    ensures
        tool != TypingTool::Auto ==> backend_for(tool, wtype, ydotool) == backend_for(
            tool,
            !wtype,
            !ydotool,
        ),
        backend_for(TypingTool::Wtype, wtype, ydotool) == TypingBackend::Wtype,
        backend_for(TypingTool::Kwtype, wtype, ydotool) == TypingBackend::Kwtype,
        backend_for(TypingTool::Dotool, wtype, ydotool) == TypingBackend::Dotool,
        backend_for(TypingTool::Ydotool, wtype, ydotool) == TypingBackend::Ydotool,
        backend_for(TypingTool::Auto, true, ydotool) == TypingBackend::Wtype,
        backend_for(TypingTool::Auto, false, true) == TypingBackend::Ydotool,
        backend_for(TypingTool::Auto, false, false) == TypingBackend::Keyboard,
{
}

/// Whatever pastes clicks one key while its modifiers are down, in every order of strokes the
/// modifiers first; and only what pastes has strokes.
pub proof fn law_paste_clicks_one_key(method: PasteMethod)
    ensures
        ({
            let s = paste_strokes(method);
            &&& plan_for(method) == OutputPlan::Paste <==> s.len() > 0
            &&& s.len() > 0 ==> s.len() % 2 == 1 && s[(s.len() / 2) as int].1 == KeyAction::Click
            &&& forall|i: int|
                0 <= i < s.len() / 2 ==> (#[trigger] s[i]).1 == KeyAction::Press
                    && s[s.len() - 1 - i].1 == KeyAction::Release && s[s.len() - 1 - i].0 == s[i].0
        }),
        method == PasteMethod::CtrlV || method == PasteMethod::CtrlShiftV ==> paste_strokes(
            method,
        ).contains((PasteKey::V, KeyAction::Click)) && paste_strokes(method)[0].0
            == PasteKey::Control,
        method == PasteMethod::ShiftInsert ==> paste_strokes(method)[1].0 == PasteKey::Insert
            && paste_strokes(method)[0].0 == PasteKey::Shift,
        method == PasteMethod::CtrlShiftV ==> paste_strokes(method)[1].0 == PasteKey::Shift,
        plan_for(PasteMethod::Direct) == OutputPlan::Type,
        plan_for(PasteMethod::Nothing) == OutputPlan::Skip,
{
    let s = paste_strokes(method);
    if method == PasteMethod::CtrlV {
        assert(s[1] == (PasteKey::V, KeyAction::Click));
    }
    if method == PasteMethod::CtrlShiftV {
        assert(s[2] == (PasteKey::V, KeyAction::Click));
    }
}

/// Every tool that is installed is offered, and none that is not; the automatic choice is always
/// offered, first.
pub proof fn law_installed_tools_are_offered(t: InstalledTools)
    ensures
        tool_names(t)[0] == "auto"@,
        t.wtype ==> tool_names(t).contains("wtype"@),
        t.kwtype ==> tool_names(t).contains("kwtype"@),
        t.dotool ==> tool_names(t).contains("dotool"@),
        t.ydotool ==> tool_names(t).contains("ydotool"@),
        t.xdotool ==> tool_names(t).contains("xdotool"@),
        tool_names(t).len() == 1 + (if t.wtype {
            1int
        } else {
            0
        }) + (if t.kwtype {
            1int
        } else {
            0
        }) + (if t.dotool {
            1int
        } else {
            0
        }) + (if t.ydotool {
            1int
        } else {
            0
        }) + (if t.xdotool {
            1int
        } else {
            0
        }),
{
    let a = seq!["auto"@];
    let b = a + name_if(t.wtype, "wtype"@);
    let c = b + name_if(t.kwtype, "kwtype"@);
    let d = c + name_if(t.dotool, "dotool"@);
    let e = d + name_if(t.ydotool, "ydotool"@);
    let all = tool_names(t);
    assert(all =~= e + name_if(t.xdotool, "xdotool"@));
    if t.wtype {
        assert(all[a.len() as int] == "wtype"@);
    }
    if t.kwtype {
        assert(all[b.len() as int] == "kwtype"@);
    }
    if t.dotool {
        assert(all[c.len() as int] == "dotool"@);
    }
    if t.ydotool {
        assert(all[d.len() as int] == "ydotool"@);
    }
    if t.xdotool {
        assert(all[e.len() as int] == "xdotool"@);
    }
}

/// Submitting clicks the return key, alone or while the modifier that was chosen is down.
pub proof fn law_submit_clicks_return(key: AutoSubmitKey)
    ensures
        ({
            let s = submit_strokes(key);
            &&& s[(s.len() / 2) as int] == (PasteKey::Return, KeyAction::Click)
            &&& key == AutoSubmitKey::Enter ==> s.len() == 1
            &&& key == AutoSubmitKey::CtrlEnter ==> s.len() == 3 && s[0] == (
                PasteKey::Control,
                KeyAction::Press,
            )
            &&& key == AutoSubmitKey::SuperEnter ==> s.len() == 3 && s[0] == (
                PasteKey::Super,
                KeyAction::Press,
            )
        }),
{
}

} // verus!
