//! Push-to-talk through the desktop's shortcut portal.
//!
//! While the shortcut is held the service records; the input source that was current before comes
//! back when it is let go.

use super::ibus_api;
use super::ibus_api::is_handy_engine;
use crate::text;
use crate::text::{concat2, decimal, same_text};
use vstd::prelude::*;
use vstd::string::*;

verus! {

/// The portal's name for the shortcut.
pub const SHORTCUT_ID: &'static str = "push_to_talk";

const MOD_SHIFT: u32 = 1;

const MOD_CTRL: u32 = 4;

const MOD_ALT: u32 = 8;

const MOD_SUPER: u32 = 64;

/// The modifier is among the modifiers.
pub open spec fn held(modifiers: u32, flag: u32) -> bool {
    modifiers & flag != 0
}

/// The portal's name for a key: the space bar, or an ASCII letter in lower case or digit.
pub open spec fn key_name(keyval: u32) -> Option<Seq<char>> {
    if keyval == 32 {
        Some("space"@)
    } else if ('0' as u32 <= keyval <= '9' as u32) || ('a' as u32 <= keyval <= 'z' as u32) {
        Some(seq![keyval as char])
    } else if 'A' as u32 <= keyval <= 'Z' as u32 {
        Some(seq![(keyval + 32) as char])
    } else {
        None
    }
}

fn one_char(code: u8) -> (r: String)
    requires
        code < 128,
    ensures
        r@ == seq![code as char],
{
    let mut r = String::new();
    r.push(code as char);
    assert(r@ =~= seq![code as char]);
    r
}

/// The portal's name for a key.
pub fn keyval_to_name(keyval: u32) -> (r: Option<String>)
    ensures
        text::opt_view(r) == key_name(keyval),
{
    if keyval == 32 {
        return Some("space".to_owned());
    }
    if (48 <= keyval && keyval <= 57) || (97 <= keyval && keyval <= 122) {
        Some(one_char(keyval as u8))
    } else if 65 <= keyval && keyval <= 90 {
        Some(one_char((keyval + 32) as u8))
    } else {
        None
    }
}

/// The modifiers' names, in the portal's order.
pub open spec fn modifier_names(modifiers: u32) -> Seq<char> {
    let none = Seq::<char>::empty();
    (if held(modifiers, 4) {
        "<Ctrl>"@
    } else {
        none
    }) + (if held(modifiers, 8) {
        "<Alt>"@
    } else {
        none
    }) + (if held(modifiers, 1) {
        "<Shift>"@
    } else {
        none
    }) + (if held(modifiers, 64) {
        "<Super>"@
    } else {
        none
    })
}

/// The shortcut as the portal writes it, if the key has a name.
pub fn shortcut_trigger(keyval: u32, modifiers: u32) -> (r: Option<String>)
    ensures
        text::opt_view(r) == (match key_name(keyval) {
            Some(key) => Some(modifier_names(modifiers) + key),
            None => None,
        }),
{
    let key = match keyval_to_name(keyval) {
        Some(key) => key,
        None => {
            return None;
        },
    };
    let ghost none = Seq::<char>::empty();
    let mut trigger = String::new();
    assert(trigger@ =~= none);
    if modifiers & MOD_CTRL != 0 {
        trigger.append("<Ctrl>");
    }
    let ghost t1 = trigger@;
    assert(t1 =~= if held(modifiers, 4) {
        "<Ctrl>"@
    } else {
        none
    });
    if modifiers & MOD_ALT != 0 {
        trigger.append("<Alt>");
    } else {
        assert(t1 + none =~= t1);
    }
    let ghost t2 = trigger@;
    if modifiers & MOD_SHIFT != 0 {
        trigger.append("<Shift>");
    } else {
        assert(t2 + none =~= t2);
    }
    let ghost t3 = trigger@;
    if modifiers & MOD_SUPER != 0 {
        trigger.append("<Super>");
    } else {
        assert(t3 + none =~= t3);
    }
    assert(trigger@ == modifier_names(modifiers));
    trigger.append(key.as_str());
    Some(trigger)
}

/// A token for a request to the portal: the prefix, the process and a running number.
pub fn new_token(prefix: &str, process_id: u32, sequence: u64) -> (r: String)
    ensures
        r@ == prefix@ + "_"@ + text::dec(process_id as nat) + "_"@ + text::dec(sequence as nat),
{
    let mut r = concat2(prefix, "_");
    r.append(decimal(process_id as u64).as_str());
    r.append("_");
    r.append(decimal(sequence).as_str());
    r
}

/// Whether the portal has granted a request, by its answer's code.
pub fn portal_result(request: &str, code: u32) -> (r: Result<(), String>)
    ensures
        match r {
            Ok(_) => code == 0,
            Err(e) => code != 0 && e@ == "GlobalShortcuts "@ + request@ + " failed with code "@
                + text::dec(code as nat),
        },
{
    if code == 0 {
        return Ok(());
    }
    let mut e = concat2("GlobalShortcuts ", request);
    e.append(" failed with code ");
    e.append(decimal(code as u64).as_str());
    Err(e)
}

/// What a signal of the portal means for the shortcut.
#[derive(Clone, Copy, Debug, PartialEq, Eq, Structural)]
pub enum ShortcutSignal {
    Pressed,
    Released,
    Other,
}

/// What a signal of the portal means, by its name, whether it belongs to this session, and its
/// shortcut.
pub fn read_signal(member: &str, own_session: bool, shortcut_id: &str) -> (r: ShortcutSignal)
    ensures
        r == (if !own_session || shortcut_id@ != SHORTCUT_ID@ {
            ShortcutSignal::Other
        } else if member@ == "Activated"@ {
            ShortcutSignal::Pressed
        } else if member@ == "Deactivated"@ {
            ShortcutSignal::Released
        } else {
            ShortcutSignal::Other
        }),
{
    if !own_session || !same_text(shortcut_id, SHORTCUT_ID) {
        return ShortcutSignal::Other;
    }
    proof {
        reveal_strlit("Activated");
        reveal_strlit("Deactivated");
    }
    if same_text(member, "Activated") {
        ShortcutSignal::Pressed
    } else if same_text(member, "Deactivated") {
        ShortcutSignal::Released
    } else {
        ShortcutSignal::Other
    }
}

/// The engine that is switched to when this one is asked for: none for one without a name, and none
/// for the dictation engine itself.
pub open spec fn switch_request(name: Seq<char>) -> Option<Seq<char>> {
    if name.len() == 0 || ibus_api::names_handy(name) {
        None
    } else {
        Some(name)
    }
}

fn request_switch(name: String) -> (r: Option<String>)
    ensures
        text::opt_view(r) == switch_request(name@),
{
    if name.as_str().is_empty() || is_handy_engine(name.as_str()) {
        None
    } else {
        Some(name)
    }
}

/// Push-to-talk: the engine that comes back when the shortcut is let go.
pub struct PushToTalk {
    restore_engine: Option<String>,
}

impl View for PushToTalk {
    type V = Option<Seq<char>>;

    closed spec fn view(&self) -> Option<Seq<char>> {
        text::opt_view(self.restore_engine)
    }
}

/// A press of the shortcut starts a recording: push-to-talk is on, the shortcut is not held yet,
/// and another engine is the current one.
pub open spec fn press_starts(
    restore: Option<Seq<char>>,
    enabled: bool,
    current: Option<Seq<char>>,
) -> bool {
    enabled && restore is None && current is Some && !ibus_api::names_handy(current->0)
}

impl PushToTalk {
    /// The shortcut is not held.
    pub fn new() -> (r: PushToTalk)
        ensures
            r@ is None,
    {
        PushToTalk { restore_engine: None }
    }

    /// Whether a press of the shortcut starts a recording.
    pub fn on_global_pressed(&self, enabled: bool, current_engine: &Option<String>) -> (r: bool)
        ensures
            r == press_starts(self@, enabled, text::opt_view(*current_engine)),
    {
        if !enabled || self.restore_engine.is_some() {
            return false;
        }
        match current_engine {
            Some(engine) => !is_handy_engine(engine.as_str()),
            None => false,
        }
    }

    /// Takes note of whether the recording was started, and if so of the engine that comes back.
    /// There is no engine to switch to: the dictation engine is never asked for.
    pub fn recording_started(&mut self, current_engine: String, started: bool) -> (r: Option<
        String,
    >)
        ensures
            final(self)@ == (if started {
                Some(current_engine@)
            } else {
                old(self)@
            }),
            r is None,
    {
        if !started {
            return None;
        }
        self.restore_engine = Some(current_engine);
        request_switch("handy".to_owned())
    }

    /// The shortcut is let go: the engine to switch back to, if any.
    pub fn on_global_released(&mut self) -> (r: Option<String>)
        ensures
            final(self)@ is None,
            text::opt_view(r) == (match old(self)@ {
                Some(engine) => switch_request(engine),
                None => None,
            }),
    {
        match self.restore_engine.take() {
            Some(engine) => request_switch(engine),
            None => None,
        }
    }
}

/// A press that started a recording and the release after it give the engine back that was current
/// before, and leave the shortcut ready for the next press.
pub proof fn law_release_restores_the_engine(restore: Option<Seq<char>>, current: Seq<char>)
    requires
        press_starts(restore, true, Some(current)),
        current.len() > 0,
    ensures
        switch_request(current) == Some(current),
        !press_starts(Some(current), true, Some(current)),
{
}

/// The case of a letter makes no difference to the shortcut.
pub proof fn law_case_makes_no_difference(keyval: u32)
    requires
        'A' as u32 <= keyval <= 'Z' as u32,
    ensures
        key_name(keyval) == key_name((keyval + 32) as u32),
{
}

/// The portal knows the space bar, the digits and the letters, these in lower case, and no other
/// key; and the modifiers by their names, control, alt, shift and super in this order, each where it
/// is needed.
pub proof fn law_portal_names_keys_and_modifiers(keyval: u32, modifiers: u32)
    ensures
        keyval == 0x20 ==> key_name(keyval) == Some("space"@),
        0x30 <= keyval <= 0x39 ==> key_name(keyval) == Some(seq![keyval as char]),
        0x61 <= keyval <= 0x7A ==> key_name(keyval) == Some(seq![keyval as char]),
        0x41 <= keyval <= 0x5A ==> key_name(keyval) == Some(seq![(keyval + 0x20) as char]),
        keyval < 0x20 || 0x21 <= keyval <= 0x2F || 0x3A <= keyval <= 0x40 || 0x5B <= keyval <= 0x60
            || keyval > 0x7A ==> key_name(keyval) is None,
        ({
            let none = Seq::<char>::empty();
            let c = if modifiers & 4 != 0 {
                "<Ctrl>"@
            } else {
                none
            };
            let a = if modifiers & 8 != 0 {
                "<Alt>"@
            } else {
                none
            };
            let s = if modifiers & 1 != 0 {
                "<Shift>"@
            } else {
                none
            };
            let m = if modifiers & 64 != 0 {
                "<Super>"@
            } else {
                none
            };
            modifier_names(modifiers) == c + a + s + m
        }),
{
}

/// A press starts a recording exactly if push-to-talk is on, the shortcut is not held already, and
/// some other engine than the dictation engine is the current one.
pub proof fn law_press_starts_from_another_engine(
    restore: Option<Seq<char>>,
    enabled: bool,
    name: Seq<char>,
)
    ensures
        press_starts(None, true, Some(name)) <==> name != "handy"@ && !(name.len() >= 6 && name.skip(
            name.len() - 6,
        ) == ":handy"@),
        !enabled ==> !press_starts(restore, enabled, Some(name)),
        restore is Some ==> !press_starts(restore, enabled, Some(name)),
        !press_starts(restore, enabled, None),
{
    reveal_strlit(":handy");
    if name.len() >= 6 {
        assert(name.subrange(name.len() - 6, name.len() as int) =~= name.skip(name.len() - 6));
    }
}

/// Any engine with a name can be switched to, but for the dictation engine.
pub proof fn law_named_engines_can_be_switched_to(name: Seq<char>)
    ensures
        name.len() > 0 && name != "handy"@ && !(name.len() >= 6 && name.skip(name.len() - 6)
            == ":handy"@) ==> switch_request(name) == Some(name),
        name.len() == 0 ==> switch_request(name) is None,
        name == "handy"@ ==> switch_request(name) is None,
{
    reveal_strlit(":handy");
    if name.len() >= 6 {
        assert(name.subrange(name.len() - 6, name.len() as int) =~= name.skip(name.len() - 6));
    }
}

} // verus!
