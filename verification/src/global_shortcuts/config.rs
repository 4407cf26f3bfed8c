//! The shortcut as the settings hold it, and how it reads.

use crate::key_mapping;
use crate::key_mapping::{
    gdk_keyval_to_evdev, normalize_keyval, resolve_keybinding, EvdevKeybinding, MOD_ALT, MOD_CTRL,
    MOD_SHIFT, MOD_SUPER,
};
use crate::text;
use crate::text::{contains, decimal, hexadecimal};
use vstd::prelude::*;
use vstd::string::*;

verus! {

/// A shortcut: a key value and modifier flags.
#[derive(Clone, Copy, Debug, PartialEq, Eq, Structural)]
pub struct ShortcutConfig {
    pub keyval: u32,
    pub modifiers: u32,
}

/// The name by which `evdev` shows a key code.
pub uninterp spec fn evdev_key_name(code: u16) -> Seq<char>;

/// Formats an `evdev::Key` with its `Debug` impl. The text is a function of the code: the name of
/// the key where the crate has one.
#[verifier::external_body]
fn key_debug_name(code: u16) -> (r: String)
    ensures
        r@ == evdev_key_name(code),
{
    format!("{:?}", evdev::Key(code))
}

/// The flag is among the modifiers.
pub open spec fn has_flag(modifiers: u32, flag: u32) -> bool {
    modifiers & flag != 0
}

/// The name and a plus sign, where the flag is set.
pub open spec fn flag_part(modifiers: u32, flag: u32, name: Seq<char>) -> Seq<char> {
    if has_flag(modifiers, flag) {
        name + "+"@
    } else {
        Seq::empty()
    }
}

/// The key's name: the one that `evdev` gives, or the key value.
pub open spec fn key_label(keyval: u32, evdev_name: Option<Seq<char>>) -> Seq<char> {
    match evdev_name {
        Some(name) => name,
        None => "keyval_0x"@ + text::hex_short(keyval as nat),
    }
}

/// How a shortcut reads: its modifiers in a fixed order, then its key, with plus signs between.
pub open spec fn description(modifiers: u32, key: Seq<char>) -> Seq<char> {
    flag_part(modifiers, MOD_CTRL, "Ctrl"@) + flag_part(modifiers, MOD_ALT, "Alt"@) + flag_part(
        modifiers,
        MOD_SHIFT,
        "Shift"@,
    ) + flag_part(modifiers, MOD_SUPER, "Super"@) + key
}

/// How a shortcut reads, given its key's name.
pub fn describe(modifiers: u32, key: &str) -> (r: String)
    ensures
        r@ == description(modifiers, key@),
{
    let mut r = String::new();
    if modifiers & MOD_CTRL != 0 {
        r.append("Ctrl");
        r.append("+");
    }
    let ghost after_ctrl = r@;
    assert(after_ctrl =~= flag_part(modifiers, MOD_CTRL, "Ctrl"@));
    if modifiers & MOD_ALT != 0 {
        r.append("Alt");
        r.append("+");
    }
    let ghost after_alt = r@;
    assert(after_alt =~= after_ctrl + flag_part(modifiers, MOD_ALT, "Alt"@));
    if modifiers & MOD_SHIFT != 0 {
        r.append("Shift");
        r.append("+");
    }
    let ghost after_shift = r@;
    assert(after_shift =~= after_alt + flag_part(modifiers, MOD_SHIFT, "Shift"@));
    if modifiers & MOD_SUPER != 0 {
        r.append("Super");
        r.append("+");
    }
    assert(r@ =~= after_shift + flag_part(modifiers, MOD_SUPER, "Super"@));
    r.append(key);
    r
}

/// The key's name, given the one that `evdev` gives it.
pub fn label_key(keyval: u32, evdev_name: Option<String>) -> (r: String)
    ensures
        r@ == key_label(
            keyval,
            match evdev_name {
                Some(n) => Some(n@),
                None => None,
            },
        ),
{
    match evdev_name {
        Some(name) => name,
        None => {
            let mut r = "keyval_0x".to_owned();
            r.append(hexadecimal(keyval as u64).as_str());
            r
        },
    }
}

impl ShortcutConfig {
    /// The shortcut of the settings' key value and modifiers.
    pub fn from_settings(keyval: u32, modifiers: u32) -> (c: Self)
        ensures
            c == (ShortcutConfig { keyval: key_mapping::folded(keyval), modifiers }),
    {
        ShortcutConfig { keyval: normalize_keyval(keyval), modifiers }
    }

    /// The key and modifiers to watch for.
    pub fn resolve(&self) -> (r: Option<EvdevKeybinding>)
        ensures
            r == key_mapping::binding_for(self.keyval, self.modifiers),
    {
        resolve_keybinding(self.keyval, self.modifiers)
    }

    /// How the shortcut reads.
    pub fn human_description(&self) -> (r: String)
        ensures
            r@ == description(
                self.modifiers,
                key_label(
                    self.keyval,
                    match key_mapping::key_for(key_mapping::folded(self.keyval)) {
                        Some(code) => Some(evdev_key_name(code)),
                        None => None,
                    },
                ),
            ),
    {
        let name = match gdk_keyval_to_evdev(self.keyval) {
            Some(code) => Some(key_debug_name(code)),
            None => None,
        };
        let key = label_key(self.keyval, name);
        describe(self.modifiers, key.as_str())
    }
}

/// A request that the listener binds its shortcut anew.
pub struct RebindRequest {
    requested: bool,
}

impl View for RebindRequest {
    type V = bool;

    closed spec fn view(&self) -> bool {
        self.requested
    }
}

impl Default for RebindRequest {
    fn default() -> (r: Self)
        ensures
            !r@,
    {
        RebindRequest { requested: false }
    }
}

impl RebindRequest {
    /// Whether a rebind was asked for since the last time this was called.
    pub fn take(&mut self) -> (was: bool)
        ensures
            was == old(self)@,
            !final(self)@,
    {
        let was: bool = self.requested;
        self.requested = false;
        was
    }
}

/// Asks the listener to bind its shortcut anew.
pub fn request_shortcut_listener_rebind(request: &mut RebindRequest)
    ensures
        final(request)@,
{
    request.requested = true;
}

/// What the user is told about a shortcut, given how many keyboards can be read. A rebind is asked
/// for exactly if the shortcut is ready.
pub fn authorize_shortcut_interactively_from_ui(
    config: &ShortcutConfig,
    keyboards: Result<usize, String>,
    request: &mut RebindRequest,
) -> (r: Result<String, String>)
    ensures
        final(request)@ == (r is Ok || old(request)@),
        r is Ok <==> key_mapping::binding_for(config.keyval, config.modifiers) is Some && keyboards
            is Ok && keyboards->Ok_0 > 0,
        r matches Ok(m) ==> m@ == "evdev: "@ + text::dec(keyboards->Ok_0 as nat)
            + " keyboard(s) accessible, shortcut "@ + description(
            config.modifiers,
            key_label(
                config.keyval,
                match key_mapping::key_for(key_mapping::folded(config.keyval)) {
                    Some(code) => Some(evdev_key_name(code)),
                    None => None,
                },
            ),
        ) + " ready"@,
        r matches Err(e) ==> e@ == (if key_mapping::binding_for(config.keyval, config.modifiers)
            is None {
            "Cannot resolve keybinding for keyval 0x"@ + text::hex_short(config.keyval as nat)
                + " + modifiers 0x"@ + text::hex_short(config.modifiers as nat)
        } else if keyboards is Ok {
            "No keyboard devices found in /dev/input/. Is the input group set up?"@
        } else {
            "Cannot access keyboard devices: "@ + keyboards->Err_0@
        }),
{
    if config.resolve().is_none() {
        let mut e = "Cannot resolve keybinding for keyval 0x".to_owned();
        e.append(hexadecimal(config.keyval as u64).as_str());
        e.append(" + modifiers 0x");
        e.append(hexadecimal(config.modifiers as u64).as_str());
        return Err(e);
    }
    let reads_as = config.human_description();
    match keyboards {
        Ok(n) => {
            if n == 0 {
                return Err(
                    "No keyboard devices found in /dev/input/. Is the input group set up?".to_owned(),
                );
            }
            request_shortcut_listener_rebind(request);
            let mut m = "evdev: ".to_owned();
            m.append(decimal(n as u64).as_str());
            m.append(" keyboard(s) accessible, shortcut ");
            m.append(reads_as.as_str());
            m.append(" ready");
            Ok(m)
        },
        Err(cause) => {
            let mut e = "Cannot access keyboard devices: ".to_owned();
            e.append(cause.as_str());
            Err(e)
        },
    }
}

/// What is said of a shortcut whose key is not known.
pub fn unsupported_shortcut_message(config: &ShortcutConfig) -> (r: String)
    ensures
        r@ == "Unsupported dictation shortcut: keyval 0x"@ + text::hex_short(config.keyval as nat),
{
    let mut m = "Unsupported dictation shortcut: keyval 0x".to_owned();
    m.append(hexadecimal(config.keyval as u64).as_str());
    m
}

/// What is said once the listener runs.
pub fn listening_message(keyboards: usize, reads_as: &str) -> (r: String)
    ensures
        r@ == "Listening on "@ + text::dec(keyboards as nat) + " keyboard(s) for "@ + reads_as@,
{
    let mut m = "Listening on ".to_owned();
    m.append(decimal(keyboards as u64).as_str());
    m.append(" keyboard(s) for ");
    m.append(reads_as);
    m
}

/// The code of an error that ended a listener.
pub open spec fn listener_error_code(error: Seq<char>) -> Seq<char> {
    if text::occurs_in(error, "Permission denied"@) || text::occurs_in(error, "permission"@) {
        "evdev_permission_denied"@
    } else {
        "evdev_session_error"@
    }
}

/// The code of an error that ended a listener.
pub fn session_error_code(error: &str) -> (r: String)
    ensures
        r@ == listener_error_code(error@),
{
    if contains(error, "Permission denied") || contains(error, "permission") {
        "evdev_permission_denied".to_owned()
    } else {
        "evdev_session_error".to_owned()
    }
}

/// How long the next nap of a wait is, and what is left of the wait after it.
pub fn next_nap(remaining_ms: u64) -> (r: (u64, u64))
    ensures
        r.0 == (if remaining_ms <= 200 {
            remaining_ms
        } else {
            200
        }),
        r.0 + r.1 == remaining_ms,
{
    let step: u64 = if remaining_ms <= 200 {
        remaining_ms
    } else {
        200
    };
    (step, remaining_ms - step)
}

/// A shortcut's text begins with the control key where it needs it, ends with the key's name, and
/// is the key's name alone where it needs no modifier.
pub proof fn law_description_shows_modifiers(modifiers: u32, key: Seq<char>)
    ensures
        has_flag(modifiers, MOD_CTRL) ==> "Ctrl+"@.is_prefix_of(description(modifiers, key)),
        key.is_suffix_of(description(modifiers, key)),
        !has_flag(modifiers, MOD_CTRL) && !has_flag(modifiers, MOD_ALT) && !has_flag(
            modifiers,
            MOD_SHIFT,
        ) && !has_flag(modifiers, MOD_SUPER) ==> description(modifiers, key) == key,
{
    let d = description(modifiers, key);
    reveal_strlit("Ctrl");
    reveal_strlit("+");
    reveal_strlit("Ctrl+");
    if has_flag(modifiers, MOD_CTRL) {
        assert(d.subrange(0, 5) =~= "Ctrl+"@);
    }
    assert(d.subrange(d.len() - key.len(), d.len() as int) =~= key);
    assert(Seq::<char>::empty() + Seq::<char>::empty() + Seq::<char>::empty() + Seq::<char>::empty()
        + key =~= key);
}

/// A shortcut reads as the names of exactly the modifiers that it needs, control, alt, shift and
/// super in this order, each with a plus sign behind it, and then its key.
pub proof fn law_description_names_every_modifier(modifiers: u32, key: Seq<char>)
    ensures
        ({
            let none = Seq::<char>::empty();
            let c = if modifiers & 4 != 0 {
                "Ctrl+"@
            } else {
                none
            };
            let a = if modifiers & 8 != 0 {
                "Alt+"@
            } else {
                none
            };
            let s = if modifiers & 1 != 0 {
                "Shift+"@
            } else {
                none
            };
            let m = if modifiers & 64 != 0 {
                "Super+"@
            } else {
                none
            };
            description(modifiers, key) == c + a + s + m + key
        }),
{
    reveal_strlit("+");
    reveal_strlit("Ctrl");
    reveal_strlit("Ctrl+");
    reveal_strlit("Alt");
    reveal_strlit("Alt+");
    reveal_strlit("Shift");
    reveal_strlit("Shift+");
    reveal_strlit("Super");
    reveal_strlit("Super+");
    assert("Ctrl"@ + "+"@ =~= "Ctrl+"@);
    assert("Alt"@ + "+"@ =~= "Alt+"@);
    assert("Shift"@ + "+"@ =~= "Shift+"@);
    assert("Super"@ + "+"@ =~= "Super+"@);
}

/// An error that speaks of a permission ended the listener for want of one; any other did not.
pub proof fn law_permission_errors_are_told_apart(before: Seq<char>, after: Seq<char>, error: Seq<char>)
    ensures
        listener_error_code(before + "permission"@ + after) == "evdev_permission_denied"@,
        listener_error_code(before + "Permission denied"@ + after) == "evdev_permission_denied"@,
        !text::occurs_in(error, "permission"@) && !text::occurs_in(error, "Permission denied"@)
            ==> listener_error_code(error) == "evdev_session_error"@,
{
    let a = before + "permission"@ + after;
    let n = before.len() as int;
    assert(a.subrange(n, n + "permission"@.len()) =~= "permission"@);
    assert(text::occurs_at(a, "permission"@, n));
    let b = before + "Permission denied"@ + after;
    assert(b.subrange(n, n + "Permission denied"@.len()) =~= "Permission denied"@);
    assert(text::occurs_at(b, "Permission denied"@, n));
}

} // verus!
