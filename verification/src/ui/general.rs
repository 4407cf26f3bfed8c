//! The general page: choosing the shortcut and the language.

use crate::text::same_text;
use vstd::prelude::*;
use vstd::string::*;

verus! {

/// The flag of the shift key.
pub const MOD_SHIFT: u32 = 1;

/// The flag of the control key.
pub const MOD_CTRL: u32 = 4;

/// The flag of the alt key.
pub const MOD_ALT: u32 = 8;

/// The flag of the super key.
pub const MOD_SUPER: u32 = 64;

/// Which modifiers are held.
#[derive(Clone, Copy, Debug, PartialEq, Eq, Structural)]
pub struct HeldModifiers {
    pub ctrl: bool,
    pub alt: bool,
    pub shift: bool,
    pub super_key: bool,
}

/// A flag, if it is set.
pub open spec fn flag_if(held: bool, flag: u32) -> u32 {
    if held {
        flag
    } else {
        0
    }
}

/// The flags of the held modifiers.
pub open spec fn flags_of(m: HeldModifiers) -> u32 {
    flag_if(m.ctrl, 4) | flag_if(m.alt, 8) | flag_if(m.shift, 1) | flag_if(m.super_key, 64)
}

/// The modifiers whose flags are set.
pub open spec fn held_in(flags: u32) -> HeldModifiers {
    HeldModifiers {
        ctrl: flags & 4 != 0,
        alt: flags & 8 != 0,
        shift: flags & 1 != 0,
        super_key: flags & 64 != 0,
    }
}

/// The flags of the held modifiers.
pub fn gdk_to_ibus_modifiers(m: HeldModifiers) -> (r: u32)
    ensures
        r == flags_of(m),
{
    let c: u32 = if m.ctrl {
        MOD_CTRL
    } else {
        0
    };
    let a: u32 = if m.alt {
        MOD_ALT
    } else {
        0
    };
    let s: u32 = if m.shift {
        MOD_SHIFT
    } else {
        0
    };
    let w: u32 = if m.super_key {
        MOD_SUPER
    } else {
        0
    };
    c | a | s | w
}

/// The modifiers whose flags are set.
pub fn ibus_to_gdk_modifiers(flags: u32) -> (r: HeldModifiers)
    ensures
        r == held_in(flags),
{
    HeldModifiers {
        ctrl: flags & MOD_CTRL != 0,
        alt: flags & MOD_ALT != 0,
        shift: flags & MOD_SHIFT != 0,
        super_key: flags & MOD_SUPER != 0,
    }
}

/// What is shown for a shortcut, given its label.
pub fn shortcut_label(label: &str) -> (r: String)
    ensures
        r@ == (if label@.len() == 0 {
            "Unknown shortcut"@
        } else {
            label@
        }),
{
    if label.is_empty() {
        "Unknown shortcut".to_owned()
    } else {
        label.to_owned()
    }
}

/// What a key does while a shortcut is being chosen.
#[derive(Clone, Copy, Debug, PartialEq, Eq, Structural)]
pub enum Capture {
    /// No shortcut is being chosen: the key is not for this page.
    Ignored,
    /// The shortcut stays as it was.
    Cancelled,
    /// The key makes no shortcut; another one is waited for.
    Invalid,
    /// This is the shortcut.
    Chosen { keyval: u32, modifiers: u32 },
}

/// Choosing a shortcut.
pub struct ShortcutCapture {
    capturing: bool,
}

impl View for ShortcutCapture {
    type V = bool;

    closed spec fn view(&self) -> bool {
        self.capturing
    }
}

/// A key, as the page gets it.
#[derive(Clone, Copy, Debug, PartialEq, Eq, Structural)]
pub struct CapturedKey {
    pub is_escape: bool,
    /// The key, a letter in lower case.
    pub lower_keyval: u32,
    pub held: HeldModifiers,
    /// The toolkit takes the key with its modifiers for a shortcut.
    pub valid: bool,
}

/// What a key does.
pub open spec fn capture(capturing: bool, key: CapturedKey) -> Capture {
    if !capturing {
        Capture::Ignored
    } else if key.is_escape {
        Capture::Cancelled
    } else if flags_of(key.held) == 0 || !key.valid {
        Capture::Invalid
    } else {
        Capture::Chosen { keyval: key.lower_keyval, modifiers: flags_of(key.held) }
    }
}

impl ShortcutCapture {
    /// No shortcut is being chosen.
    pub fn new() -> (r: ShortcutCapture)
        ensures
            !r@,
    {
        ShortcutCapture { capturing: false }
    }

    /// A shortcut is to be chosen.
    pub fn begin(&mut self)
        ensures
            final(self)@,
    {
        self.capturing = true;
    }

    /// What a key does. A shortcut is waited for until one is chosen or the choice is cancelled.
    pub fn key_pressed(&mut self, key: CapturedKey) -> (r: Capture)
        ensures
            r == capture(old(self)@, key),
            final(self)@ == (r is Invalid),
    {
        if !self.capturing {
            return Capture::Ignored;
        }
        if key.is_escape {
            self.capturing = false;
            return Capture::Cancelled;
        }
        let modifiers: u32 = gdk_to_ibus_modifiers(key.held);
        if modifiers == 0 || !key.valid {
            return Capture::Invalid;
        }
        self.capturing = false;
        Capture::Chosen { keyval: key.lower_keyval, modifiers }
    }
}

/// The languages that can be chosen: codes and names.
pub open spec fn languages() -> Seq<(Seq<char>, Seq<char>)> {
    seq![
        ("auto"@, "Auto Detect"@),
        ("en"@, "English"@),
        ("zh"@, "Chinese"@),
        ("zh-Hans"@, "Chinese (Simplified)"@),
        ("zh-Hant"@, "Chinese (Traditional)"@),
        ("de"@, "German"@),
        ("es"@, "Spanish"@),
        ("fr"@, "French"@),
        ("ja"@, "Japanese"@),
        ("ko"@, "Korean"@),
        ("pt"@, "Portuguese"@),
        ("ru"@, "Russian"@),
        ("it"@, "Italian"@),
    ]
}

/// The codes and names of a list.
pub open spec fn choice_views(v: Seq<(&'static str, &'static str)>) -> Seq<(Seq<char>, Seq<char>)> {
    Seq::new(v.len(), |i: int| (v[i].0@, v[i].1@))
}

/// The languages that can be chosen: codes and names.
pub fn language_choices() -> (r: Vec<(&'static str, &'static str)>)
    ensures
        choice_views(r@) == languages(),
{
    let mut r: Vec<(&'static str, &'static str)> = Vec::new();
    r.push(("auto", "Auto Detect"));
    r.push(("en", "English"));
    r.push(("zh", "Chinese"));
    r.push(("zh-Hans", "Chinese (Simplified)"));
    r.push(("zh-Hant", "Chinese (Traditional)"));
    r.push(("de", "German"));
    r.push(("es", "Spanish"));
    r.push(("fr", "French"));
    r.push(("ja", "Japanese"));
    r.push(("ko", "Korean"));
    r.push(("pt", "Portuguese"));
    r.push(("ru", "Russian"));
    r.push(("it", "Italian"));
    assert(choice_views(r@) =~= languages());
    r
}

/// The place of the last choice among the first `n` with a code; 0 where there is none.
pub open spec fn place_of(choices: Seq<(Seq<char>, Seq<char>)>, code: Seq<char>, n: nat) -> nat
    decreases n,
{
    if n == 0 {
        0
    } else if n <= choices.len() && choices[n - 1].0 == code {
        (n - 1) as nat
    } else {
        place_of(choices, code, (n - 1) as nat)
    }
}

/// The place of the selected language; the first one where it is not offered.
pub fn selected_language_index(code: &str) -> (r: u32)
    ensures
        r == place_of(languages(), code@, languages().len()),
{
    let choices = language_choices();
    let ghost all = languages();
    assert(choices@.len() == choice_views(choices@).len());
    let mut i: u32 = 0;
    let mut found: u32 = 0;
    while i < 13
        invariant
            i <= 13,
            choices@.len() == 13,
            all.len() == 13,
            all == choice_views(choices@),
            found == place_of(all, code@, i as nat),
        decreases 13 - i,
    {
        assert(all[i as int].0 == choices@[i as int].0@);
        if same_text(choices[i as usize].0, code) {
            found = i;
        }
        i += 1;
    }
    found
}

proof fn lemma_flags(c: u32, a: u32, s: u32, w: u32)
    requires
        c == 0 || c == 4,
        a == 0 || a == 8,
        s == 0 || s == 1,
        w == 0 || w == 64,
    ensures
        ((c | a | s | w) & 4 != 0) == (c == 4),
        ((c | a | s | w) & 8 != 0) == (a == 8),
        ((c | a | s | w) & 1 != 0) == (s == 1),
        ((c | a | s | w) & 64 != 0) == (w == 64),
{
    assert(((c | a | s | w) & 4 != 0) == (c == 4) && ((c | a | s | w) & 8 != 0) == (a == 8) && ((c
        | a | s | w) & 1 != 0) == (s == 1) && ((c | a | s | w) & 64 != 0) == (w == 64))
        by (bit_vector)
        requires
            c == 0 || c == 4,
            a == 0 || a == 8,
            s == 0 || s == 1,
            w == 0 || w == 64,
    ;
}

/// The flags of modifiers tell which modifiers they are.
pub proof fn law_modifiers_survive_storage(m: HeldModifiers)
    ensures
        held_in(flags_of(m)) == m,
{
    lemma_flags(
        flag_if(m.ctrl, 4),
        flag_if(m.alt, 8),
        flag_if(m.shift, 1),
        flag_if(m.super_key, 64),
    );
}

/// A shortcut that is chosen has a modifier, and the choice is then over.
pub proof fn law_chosen_shortcut_has_a_modifier(capturing: bool, key: CapturedKey)
    ensures
        capture(capturing, key) is Chosen ==> held_in(flags_of(key.held)) == key.held && (
        key.held.ctrl || key.held.alt || key.held.shift || key.held.super_key),
{
    law_modifiers_survive_storage(key.held);
    if !(key.held.ctrl || key.held.alt || key.held.shift || key.held.super_key) {
        assert(0u32 | 0u32 | 0u32 | 0u32 == 0u32) by (bit_vector);
    }
}

/// A key that is pressed while a shortcut is chosen, other than escape, is the shortcut if the
/// toolkit takes it and any modifier is held, whichever; it keeps exactly the modifiers that are held.
pub proof fn law_any_modifier_makes_a_shortcut(key: CapturedKey)
    requires
        !key.is_escape,
        key.valid,
        key.held.ctrl || key.held.alt || key.held.shift || key.held.super_key,
    ensures
        capture(true, key) is Chosen,
        capture(true, key)->keyval == key.lower_keyval,
        held_in(capture(true, key)->modifiers) == key.held,
{
    law_modifiers_survive_storage(key.held);
    assert(0u32 & 4 == 0 && 0u32 & 8 == 0 && 0u32 & 1 == 0 && 0u32 & 64 == 0) by (bit_vector);
}

/// Escape leaves the shortcut as it was, a key without a modifier is waited past, and nothing is
/// chosen unless a shortcut is being chosen.
pub proof fn law_other_keys_make_no_shortcut(key: CapturedKey)
    ensures
        capture(false, key) == Capture::Ignored,
        key.is_escape ==> capture(true, key) == Capture::Cancelled,
        !key.is_escape && !key.valid ==> capture(true, key) == Capture::Invalid,
        !key.is_escape && !key.held.ctrl && !key.held.alt && !key.held.shift
            && !key.held.super_key ==> capture(true, key) == Capture::Invalid,
{
    assert(0u32 | 0u32 | 0u32 | 0u32 == 0) by (bit_vector);
}

/// A choice is found at its place, and what is no choice is shown as the first.
pub proof fn law_choice_is_found_at_its_place(
    choices: Seq<(Seq<char>, Seq<char>)>,
    code: Seq<char>,
    i: int,
    n: nat,
)
    requires
        n <= choices.len(),
        forall|a: int, b: int|
            0 <= a < b < choices.len() ==> (#[trigger] choices[a]).0 != (#[trigger] choices[b]).0,
    ensures
        0 <= i < n && choices[i].0 == code ==> place_of(choices, code, n) == i,
        (forall|k: int| 0 <= k < n ==> (#[trigger] choices[k]).0 != code) ==> place_of(
            choices,
            code,
            n,
        ) == 0,
    decreases n,
{
    if n > 0 {
        law_choice_is_found_at_its_place(choices, code, i, (n - 1) as nat);
        if 0 <= i < n - 1 && choices[i].0 == code {
            assert(choices[i].0 != choices[n - 1].0);
        }
    }
}

} // verus!
