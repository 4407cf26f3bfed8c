//! From the key values that the settings hold to the key codes that the kernel reports.

use std::collections::HashSet;
use vstd::prelude::*;

verus! {

broadcast use vstd::std_specs::hash::group_hash_axioms;

/// The modifier flags of the settings.
pub const MOD_SHIFT: u32 = 1;

pub const MOD_CTRL: u32 = 4;

pub const MOD_ALT: u32 = 8;

pub const MOD_SUPER: u32 = 64;

/// The kernel's codes of the modifier keys.
pub const EV_KEY_LEFTCTRL: u16 = 29;

pub const EV_KEY_RIGHTCTRL: u16 = 97;

pub const EV_KEY_LEFTALT: u16 = 56;

pub const EV_KEY_RIGHTALT: u16 = 100;

pub const EV_KEY_LEFTSHIFT: u16 = 42;

pub const EV_KEY_RIGHTSHIFT: u16 = 54;

pub const EV_KEY_LEFTMETA: u16 = 125;

pub const EV_KEY_RIGHTMETA: u16 = 126;

/// The kernel's codes of the other keys.
pub const KEY_A: u16 = 30;

pub const KEY_B: u16 = 48;

pub const KEY_C: u16 = 46;

pub const KEY_D: u16 = 32;

pub const KEY_E: u16 = 18;

pub const KEY_F: u16 = 33;

pub const KEY_G: u16 = 34;

pub const KEY_H: u16 = 35;

pub const KEY_I: u16 = 23;

pub const KEY_J: u16 = 36;

pub const KEY_K: u16 = 37;

pub const KEY_L: u16 = 38;

pub const KEY_M: u16 = 50;

pub const KEY_N: u16 = 49;

pub const KEY_O: u16 = 24;

pub const KEY_P: u16 = 25;

pub const KEY_Q: u16 = 16;

pub const KEY_R: u16 = 19;

pub const KEY_S: u16 = 31;

pub const KEY_T: u16 = 20;

pub const KEY_U: u16 = 22;

pub const KEY_V: u16 = 47;

pub const KEY_W: u16 = 17;

pub const KEY_X: u16 = 45;

pub const KEY_Y: u16 = 21;

pub const KEY_Z: u16 = 44;

pub const KEY_0: u16 = 11;

pub const KEY_1: u16 = 2;

pub const KEY_2: u16 = 3;

pub const KEY_3: u16 = 4;

pub const KEY_4: u16 = 5;

pub const KEY_5: u16 = 6;

pub const KEY_6: u16 = 7;

pub const KEY_7: u16 = 8;

pub const KEY_8: u16 = 9;

pub const KEY_9: u16 = 10;

pub const KEY_F1: u16 = 59;

pub const KEY_F2: u16 = 60;

pub const KEY_F3: u16 = 61;

pub const KEY_F4: u16 = 62;

pub const KEY_F5: u16 = 63;

pub const KEY_F6: u16 = 64;

pub const KEY_F7: u16 = 65;

pub const KEY_F8: u16 = 66;

pub const KEY_F9: u16 = 67;

pub const KEY_F10: u16 = 68;

pub const KEY_F11: u16 = 87;

pub const KEY_F12: u16 = 88;

pub const KEY_ENTER: u16 = 28;

pub const KEY_ESC: u16 = 1;

pub const KEY_TAB: u16 = 15;

pub const KEY_BACKSPACE: u16 = 14;

pub const KEY_DELETE: u16 = 111;

pub const KEY_INSERT: u16 = 110;

pub const KEY_HOME: u16 = 102;

pub const KEY_END: u16 = 107;

pub const KEY_PAGEUP: u16 = 104;

pub const KEY_PAGEDOWN: u16 = 109;

pub const KEY_SPACE: u16 = 57;

pub const KEY_LEFT: u16 = 105;

pub const KEY_UP: u16 = 103;

pub const KEY_RIGHT: u16 = 106;

pub const KEY_DOWN: u16 = 108;

pub const KEY_MINUS: u16 = 12;

pub const KEY_EQUAL: u16 = 13;

pub const KEY_LEFTBRACE: u16 = 26;

pub const KEY_RIGHTBRACE: u16 = 27;

pub const KEY_BACKSLASH: u16 = 43;

pub const KEY_SEMICOLON: u16 = 39;

pub const KEY_APOSTROPHE: u16 = 40;

pub const KEY_GRAVE: u16 = 41;

pub const KEY_COMMA: u16 = 51;

pub const KEY_DOT: u16 = 52;

pub const KEY_SLASH: u16 = 53;

pub const KEY_PRINT: u16 = 210;

pub const KEY_SCROLLLOCK: u16 = 70;

pub const KEY_PAUSE: u16 = 119;

pub const KEY_CAPSLOCK: u16 = 58;

pub const KEY_NUMLOCK: u16 = 69;

pub const KEY_COMPOSE: u16 = 127;

/// A key with the modifiers that have to be held.
#[derive(Debug, Clone, Copy, PartialEq, Eq, Structural)]
pub struct EvdevKeybinding {
    /// The kernel's code of the key.
    pub key_code: u16,
    /// The modifier flags that have to be held, and no others.
    pub modifiers: u32,
}

/// The modifier flag of a key, if it is a modifier key.
pub open spec fn flag_of(code: u16) -> Option<u32> {
    if code == EV_KEY_LEFTCTRL || code == EV_KEY_RIGHTCTRL {
        Some(MOD_CTRL)
    } else if code == EV_KEY_LEFTALT || code == EV_KEY_RIGHTALT {
        Some(MOD_ALT)
    } else if code == EV_KEY_LEFTSHIFT || code == EV_KEY_RIGHTSHIFT {
        Some(MOD_SHIFT)
    } else if code == EV_KEY_LEFTMETA || code == EV_KEY_RIGHTMETA {
        Some(MOD_SUPER)
    } else {
        None
    }
}

/// Some key with this flag is held.
pub open spec fn flag_held(held: Set<u16>, flag: u32) -> bool {
    exists|code: u16| held.contains(code) && flag_of(code) == Some(flag)
}

/// The flag where it is held, else nothing.
pub open spec fn flag_if_held(held: Set<u16>, flag: u32) -> u32 {
    if flag_held(held, flag) {
        flag
    } else {
        0
    }
}

/// The modifier flags of the keys that are held.
pub open spec fn flags_of(held: Set<u16>) -> u32 {
    flag_if_held(held, MOD_CTRL) | flag_if_held(held, MOD_ALT) | flag_if_held(held, MOD_SHIFT)
        | flag_if_held(held, MOD_SUPER)
}

/// Whether a key is a modifier key.
pub fn is_modifier_key(code: u16) -> (r: bool)
    ensures
        r == (flag_of(code) is Some),
{
    code == EV_KEY_LEFTCTRL || code == EV_KEY_RIGHTCTRL || code == EV_KEY_LEFTALT || code
        == EV_KEY_RIGHTALT || code == EV_KEY_LEFTSHIFT || code == EV_KEY_RIGHTSHIFT || code
        == EV_KEY_LEFTMETA || code == EV_KEY_RIGHTMETA
}

/// The modifier flag of a modifier key.
pub fn modifier_flag_for_key(code: u16) -> (r: Option<u32>)
    ensures
        r == flag_of(code),
{
    if code == EV_KEY_LEFTCTRL || code == EV_KEY_RIGHTCTRL {
        Some(MOD_CTRL)
    } else if code == EV_KEY_LEFTALT || code == EV_KEY_RIGHTALT {
        Some(MOD_ALT)
    } else if code == EV_KEY_LEFTSHIFT || code == EV_KEY_RIGHTSHIFT {
        Some(MOD_SHIFT)
    } else if code == EV_KEY_LEFTMETA || code == EV_KEY_RIGHTMETA {
        Some(MOD_SUPER)
    } else {
        None
    }
}

fn either_held(held: &HashSet<u16>, left: u16, right: u16, flag: u32) -> (r: u32)
    requires
        forall|code: u16| flag_of(code) == Some(flag) <==> code == left || code == right,
    ensures
        r == flag_if_held(held@, flag),
{
    let is_held: bool = held.contains(&left) || held.contains(&right);
    proof {
        if held@.contains(left) {
            assert(flag_of(left) == Some(flag));
        }
        if held@.contains(right) {
            assert(flag_of(right) == Some(flag));
        }
    }
    if is_held {
        flag
    } else {
        0
    }
}

/// The modifier flags of the keys that are held.
pub fn modifiers_from_held_keys(held: &HashSet<u16>) -> (mods: u32)
    ensures
        mods == flags_of(held@),
{
    either_held(held, EV_KEY_LEFTCTRL, EV_KEY_RIGHTCTRL, MOD_CTRL) | either_held(
        held,
        EV_KEY_LEFTALT,
        EV_KEY_RIGHTALT,
        MOD_ALT,
    ) | either_held(held, EV_KEY_LEFTSHIFT, EV_KEY_RIGHTSHIFT, MOD_SHIFT) | either_held(
        held,
        EV_KEY_LEFTMETA,
        EV_KEY_RIGHTMETA,
        MOD_SUPER,
    )
}

/// An upper-case letter's key value as the lower-case one; any other as it is.
pub open spec fn folded(keyval: u32) -> u32 {
    if 0x41 <= keyval <= 0x5A {
        (keyval + 0x20) as u32
    } else {
        keyval
    }
}

/// An upper-case letter's key value as the lower-case one; any other as it is.
pub fn normalize_keyval(keyval: u32) -> (r: u32)
    ensures
        r == folded(keyval),
{
    if 0x41 <= keyval && keyval <= 0x5A {
        keyval + 0x20
    } else {
        keyval
    }
}

/// The key that a key value without upper-case letters stands for.
pub open spec fn key_for(keyval: u32) -> Option<u16> {
    match keyval {
        0x61 => Some(KEY_A),
        0x62 => Some(KEY_B),
        0x63 => Some(KEY_C),
        0x64 => Some(KEY_D),
        0x65 => Some(KEY_E),
        0x66 => Some(KEY_F),
        0x67 => Some(KEY_G),
        0x68 => Some(KEY_H),
        0x69 => Some(KEY_I),
        0x6a => Some(KEY_J),
        0x6b => Some(KEY_K),
        0x6c => Some(KEY_L),
        0x6d => Some(KEY_M),
        0x6e => Some(KEY_N),
        0x6f => Some(KEY_O),
        0x70 => Some(KEY_P),
        0x71 => Some(KEY_Q),
        0x72 => Some(KEY_R),
        0x73 => Some(KEY_S),
        0x74 => Some(KEY_T),
        0x75 => Some(KEY_U),
        0x76 => Some(KEY_V),
        0x77 => Some(KEY_W),
        0x78 => Some(KEY_X),
        0x79 => Some(KEY_Y),
        0x7a => Some(KEY_Z),
        0x30 => Some(KEY_0),
        0x31 => Some(KEY_1),
        0x32 => Some(KEY_2),
        0x33 => Some(KEY_3),
        0x34 => Some(KEY_4),
        0x35 => Some(KEY_5),
        0x36 => Some(KEY_6),
        0x37 => Some(KEY_7),
        0x38 => Some(KEY_8),
        0x39 => Some(KEY_9),
        0xffbe => Some(KEY_F1),
        0xffbf => Some(KEY_F2),
        0xffc0 => Some(KEY_F3),
        0xffc1 => Some(KEY_F4),
        0xffc2 => Some(KEY_F5),
        0xffc3 => Some(KEY_F6),
        0xffc4 => Some(KEY_F7),
        0xffc5 => Some(KEY_F8),
        0xffc6 => Some(KEY_F9),
        0xffc7 => Some(KEY_F10),
        0xffc8 => Some(KEY_F11),
        0xffc9 => Some(KEY_F12),
        0xff0d => Some(KEY_ENTER),
        0xff1b => Some(KEY_ESC),
        0xff09 => Some(KEY_TAB),
        0xff08 => Some(KEY_BACKSPACE),
        0xffff => Some(KEY_DELETE),
        0xff63 => Some(KEY_INSERT),
        0xff50 => Some(KEY_HOME),
        0xff57 => Some(KEY_END),
        0xff55 => Some(KEY_PAGEUP),
        0xff56 => Some(KEY_PAGEDOWN),
        0x20 => Some(KEY_SPACE),
        0xff51 => Some(KEY_LEFT),
        0xff52 => Some(KEY_UP),
        0xff53 => Some(KEY_RIGHT),
        0xff54 => Some(KEY_DOWN),
        0x2d => Some(KEY_MINUS),
        0x3d => Some(KEY_EQUAL),
        0x5b => Some(KEY_LEFTBRACE),
        0x5d => Some(KEY_RIGHTBRACE),
        0x5c => Some(KEY_BACKSLASH),
        0x3b => Some(KEY_SEMICOLON),
        0x27 => Some(KEY_APOSTROPHE),
        0x60 => Some(KEY_GRAVE),
        0x2c => Some(KEY_COMMA),
        0x2e => Some(KEY_DOT),
        0x2f => Some(KEY_SLASH),
        0xff61 => Some(KEY_PRINT),
        0xff14 => Some(KEY_SCROLLLOCK),
        0xff13 => Some(KEY_PAUSE),
        0xffe5 => Some(KEY_CAPSLOCK),
        0xff7f => Some(KEY_NUMLOCK),
        0xff67 => Some(KEY_COMPOSE),
        _ => None,
    }
}

/// The kernel's code of the key that a key value stands for, for the keys that can be shortcuts.
pub fn gdk_keyval_to_evdev(keyval: u32) -> (r: Option<u16>)
    ensures
        r == key_for(folded(keyval)),
{
    match normalize_keyval(keyval) {
        0x61 => Some(KEY_A),
        0x62 => Some(KEY_B),
        0x63 => Some(KEY_C),
        0x64 => Some(KEY_D),
        0x65 => Some(KEY_E),
        0x66 => Some(KEY_F),
        0x67 => Some(KEY_G),
        0x68 => Some(KEY_H),
        0x69 => Some(KEY_I),
        0x6a => Some(KEY_J),
        0x6b => Some(KEY_K),
        0x6c => Some(KEY_L),
        0x6d => Some(KEY_M),
        0x6e => Some(KEY_N),
        0x6f => Some(KEY_O),
        0x70 => Some(KEY_P),
        0x71 => Some(KEY_Q),
        0x72 => Some(KEY_R),
        0x73 => Some(KEY_S),
        0x74 => Some(KEY_T),
        0x75 => Some(KEY_U),
        0x76 => Some(KEY_V),
        0x77 => Some(KEY_W),
        0x78 => Some(KEY_X),
        0x79 => Some(KEY_Y),
        0x7a => Some(KEY_Z),
        0x30 => Some(KEY_0),
        0x31 => Some(KEY_1),
        0x32 => Some(KEY_2),
        0x33 => Some(KEY_3),
        0x34 => Some(KEY_4),
        0x35 => Some(KEY_5),
        0x36 => Some(KEY_6),
        0x37 => Some(KEY_7),
        0x38 => Some(KEY_8),
        0x39 => Some(KEY_9),
        0xffbe => Some(KEY_F1),
        0xffbf => Some(KEY_F2),
        0xffc0 => Some(KEY_F3),
        0xffc1 => Some(KEY_F4),
        0xffc2 => Some(KEY_F5),
        0xffc3 => Some(KEY_F6),
        0xffc4 => Some(KEY_F7),
        0xffc5 => Some(KEY_F8),
        0xffc6 => Some(KEY_F9),
        0xffc7 => Some(KEY_F10),
        0xffc8 => Some(KEY_F11),
        0xffc9 => Some(KEY_F12),
        0xff0d => Some(KEY_ENTER),
        0xff1b => Some(KEY_ESC),
        0xff09 => Some(KEY_TAB),
        0xff08 => Some(KEY_BACKSPACE),
        0xffff => Some(KEY_DELETE),
        0xff63 => Some(KEY_INSERT),
        0xff50 => Some(KEY_HOME),
        0xff57 => Some(KEY_END),
        0xff55 => Some(KEY_PAGEUP),
        0xff56 => Some(KEY_PAGEDOWN),
        0x20 => Some(KEY_SPACE),
        0xff51 => Some(KEY_LEFT),
        0xff52 => Some(KEY_UP),
        0xff53 => Some(KEY_RIGHT),
        0xff54 => Some(KEY_DOWN),
        0x2d => Some(KEY_MINUS),
        0x3d => Some(KEY_EQUAL),
        0x5b => Some(KEY_LEFTBRACE),
        0x5d => Some(KEY_RIGHTBRACE),
        0x5c => Some(KEY_BACKSLASH),
        0x3b => Some(KEY_SEMICOLON),
        0x27 => Some(KEY_APOSTROPHE),
        0x60 => Some(KEY_GRAVE),
        0x2c => Some(KEY_COMMA),
        0x2e => Some(KEY_DOT),
        0x2f => Some(KEY_SLASH),
        0xff61 => Some(KEY_PRINT),
        0xff14 => Some(KEY_SCROLLLOCK),
        0xff13 => Some(KEY_PAUSE),
        0xffe5 => Some(KEY_CAPSLOCK),
        0xff7f => Some(KEY_NUMLOCK),
        0xff67 => Some(KEY_COMPOSE),
        _ => None,
    }
}

/// The key and modifiers of a shortcut, if its key is known.
pub open spec fn binding_for(keyval: u32, modifiers: u32) -> Option<EvdevKeybinding> {
    match key_for(folded(keyval)) {
        Some(key_code) => Some(EvdevKeybinding { key_code, modifiers }),
        None => None,
    }
}

/// The key and modifiers of a shortcut, if its key is known.
pub fn resolve_keybinding(keyval: u32, modifiers: u32) -> (r: Option<EvdevKeybinding>)
    ensures
        r == binding_for(keyval, modifiers),
{
    match gdk_keyval_to_evdev(keyval) {
        Some(key_code) => Some(EvdevKeybinding { key_code, modifiers }),
        None => None,
    }
}

/// The key value of a key.
pub open spec fn keyval_of(code: u16) -> u32 {
    match code {
        30 => 0x61,
        48 => 0x62,
        46 => 0x63,
        32 => 0x64,
        18 => 0x65,
        33 => 0x66,
        34 => 0x67,
        35 => 0x68,
        23 => 0x69,
        36 => 0x6a,
        37 => 0x6b,
        38 => 0x6c,
        50 => 0x6d,
        49 => 0x6e,
        24 => 0x6f,
        25 => 0x70,
        16 => 0x71,
        19 => 0x72,
        31 => 0x73,
        20 => 0x74,
        22 => 0x75,
        47 => 0x76,
        17 => 0x77,
        45 => 0x78,
        21 => 0x79,
        44 => 0x7a,
        11 => 0x30,
        2 => 0x31,
        3 => 0x32,
        4 => 0x33,
        5 => 0x34,
        6 => 0x35,
        7 => 0x36,
        8 => 0x37,
        9 => 0x38,
        10 => 0x39,
        59 => 0xffbe,
        60 => 0xffbf,
        61 => 0xffc0,
        62 => 0xffc1,
        63 => 0xffc2,
        64 => 0xffc3,
        65 => 0xffc4,
        66 => 0xffc5,
        67 => 0xffc6,
        68 => 0xffc7,
        87 => 0xffc8,
        88 => 0xffc9,
        28 => 0xff0d,
        1 => 0xff1b,
        15 => 0xff09,
        14 => 0xff08,
        111 => 0xffff,
        110 => 0xff63,
        102 => 0xff50,
        107 => 0xff57,
        104 => 0xff55,
        109 => 0xff56,
        57 => 0x20,
        105 => 0xff51,
        103 => 0xff52,
        106 => 0xff53,
        108 => 0xff54,
        12 => 0x2d,
        13 => 0x3d,
        26 => 0x5b,
        27 => 0x5d,
        43 => 0x5c,
        39 => 0x3b,
        40 => 0x27,
        41 => 0x60,
        51 => 0x2c,
        52 => 0x2e,
        53 => 0x2f,
        210 => 0xff61,
        70 => 0xff14,
        119 => 0xff13,
        58 => 0xffe5,
        69 => 0xff7f,
        127 => 0xff67,
        _ => 0,
    }
}

/// No two key values stand for the same key, but for the case of letters.
pub proof fn law_keys_are_distinct(a: u32, b: u32)
    requires
        key_for(folded(a)) is Some,
        key_for(folded(a)) == key_for(folded(b)),
    ensures
        folded(a) == folded(b),
{
    assert(keyval_of(key_for(folded(a))->0) == folded(a));
    assert(keyval_of(key_for(folded(b))->0) == folded(b));
}

/// The key of a shortcut is never itself a modifier key.
pub proof fn law_shortcut_key_is_no_modifier(keyval: u32)
    requires
        key_for(folded(keyval)) is Some,
    ensures
        flag_of(key_for(folded(keyval))->0) is None,
{
}

/// The upper-case and the lower-case letter make the same shortcut.
pub proof fn law_case_makes_no_difference(keyval: u32, modifiers: u32)
    requires
        0x41 <= keyval <= 0x5A,
    ensures
        binding_for(keyval, modifiers) == binding_for((keyval + 0x20) as u32, modifiers),
        folded(folded(keyval)) == folded(keyval),
{
}

/// A flag is among the modifiers exactly if one of its keys is held.
pub proof fn law_flags_tell_what_is_held(held: Set<u16>)
    ensures
        flags_of(held) & MOD_CTRL != 0 <==> flag_held(held, MOD_CTRL),
        flags_of(held) & MOD_ALT != 0 <==> flag_held(held, MOD_ALT),
        flags_of(held) & MOD_SHIFT != 0 <==> flag_held(held, MOD_SHIFT),
        flags_of(held) & MOD_SUPER != 0 <==> flag_held(held, MOD_SUPER),
        flags_of(held) & !(MOD_CTRL | MOD_ALT | MOD_SHIFT | MOD_SUPER) == 0,
{
    let c = flag_if_held(held, MOD_CTRL);
    let a = flag_if_held(held, MOD_ALT);
    let s = flag_if_held(held, MOD_SHIFT);
    let m = flag_if_held(held, MOD_SUPER);
    let all = c | a | s | m;
    assert((all & 4 != 0 <==> c == 4) && (all & 8 != 0 <==> a == 8) && (all & 1 != 0 <==> s == 1)
        && (all & 64 != 0 <==> m == 64) && all & !(4u32 | 8u32 | 1u32 | 64u32) == 0) by (bit_vector)
        requires
            c == 4 || c == 0,
            a == 8 || a == 0,
            s == 1 || s == 0,
            m == 64 || m == 0,
            all == c | a | s | m,
    ;
}

proof fn lemma_flag_of_union(a: Set<u16>, b: Set<u16>, flag: u32)
    ensures
        flag_if_held(a.union(b), flag) == flag_if_held(a, flag) | flag_if_held(b, flag),
{
    if flag_held(a, flag) {
        let code = choose|code: u16| a.contains(code) && flag_of(code) == Some(flag);
        assert(a.union(b).contains(code));
    }
    if flag_held(b, flag) {
        let code = choose|code: u16| b.contains(code) && flag_of(code) == Some(flag);
        assert(a.union(b).contains(code));
    }
    assert(flag | flag == flag && flag | 0 == flag && 0 | flag == flag && 0u32 | 0 == 0)
        by (bit_vector);
}

/// The flags of keys held together are the flags of either part.
pub proof fn law_flags_of_union(a: Set<u16>, b: Set<u16>)
    ensures
        flags_of(a.union(b)) == flags_of(a) | flags_of(b),
{
    lemma_flag_of_union(a, b, MOD_CTRL);
    lemma_flag_of_union(a, b, MOD_ALT);
    lemma_flag_of_union(a, b, MOD_SHIFT);
    lemma_flag_of_union(a, b, MOD_SUPER);
    let (c, d) = (flag_if_held(a, MOD_CTRL), flag_if_held(b, MOD_CTRL));
    let (e, f) = (flag_if_held(a, MOD_ALT), flag_if_held(b, MOD_ALT));
    let (g, h) = (flag_if_held(a, MOD_SHIFT), flag_if_held(b, MOD_SHIFT));
    let (i, j) = (flag_if_held(a, MOD_SUPER), flag_if_held(b, MOD_SUPER));
    assert((c | d) | (e | f) | (g | h) | (i | j) == (c | e | g | i) | (d | f | h | j))
        by (bit_vector);
}

/// Every key that is known by its symbol has that symbol, and every key with a symbol is known by it:
/// the letters, digits, function keys and the others.
pub proof fn law_keys_are_known_by_their_symbols(keyval: u32, code: u16)
    ensures
        keyval != 0 ==> (key_for(keyval) == Some(code) <==> keyval_of(code) == keyval),
        0x61 <= keyval <= 0x7A || 0x41 <= keyval <= 0x5A || 0x30 <= keyval <= 0x39 || 0xffbe
            <= keyval <= 0xffc9 ==> binding_for(keyval, 0) is Some,
        key_for(0) is None,
{
}

/// A shortcut keeps the modifiers that it was given, and its key does not depend on them.
pub proof fn law_shortcuts_keep_their_modifiers(keyval: u32, a: u32, b: u32)
    ensures
        binding_for(keyval, a) is Some <==> binding_for(keyval, b) is Some,
        binding_for(keyval, a) is Some ==> (binding_for(keyval, a)->0).modifiers == a && (
        binding_for(keyval, a)->0).key_code == (binding_for(keyval, b)->0).key_code,
{
}

/// Each modifier is on the left and on the right of a keyboard, and no other key is one.
pub proof fn law_modifiers_are_on_both_sides(code: u16)
    ensures
        flag_of(29) == Some(4u32) && flag_of(97) == Some(4u32),
        flag_of(56) == Some(8u32) && flag_of(100) == Some(8u32),
        flag_of(42) == Some(1u32) && flag_of(54) == Some(1u32),
        flag_of(125) == Some(64u32) && flag_of(126) == Some(64u32),
        flag_of(code) is Some ==> code == 29 || code == 97 || code == 56 || code == 100 || code == 42
            || code == 54 || code == 125 || code == 126,
{
}

} // verus!
