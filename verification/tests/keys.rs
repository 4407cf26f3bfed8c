use dikt::key_mapping::{
    gdk_keyval_to_evdev, is_modifier_key, modifier_flag_for_key, modifiers_from_held_keys,
    normalize_keyval, resolve_keybinding, EV_KEY_LEFTCTRL, EV_KEY_LEFTSHIFT, MOD_ALT, MOD_CTRL,
    MOD_SHIFT, MOD_SUPER,
};
use std::collections::HashSet;

#[test]
fn test_letter_mapping() {
    assert_eq!(gdk_keyval_to_evdev(0x61), Some(evdev::Key::KEY_A.code()));
    assert_eq!(gdk_keyval_to_evdev(0x41), Some(evdev::Key::KEY_A.code()));
}

#[test]
fn test_function_key_mapping() {
    assert_eq!(gdk_keyval_to_evdev(0xffbe), Some(evdev::Key::KEY_F1.code()));
    assert_eq!(gdk_keyval_to_evdev(0xffc9), Some(evdev::Key::KEY_F12.code()));
}

#[test]
fn test_space_mapping() {
    assert_eq!(gdk_keyval_to_evdev(0x0020), Some(evdev::Key::KEY_SPACE.code()));
}

#[test]
fn test_unknown_keyval_returns_none() {
    assert_eq!(gdk_keyval_to_evdev(0x9999), None);
}

#[test]
fn test_resolve_keybinding() {
    let kb = resolve_keybinding(0x61, MOD_CTRL).unwrap();
    assert_eq!(kb.key_code, evdev::Key::KEY_A.code());
    assert_eq!(kb.modifiers, MOD_CTRL);
}

#[test]
fn test_modifier_flags() {
    let mut held = HashSet::new();
    held.insert(EV_KEY_LEFTCTRL);
    held.insert(EV_KEY_LEFTSHIFT);
    let mods = modifiers_from_held_keys(&held);
    assert_eq!(mods, MOD_CTRL | MOD_SHIFT);
}

#[test]
fn modifier_keys_have_flags() {
    let flags = [
        (evdev::Key::KEY_LEFTCTRL, MOD_CTRL),
        (evdev::Key::KEY_RIGHTCTRL, MOD_CTRL),
        (evdev::Key::KEY_LEFTSHIFT, MOD_SHIFT),
        (evdev::Key::KEY_RIGHTSHIFT, MOD_SHIFT),
        (evdev::Key::KEY_LEFTALT, MOD_ALT),
        (evdev::Key::KEY_RIGHTALT, MOD_ALT),
        (evdev::Key::KEY_LEFTMETA, MOD_SUPER),
        (evdev::Key::KEY_RIGHTMETA, MOD_SUPER),
    ];
    for (key, flag) in flags {
        assert!(is_modifier_key(key.code()));
        assert_eq!(modifier_flag_for_key(key.code()), Some(flag));
    }
    assert!(!is_modifier_key(evdev::Key::KEY_A.code()));
    assert_eq!(modifier_flag_for_key(evdev::Key::KEY_A.code()), None);
}

#[test]
fn the_case_of_a_letter_makes_no_difference() {
    for c in 'A'..='Z' {
        let lower = c.to_ascii_lowercase();
        assert_eq!(normalize_keyval(c as u32), lower as u32);
        assert_eq!(gdk_keyval_to_evdev(c as u32), gdk_keyval_to_evdev(lower as u32));
        assert!(gdk_keyval_to_evdev(c as u32).is_some());
    }
}

#[test]
fn every_key_has_the_number_that_evdev_gives_it() {
    let keys = [
        (0x0061, evdev::Key::KEY_A),
        (0x0062, evdev::Key::KEY_B),
        (0x0063, evdev::Key::KEY_C),
        (0x0064, evdev::Key::KEY_D),
        (0x0065, evdev::Key::KEY_E),
        (0x0066, evdev::Key::KEY_F),
        (0x0067, evdev::Key::KEY_G),
        (0x0068, evdev::Key::KEY_H),
        (0x0069, evdev::Key::KEY_I),
        (0x006a, evdev::Key::KEY_J),
        (0x006b, evdev::Key::KEY_K),
        (0x006c, evdev::Key::KEY_L),
        (0x006d, evdev::Key::KEY_M),
        (0x006e, evdev::Key::KEY_N),
        (0x006f, evdev::Key::KEY_O),
        (0x0070, evdev::Key::KEY_P),
        (0x0071, evdev::Key::KEY_Q),
        (0x0072, evdev::Key::KEY_R),
        (0x0073, evdev::Key::KEY_S),
        (0x0074, evdev::Key::KEY_T),
        (0x0075, evdev::Key::KEY_U),
        (0x0076, evdev::Key::KEY_V),
        (0x0077, evdev::Key::KEY_W),
        (0x0078, evdev::Key::KEY_X),
        (0x0079, evdev::Key::KEY_Y),
        (0x007a, evdev::Key::KEY_Z),
        (0x0030, evdev::Key::KEY_0),
        (0x0031, evdev::Key::KEY_1),
        (0x0032, evdev::Key::KEY_2),
        (0x0033, evdev::Key::KEY_3),
        (0x0034, evdev::Key::KEY_4),
        (0x0035, evdev::Key::KEY_5),
        (0x0036, evdev::Key::KEY_6),
        (0x0037, evdev::Key::KEY_7),
        (0x0038, evdev::Key::KEY_8),
        (0x0039, evdev::Key::KEY_9),
        (0xffbe, evdev::Key::KEY_F1),
        (0xffbf, evdev::Key::KEY_F2),
        (0xffc0, evdev::Key::KEY_F3),
        (0xffc1, evdev::Key::KEY_F4),
        (0xffc2, evdev::Key::KEY_F5),
        (0xffc3, evdev::Key::KEY_F6),
        (0xffc4, evdev::Key::KEY_F7),
        (0xffc5, evdev::Key::KEY_F8),
        (0xffc6, evdev::Key::KEY_F9),
        (0xffc7, evdev::Key::KEY_F10),
        (0xffc8, evdev::Key::KEY_F11),
        (0xffc9, evdev::Key::KEY_F12),
        (0xff0d, evdev::Key::KEY_ENTER),
        (0xff1b, evdev::Key::KEY_ESC),
        (0xff09, evdev::Key::KEY_TAB),
        (0xff08, evdev::Key::KEY_BACKSPACE),
        (0xffff, evdev::Key::KEY_DELETE),
        (0xff63, evdev::Key::KEY_INSERT),
        (0xff50, evdev::Key::KEY_HOME),
        (0xff57, evdev::Key::KEY_END),
        (0xff55, evdev::Key::KEY_PAGEUP),
        (0xff56, evdev::Key::KEY_PAGEDOWN),
        (0x0020, evdev::Key::KEY_SPACE),
        (0xff51, evdev::Key::KEY_LEFT),
        (0xff52, evdev::Key::KEY_UP),
        (0xff53, evdev::Key::KEY_RIGHT),
        (0xff54, evdev::Key::KEY_DOWN),
        (0x002d, evdev::Key::KEY_MINUS),
        (0x003d, evdev::Key::KEY_EQUAL),
        (0x005b, evdev::Key::KEY_LEFTBRACE),
        (0x005d, evdev::Key::KEY_RIGHTBRACE),
        (0x005c, evdev::Key::KEY_BACKSLASH),
        (0x003b, evdev::Key::KEY_SEMICOLON),
        (0x0027, evdev::Key::KEY_APOSTROPHE),
        (0x0060, evdev::Key::KEY_GRAVE),
        (0x002c, evdev::Key::KEY_COMMA),
        (0x002e, evdev::Key::KEY_DOT),
        (0x002f, evdev::Key::KEY_SLASH),
        (0xff61, evdev::Key::KEY_PRINT),
        (0xff14, evdev::Key::KEY_SCROLLLOCK),
        (0xff13, evdev::Key::KEY_PAUSE),
        (0xffe5, evdev::Key::KEY_CAPSLOCK),
        (0xff7f, evdev::Key::KEY_NUMLOCK),
        (0xff67, evdev::Key::KEY_COMPOSE),
    ];
    for (keyval, key) in keys {
        assert_eq!(gdk_keyval_to_evdev(keyval), Some(key.code()), "{:?}", key);
        assert_eq!(resolve_keybinding(keyval, MOD_ALT).unwrap().key_code, key.code());
    }
}

#[test]
fn keys_held_together_have_the_flags_of_both() {
    let left: HashSet<u16> = [EV_KEY_LEFTCTRL, EV_KEY_LEFTSHIFT].into_iter().collect();
    let right: HashSet<u16> = [evdev::Key::KEY_RIGHTCTRL.code(), evdev::Key::KEY_LEFTALT.code()]
        .into_iter()
        .collect();
    let both: HashSet<u16> = left.union(&right).copied().collect();
    assert_eq!(
        modifiers_from_held_keys(&both),
        modifiers_from_held_keys(&left) | modifiers_from_held_keys(&right)
    );
    assert_eq!(modifiers_from_held_keys(&both), MOD_CTRL | MOD_SHIFT | MOD_ALT);
}
