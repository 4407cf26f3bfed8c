//! The keyboard's events: which keys are held, and when the shortcut is pressed.

use crate::counter;
use crate::key_mapping;
use crate::key_mapping::{is_modifier_key, modifiers_from_held_keys, EvdevKeybinding};
use crate::text;
use crate::text::starts_with;
use std::collections::HashSet;
use vstd::prelude::*;
use vstd::string::*;

verus! {

broadcast use vstd::std_specs::hash::group_hash_axioms;

/// The shortest time between two presses that both count, in milliseconds.
pub const TOGGLE_PRESS_DEBOUNCE_MS: u64 = 90;

/// How often the settings are looked at, in milliseconds.
pub const SETTINGS_POLL_INTERVAL_MS: u64 = 350;

/// A key goes down or up.
#[derive(Clone, Copy, Debug, PartialEq, Eq, Structural)]
pub enum KeyEvent {
    Press(u16),
    Release(u16),
}

/// What a key's event means: 1 is a press, 0 a release; repeats and anything else are ignored.
pub fn key_event_of(code: u16, value: i32) -> (r: Option<KeyEvent>)
    ensures
        r == (if value == 1 {
            Some(KeyEvent::Press(code))
        } else if value == 0 {
            Some(KeyEvent::Release(code))
        } else {
            None
        }),
{
    if value == 1 {
        Some(KeyEvent::Press(code))
    } else if value == 0 {
        Some(KeyEvent::Release(code))
    } else {
        None
    }
}

/// Whether a file under the input directory can be a keyboard.
pub fn is_event_device(file_name: &str) -> (r: bool)
    ensures
        r == text::has_prefix(file_name@, "event"@),
{
    starts_with(file_name, "event")
}

/// Whether a device is a keyboard: it reports keys, and has letters and a space bar.
pub fn is_keyboard(reports_keys: bool, has_a: bool, has_z: bool, has_space: bool) -> (r: bool)
    ensures
        r == (reports_keys && has_a && has_z && has_space),
{
    reports_keys && has_a && has_z && has_space
}

/// What a key event means for the shortcut.
#[derive(Clone, Copy, Debug, PartialEq, Eq, Structural)]
pub enum KeyAction {
    Nothing,
    /// The shortcut was pressed, too soon after the last time.
    Debounced,
    /// The shortcut was pressed.
    Pressed,
}

/// What the tracker knows.
pub struct TrackerView {
    pub held: Set<u16>,
    pub last_press_ms: u64,
}

/// The modifier keys that are held and when the shortcut was last pressed.
pub struct KeyTracker {
    held_modifiers: HashSet<u16>,
    last_shortcut_press_ms: u64,
}

impl View for KeyTracker {
    type V = TrackerView;

    closed spec fn view(&self) -> TrackerView {
        TrackerView { held: self.held_modifiers@, last_press_ms: self.last_shortcut_press_ms }
    }
}

/// The event presses the shortcut: its key goes down while exactly its modifiers are held.
pub open spec fn presses(t: TrackerView, event: KeyEvent, binding: EvdevKeybinding) -> bool {
    &&& event == KeyEvent::Press(binding.key_code)
    &&& key_mapping::flag_of(binding.key_code) is None
    &&& key_mapping::flags_of(t.held) == binding.modifiers
}

/// What an event means.
pub open spec fn action_of(
    t: TrackerView,
    event: KeyEvent,
    binding: EvdevKeybinding,
    now_ms: u64,
) -> KeyAction {
    if !presses(t, event, binding) {
        KeyAction::Nothing
    } else if counter::minus(now_ms, t.last_press_ms) < TOGGLE_PRESS_DEBOUNCE_MS {
        KeyAction::Debounced
    } else {
        KeyAction::Pressed
    }
}

/// What the tracker knows after an event.
pub open spec fn tracked_after(
    t: TrackerView,
    event: KeyEvent,
    binding: EvdevKeybinding,
    now_ms: u64,
) -> TrackerView {
    match event {
        KeyEvent::Press(code) => if key_mapping::flag_of(code) is Some {
            TrackerView { held: t.held.insert(code), ..t }
        } else if action_of(t, event, binding, now_ms) == KeyAction::Pressed {
            TrackerView { last_press_ms: now_ms, ..t }
        } else {
            t
        },
        KeyEvent::Release(code) => if key_mapping::flag_of(code) is Some {
            TrackerView { held: t.held.remove(code), ..t }
        } else {
            t
        },
    }
}

/// Only modifier keys are tracked.
pub open spec fn only_modifiers(t: TrackerView) -> bool {
    forall|code: u16| #[trigger] t.held.contains(code) ==> key_mapping::flag_of(code) is Some
}

impl KeyTracker {
    /// Only modifier keys are tracked.
    pub open spec fn wf(&self) -> bool {
        only_modifiers(self@)
    }

    /// A tracker that knows of no key.
    pub fn new() -> (t: Self)
        ensures
            t.wf(),
            t@ == (TrackerView { held: Set::empty(), last_press_ms: 0 }),
    {
        KeyTracker { held_modifiers: HashSet::new(), last_shortcut_press_ms: 0 }
    }

    /// A key event at the given time.
    pub fn handle(&mut self, event: KeyEvent, binding: &EvdevKeybinding, now_ms: u64) -> (r:
        KeyAction)
        requires
            old(self).wf(),
        ensures
            final(self).wf(),
            r == action_of(old(self)@, event, *binding, now_ms),
            final(self)@ == tracked_after(old(self)@, event, *binding, now_ms),
    {
        match event {
            KeyEvent::Press(code) => {
                if is_modifier_key(code) {
                    self.held_modifiers.insert(code);
                    assert(self@.held =~= old(self)@.held.insert(code));
                    return KeyAction::Nothing;
                }
                if code != binding.key_code {
                    return KeyAction::Nothing;
                }
                if modifiers_from_held_keys(&self.held_modifiers) != binding.modifiers {
                    return KeyAction::Nothing;
                }
                if now_ms.saturating_sub(self.last_shortcut_press_ms) < TOGGLE_PRESS_DEBOUNCE_MS {
                    return KeyAction::Debounced;
                }
                self.last_shortcut_press_ms = now_ms;
                KeyAction::Pressed
            },
            KeyEvent::Release(code) => {
                if is_modifier_key(code) {
                    self.held_modifiers.remove(&code);
                    assert(self@.held =~= old(self)@.held.remove(code));
                }
                KeyAction::Nothing
            },
        }
    }
}

/// Two presses of the shortcut count only if the debounce time lies between them.
pub proof fn law_presses_are_debounced(
    t: TrackerView,
    binding: EvdevKeybinding,
    first_ms: u64,
    then_ms: u64,
)
    requires
        action_of(t, KeyEvent::Press(binding.key_code), binding, first_ms) == KeyAction::Pressed,
        then_ms < first_ms + TOGGLE_PRESS_DEBOUNCE_MS,
    ensures
        action_of(
            tracked_after(t, KeyEvent::Press(binding.key_code), binding, first_ms),
            KeyEvent::Press(binding.key_code),
            binding,
            then_ms,
        ) == KeyAction::Debounced,
{
}

/// A modifier key that goes down and up leaves the tracker as it was.
pub proof fn law_modifier_tap_leaves_no_trace(
    t: TrackerView,
    code: u16,
    binding: EvdevKeybinding,
    now_ms: u64,
)
    requires
        key_mapping::flag_of(code) is Some,
        !t.held.contains(code),
    ensures
        tracked_after(
            tracked_after(t, KeyEvent::Press(code), binding, now_ms),
            KeyEvent::Release(code),
            binding,
            now_ms,
        ) == t,
{
    assert(t.held.insert(code).remove(code) =~= t.held);
}

/// A release never presses the shortcut, and neither does its key with other modifiers held.
pub proof fn law_only_the_exact_chord_counts(
    t: TrackerView,
    event: KeyEvent,
    binding: EvdevKeybinding,
    now_ms: u64,
)
    ensures
        event is Release ==> action_of(t, event, binding, now_ms) == KeyAction::Nothing,
        key_mapping::flags_of(t.held) != binding.modifiers ==> action_of(t, event, binding, now_ms)
            == KeyAction::Nothing,
{
}

/// The code is that of one of the two control keys, alt keys, shift keys or super keys.
pub open spec fn is_modifier_code(code: u16) -> bool {
    code == 29 || code == 97 || code == 56 || code == 100 || code == 42 || code == 54 || code == 125
        || code == 126
}

/// The sum of the flags of the modifiers that are held, either key of each.
pub open spec fn held_sum(held: Set<u16>) -> int {
    (if held.contains(29) || held.contains(97) {
        4int
    } else {
        0
    }) + (if held.contains(56) || held.contains(100) {
        8int
    } else {
        0
    }) + (if held.contains(42) || held.contains(54) {
        1int
    } else {
        0
    }) + (if held.contains(125) || held.contains(126) {
        64int
    } else {
        0
    })
}

proof fn lemma_held_sum(held: Set<u16>)
    ensures
        key_mapping::flags_of(held) == held_sum(held),
{
    let c = key_mapping::flag_if_held(held, key_mapping::MOD_CTRL);
    let a = key_mapping::flag_if_held(held, key_mapping::MOD_ALT);
    let s = key_mapping::flag_if_held(held, key_mapping::MOD_SHIFT);
    let m = key_mapping::flag_if_held(held, key_mapping::MOD_SUPER);
    assert(key_mapping::flag_of(29) == Some(4u32) && key_mapping::flag_of(97) == Some(4u32));
    assert(key_mapping::flag_of(56) == Some(8u32) && key_mapping::flag_of(100) == Some(8u32));
    assert(key_mapping::flag_of(42) == Some(1u32) && key_mapping::flag_of(54) == Some(1u32));
    assert(key_mapping::flag_of(125) == Some(64u32) && key_mapping::flag_of(126) == Some(64u32));
    assert(c | a | s | m == c + a + s + m) by (bit_vector)
        requires
            c == 4 || c == 0,
            a == 8 || a == 0,
            s == 1 || s == 0,
            m == 64 || m == 0,
    ;
}

/// Whatever the shortcut is, it is pressed when its key goes down while exactly its modifiers are
/// held, and it counts if at least 90 milliseconds have passed since it last did; then the time is
/// noted, and nothing else changes. A press that comes sooner is held back and changes nothing. With
/// other modifiers held nothing happens.
pub proof fn law_every_chord_counts(t: TrackerView, binding: EvdevKeybinding, now_ms: u64)
    requires
        !is_modifier_code(binding.key_code),
    ensures
        ({
            let event = KeyEvent::Press(binding.key_code);
            let action = action_of(t, event, binding, now_ms);
            let after = tracked_after(t, event, binding, now_ms);
            &&& held_sum(t.held) == binding.modifiers && now_ms - t.last_press_ms >= 90 ==> action
                == KeyAction::Pressed && after.last_press_ms == now_ms && after.held == t.held
            &&& held_sum(t.held) == binding.modifiers && now_ms - t.last_press_ms < 90 ==> action
                == KeyAction::Debounced && after == t
            &&& held_sum(t.held) != binding.modifiers ==> action == KeyAction::Nothing && after == t
        }),
{
    lemma_held_sum(t.held);
}

/// A modifier key is held from the moment it goes down until it goes up, and by itself presses
/// nothing. The release of any other key, and the press of one that is not the shortcut's, go
/// unnoticed.
pub proof fn law_held_modifiers_are_tracked(
    t: TrackerView,
    code: u16,
    binding: EvdevKeybinding,
    now_ms: u64,
)
    ensures
        is_modifier_code(code) ==> {
            let down = tracked_after(t, KeyEvent::Press(code), binding, now_ms);
            let up = tracked_after(t, KeyEvent::Release(code), binding, now_ms);
            &&& down.held == t.held.insert(code) && down.last_press_ms == t.last_press_ms
            &&& up.held == t.held.remove(code) && up.last_press_ms == t.last_press_ms
            &&& action_of(t, KeyEvent::Press(code), binding, now_ms) == KeyAction::Nothing
        },
        action_of(t, KeyEvent::Release(code), binding, now_ms) == KeyAction::Nothing,
        !is_modifier_code(code) ==> tracked_after(t, KeyEvent::Release(code), binding, now_ms) == t,
        !is_modifier_code(code) && code != binding.key_code ==> tracked_after(
            t,
            KeyEvent::Press(code),
            binding,
            now_ms,
        ) == t && action_of(t, KeyEvent::Press(code), binding, now_ms) == KeyAction::Nothing,
{
}

} // verus!
