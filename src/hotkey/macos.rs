//! Key matching for an event tap that reports flag changes and key-down /
//! key-up events with virtual key codes.
use vstd::prelude::*;
use crate::config::{is_modifier_key, HotkeyBinding, KeyCode};

verus! {

#[derive(Debug, Clone, Copy, PartialEq, Eq, Structural)]
pub enum HotkeyError {
    EventTapCreation,
    EventTapEnable,
}

/// The caps-lock bit of an event's modifier flags.
pub const FLAG_ALPHA_SHIFT: u64 = 0x0001_0000;
/// The shift bit.
pub const FLAG_SHIFT: u64 = 0x0002_0000;
/// The control bit.
pub const FLAG_CONTROL: u64 = 0x0004_0000;
/// The option (Alt) bit.
pub const FLAG_ALTERNATE: u64 = 0x0008_0000;
/// The command (Meta) bit.
pub const FLAG_COMMAND: u64 = 0x0010_0000;

/// The virtual key code of an ordinary key (ANSI layout); modifiers have
/// none, they are seen through the flags.
pub open spec fn cg_keycode(k: KeyCode) -> Option<u16> {
    match k {
        KeyCode::F1 => Some(0x7Au16),
        KeyCode::F2 => Some(0x78u16),
        KeyCode::F3 => Some(0x63u16),
        KeyCode::F4 => Some(0x76u16),
        KeyCode::F5 => Some(0x60u16),
        KeyCode::F6 => Some(0x61u16),
        KeyCode::F7 => Some(0x62u16),
        KeyCode::F8 => Some(0x64u16),
        KeyCode::F9 => Some(0x65u16),
        KeyCode::F10 => Some(0x6Du16),
        KeyCode::F11 => Some(0x67u16),
        KeyCode::F12 => Some(0x6Fu16),
        KeyCode::KeyA => Some(0x00u16),
        KeyCode::KeyB => Some(0x0Bu16),
        KeyCode::KeyC => Some(0x08u16),
        KeyCode::KeyD => Some(0x02u16),
        KeyCode::KeyE => Some(0x0Eu16),
        KeyCode::KeyF => Some(0x03u16),
        KeyCode::KeyG => Some(0x05u16),
        KeyCode::KeyH => Some(0x04u16),
        KeyCode::KeyI => Some(0x22u16),
        KeyCode::KeyJ => Some(0x26u16),
        KeyCode::KeyK => Some(0x28u16),
        KeyCode::KeyL => Some(0x25u16),
        KeyCode::KeyM => Some(0x2Eu16),
        KeyCode::KeyN => Some(0x2Du16),
        KeyCode::KeyO => Some(0x1Fu16),
        KeyCode::KeyP => Some(0x23u16),
        KeyCode::KeyQ => Some(0x0Cu16),
        KeyCode::KeyR => Some(0x0Fu16),
        KeyCode::KeyS => Some(0x01u16),
        KeyCode::KeyT => Some(0x11u16),
        KeyCode::KeyU => Some(0x20u16),
        KeyCode::KeyV => Some(0x09u16),
        KeyCode::KeyW => Some(0x0Du16),
        KeyCode::KeyX => Some(0x07u16),
        KeyCode::KeyY => Some(0x10u16),
        KeyCode::KeyZ => Some(0x06u16),
        KeyCode::Digit0 => Some(0x1Du16),
        KeyCode::Digit1 => Some(0x12u16),
        KeyCode::Digit2 => Some(0x13u16),
        KeyCode::Digit3 => Some(0x14u16),
        KeyCode::Digit4 => Some(0x15u16),
        KeyCode::Digit5 => Some(0x17u16),
        KeyCode::Digit6 => Some(0x16u16),
        KeyCode::Digit7 => Some(0x1Au16),
        KeyCode::Digit8 => Some(0x1Cu16),
        KeyCode::Digit9 => Some(0x19u16),
        KeyCode::Space => Some(0x31u16),
        KeyCode::Tab => Some(0x30u16),
        KeyCode::CapsLock => Some(0x39u16),
        KeyCode::Escape => Some(0x35u16),
        KeyCode::Backquote => Some(0x32u16),
        KeyCode::Alt | KeyCode::Control | KeyCode::Shift | KeyCode::Meta => None,
    }
}

pub fn keycode_to_cg_keycode(key: &KeyCode) -> (r: Option<u16>)
    ensures
        r == cg_keycode(*key),
{
    match key {
        KeyCode::F1 => Some(0x7A),
        KeyCode::F2 => Some(0x78),
        KeyCode::F3 => Some(0x63),
        KeyCode::F4 => Some(0x76),
        KeyCode::F5 => Some(0x60),
        KeyCode::F6 => Some(0x61),
        KeyCode::F7 => Some(0x62),
        KeyCode::F8 => Some(0x64),
        KeyCode::F9 => Some(0x65),
        KeyCode::F10 => Some(0x6D),
        KeyCode::F11 => Some(0x67),
        KeyCode::F12 => Some(0x6F),
        KeyCode::KeyA => Some(0x00),
        KeyCode::KeyB => Some(0x0B),
        KeyCode::KeyC => Some(0x08),
        KeyCode::KeyD => Some(0x02),
        KeyCode::KeyE => Some(0x0E),
        KeyCode::KeyF => Some(0x03),
        KeyCode::KeyG => Some(0x05),
        KeyCode::KeyH => Some(0x04),
        KeyCode::KeyI => Some(0x22),
        KeyCode::KeyJ => Some(0x26),
        KeyCode::KeyK => Some(0x28),
        KeyCode::KeyL => Some(0x25),
        KeyCode::KeyM => Some(0x2E),
        KeyCode::KeyN => Some(0x2D),
        KeyCode::KeyO => Some(0x1F),
        KeyCode::KeyP => Some(0x23),
        KeyCode::KeyQ => Some(0x0C),
        KeyCode::KeyR => Some(0x0F),
        KeyCode::KeyS => Some(0x01),
        KeyCode::KeyT => Some(0x11),
        KeyCode::KeyU => Some(0x20),
        KeyCode::KeyV => Some(0x09),
        KeyCode::KeyW => Some(0x0D),
        KeyCode::KeyX => Some(0x07),
        KeyCode::KeyY => Some(0x10),
        KeyCode::KeyZ => Some(0x06),
        KeyCode::Digit0 => Some(0x1D),
        KeyCode::Digit1 => Some(0x12),
        KeyCode::Digit2 => Some(0x13),
        KeyCode::Digit3 => Some(0x14),
        KeyCode::Digit4 => Some(0x15),
        KeyCode::Digit5 => Some(0x17),
        KeyCode::Digit6 => Some(0x16),
        KeyCode::Digit7 => Some(0x1A),
        KeyCode::Digit8 => Some(0x1C),
        KeyCode::Digit9 => Some(0x19),
        KeyCode::Space => Some(0x31),
        KeyCode::Tab => Some(0x30),
        KeyCode::CapsLock => Some(0x39),
        KeyCode::Escape => Some(0x35),
        KeyCode::Backquote => Some(0x32),
        KeyCode::Alt | KeyCode::Control | KeyCode::Shift | KeyCode::Meta => None,
    }
}

/// The flag bit of a modifier key.
pub open spec fn cg_flag(k: KeyCode) -> Option<u64> {
    match k {
        KeyCode::Alt => Some(FLAG_ALTERNATE),
        KeyCode::Control => Some(FLAG_CONTROL),
        KeyCode::Shift => Some(FLAG_SHIFT),
        KeyCode::Meta => Some(FLAG_COMMAND),
        _ => None,
    }
}

pub fn keycode_to_cg_flag(key: &KeyCode) -> (r: Option<u64>)
    ensures
        r == cg_flag(*key),
{
    match key {
        KeyCode::Alt => Some(FLAG_ALTERNATE),
        KeyCode::Control => Some(FLAG_CONTROL),
        KeyCode::Shift => Some(FLAG_SHIFT),
        KeyCode::Meta => Some(FLAG_COMMAND),
        _ => None,
    }
}

pub open spec fn has_flag(flags: u64, f: u64) -> bool {
    flags & f == f
}

/// Whether every required modifier's flag is set; keys that have no flag
/// are not checked.
pub open spec fn modifiers_held(flags: u64, required: Seq<KeyCode>) -> bool {
    forall|i: int| 0 <= i < required.len() ==> (#[trigger] cg_flag(required[i]) matches Some(f) ==> has_flag(flags, f))
}

pub fn check_modifiers(flags: u64, required: &Vec<KeyCode>) -> (r: bool)
    ensures
        r == modifiers_held(flags, required@),
{
    let mut i: usize = 0;
    while i < required.len()
        invariant
            i <= required@.len(),
            modifiers_held(flags, required@.subrange(0, i as int)),
        decreases required@.len() - i,
    {
        if let Some(f) = keycode_to_cg_flag(&required[i]) {
            if flags & f != f {
                assert(!modifiers_held(flags, required@)) by {
                    assert(cg_flag(required@[i as int]) == Some(f));
                }
                return false;
            }
        }
        proof {
            assert forall|j: int| 0 <= j < i + 1 implies (#[trigger] cg_flag(required@.subrange(0, i + 1)[j]) matches Some(f) ==> has_flag(flags, f)) by {
                if j < i {
                    assert(required@.subrange(0, i + 1)[j] == required@.subrange(0, i as int)[j]);
                }
            }
        }
        i = i + 1;
    }
    proof {
        assert(required@.subrange(0, i as int) =~= required@);
    }
    true
}

/// An event delivered by the tap.
#[derive(Debug, Clone, Copy, PartialEq, Eq, Structural)]
pub enum TapEvent {
    FlagsChanged { flags: u64 },
    KeyDown { key_code: u16, flags: u64 },
    KeyUp { key_code: u16, flags: u64 },
}

/// The kinds of event a listener subscribes to.
#[derive(Debug, Clone, Copy, PartialEq, Eq, Structural)]
pub enum TapEventKind {
    FlagsChanged,
    KeyDown,
    KeyUp,
}

/// What an event says about a binding: `Some(held)` or nothing. A modifier
/// as primary key is judged from the flags alone; caps lock from its own
/// flag bit; any other key from key-down (with its modifiers held) and
/// key-up events with its code.
pub open spec fn tap_observation(b: HotkeyBinding, e: TapEvent) -> Option<bool> {
    match e {
        TapEvent::FlagsChanged { flags } => if is_modifier_key(b.key) {
            Some(has_flag(flags, cg_flag(b.key)->0) && modifiers_held(flags, b.modifiers@))
        } else if b.key == KeyCode::CapsLock {
            Some(has_flag(flags, FLAG_ALPHA_SHIFT) && modifiers_held(flags, b.modifiers@))
        } else {
            None
        },
        TapEvent::KeyDown { key_code, flags } => if !is_modifier_key(b.key) && cg_keycode(b.key)
            == Some(key_code) && modifiers_held(flags, b.modifiers@) {
            Some(true)
        } else {
            None
        },
        TapEvent::KeyUp { key_code, flags: _ } => if !is_modifier_key(b.key) && cg_keycode(b.key)
            == Some(key_code) {
            Some(false)
        } else {
            None
        },
    }
}

/// Judges one tap event against a binding.
pub fn observe_event(binding: &HotkeyBinding, event: TapEvent) -> (r: Option<bool>)
    ensures
        r == tap_observation(*binding, event),
{
    let is_mod = binding.key.is_modifier();
    match event {
        TapEvent::FlagsChanged { flags } => {
            if is_mod {
                match keycode_to_cg_flag(&binding.key) {
                    Some(f) => Some(flags & f == f && check_modifiers(flags, &binding.modifiers)),
                    None => Some(false),
                }
            } else if binding.key == KeyCode::CapsLock {
                Some(flags & FLAG_ALPHA_SHIFT == FLAG_ALPHA_SHIFT && check_modifiers(flags, &binding.modifiers))
            } else {
                None
            }
        },
        TapEvent::KeyDown { key_code, flags } => {
            if is_mod {
                return None;
            }
            match keycode_to_cg_keycode(&binding.key) {
                Some(expected) => {
                    if expected == key_code && check_modifiers(flags, &binding.modifiers) {
                        Some(true)
                    } else {
                        None
                    }
                },
                None => None,
            }
        },
        TapEvent::KeyUp { key_code, flags: _ } => {
            if is_mod {
                return None;
            }
            match keycode_to_cg_keycode(&binding.key) {
                Some(expected) => {
                    if expected == key_code {
                        Some(false)
                    } else {
                        None
                    }
                },
                None => None,
            }
        },
    }
}

/// The event kinds a listener for `b` subscribes to: flag changes alone for
/// a modifier or caps lock, else key-down and key-up as well.
pub open spec fn subscription(b: HotkeyBinding) -> Seq<TapEventKind> {
    if is_modifier_key(b.key) || b.key == KeyCode::CapsLock {
        seq![TapEventKind::FlagsChanged]
    } else {
        seq![TapEventKind::FlagsChanged, TapEventKind::KeyDown, TapEventKind::KeyUp]
    }
}

pub fn subscribed_events(binding: &HotkeyBinding) -> (r: Vec<TapEventKind>)
    ensures
        r@ == subscription(*binding),
{
    let mut v: Vec<TapEventKind> = Vec::new();
    v.push(TapEventKind::FlagsChanged);
    if !(binding.key.is_modifier() || binding.key == KeyCode::CapsLock) {
        v.push(TapEventKind::KeyDown);
        v.push(TapEventKind::KeyUp);
    }
    proof {
        assert(v@ =~= subscription(*binding));
    }
    v
}

} // verus!
