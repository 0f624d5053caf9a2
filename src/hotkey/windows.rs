//! Key matching for a listener that polls the state of virtual keys.
use vstd::prelude::*;
use crate::config::{HotkeyBinding, KeyCode};

verus! {

#[derive(Debug, Clone)]
pub enum HotkeyError {
    Start(String),
}

/// The virtual-key code of a key.
pub open spec fn vk_of(k: KeyCode) -> u16 {
    match k {
        KeyCode::Alt => 0x12u16,
        KeyCode::Control => 0x11u16,
        KeyCode::Shift => 0x10u16,
        KeyCode::Meta => 0x5Bu16,
        KeyCode::F1 => 0x70u16,
        KeyCode::F2 => 0x71u16,
        KeyCode::F3 => 0x72u16,
        KeyCode::F4 => 0x73u16,
        KeyCode::F5 => 0x74u16,
        KeyCode::F6 => 0x75u16,
        KeyCode::F7 => 0x76u16,
        KeyCode::F8 => 0x77u16,
        KeyCode::F9 => 0x78u16,
        KeyCode::F10 => 0x79u16,
        KeyCode::F11 => 0x7Au16,
        KeyCode::F12 => 0x7Bu16,
        KeyCode::KeyA => 0x41u16,
        KeyCode::KeyB => 0x42u16,
        KeyCode::KeyC => 0x43u16,
        KeyCode::KeyD => 0x44u16,
        KeyCode::KeyE => 0x45u16,
        KeyCode::KeyF => 0x46u16,
        KeyCode::KeyG => 0x47u16,
        KeyCode::KeyH => 0x48u16,
        KeyCode::KeyI => 0x49u16,
        KeyCode::KeyJ => 0x4Au16,
        KeyCode::KeyK => 0x4Bu16,
        KeyCode::KeyL => 0x4Cu16,
        KeyCode::KeyM => 0x4Du16,
        KeyCode::KeyN => 0x4Eu16,
        KeyCode::KeyO => 0x4Fu16,
        KeyCode::KeyP => 0x50u16,
        KeyCode::KeyQ => 0x51u16,
        KeyCode::KeyR => 0x52u16,
        KeyCode::KeyS => 0x53u16,
        KeyCode::KeyT => 0x54u16,
        KeyCode::KeyU => 0x55u16,
        KeyCode::KeyV => 0x56u16,
        KeyCode::KeyW => 0x57u16,
        KeyCode::KeyX => 0x58u16,
        KeyCode::KeyY => 0x59u16,
        KeyCode::KeyZ => 0x5Au16,
        KeyCode::Digit0 => 0x30u16,
        KeyCode::Digit1 => 0x31u16,
        KeyCode::Digit2 => 0x32u16,
        KeyCode::Digit3 => 0x33u16,
        KeyCode::Digit4 => 0x34u16,
        KeyCode::Digit5 => 0x35u16,
        KeyCode::Digit6 => 0x36u16,
        KeyCode::Digit7 => 0x37u16,
        KeyCode::Digit8 => 0x38u16,
        KeyCode::Digit9 => 0x39u16,
        KeyCode::Space => 0x20u16,
        KeyCode::Tab => 0x09u16,
        KeyCode::CapsLock => 0x14u16,
        KeyCode::Escape => 0x1Bu16,
        KeyCode::Backquote => 0xC0u16,
    }
}

pub fn keycode_to_vk(key: &KeyCode) -> (r: u16)
    ensures
        r == vk_of(*key),
{
    match key {
        KeyCode::Alt => 0x12,
        KeyCode::Control => 0x11,
        KeyCode::Shift => 0x10,
        KeyCode::Meta => 0x5B,
        KeyCode::F1 => 0x70,
        KeyCode::F2 => 0x71,
        KeyCode::F3 => 0x72,
        KeyCode::F4 => 0x73,
        KeyCode::F5 => 0x74,
        KeyCode::F6 => 0x75,
        KeyCode::F7 => 0x76,
        KeyCode::F8 => 0x77,
        KeyCode::F9 => 0x78,
        KeyCode::F10 => 0x79,
        KeyCode::F11 => 0x7A,
        KeyCode::F12 => 0x7B,
        KeyCode::KeyA => 0x41,
        KeyCode::KeyB => 0x42,
        KeyCode::KeyC => 0x43,
        KeyCode::KeyD => 0x44,
        KeyCode::KeyE => 0x45,
        KeyCode::KeyF => 0x46,
        KeyCode::KeyG => 0x47,
        KeyCode::KeyH => 0x48,
        KeyCode::KeyI => 0x49,
        KeyCode::KeyJ => 0x4A,
        KeyCode::KeyK => 0x4B,
        KeyCode::KeyL => 0x4C,
        KeyCode::KeyM => 0x4D,
        KeyCode::KeyN => 0x4E,
        KeyCode::KeyO => 0x4F,
        KeyCode::KeyP => 0x50,
        KeyCode::KeyQ => 0x51,
        KeyCode::KeyR => 0x52,
        KeyCode::KeyS => 0x53,
        KeyCode::KeyT => 0x54,
        KeyCode::KeyU => 0x55,
        KeyCode::KeyV => 0x56,
        KeyCode::KeyW => 0x57,
        KeyCode::KeyX => 0x58,
        KeyCode::KeyY => 0x59,
        KeyCode::KeyZ => 0x5A,
        KeyCode::Digit0 => 0x30,
        KeyCode::Digit1 => 0x31,
        KeyCode::Digit2 => 0x32,
        KeyCode::Digit3 => 0x33,
        KeyCode::Digit4 => 0x34,
        KeyCode::Digit5 => 0x35,
        KeyCode::Digit6 => 0x36,
        KeyCode::Digit7 => 0x37,
        KeyCode::Digit8 => 0x38,
        KeyCode::Digit9 => 0x39,
        KeyCode::Space => 0x20,
        KeyCode::Tab => 0x09,
        KeyCode::CapsLock => 0x14,
        KeyCode::Escape => 0x1B,
        KeyCode::Backquote => 0xC0,
    }
}

/// Whether `vk` is among the keys found down.
pub fn is_key_down(down: &Vec<u16>, vk: u16) -> (r: bool)
    ensures
        r == down@.contains(vk),
{
    let mut i: usize = 0;
    while i < down.len()
        invariant
            i <= down@.len(),
            forall|j: int| 0 <= j < i ==> down@[j] != vk,
        decreases down@.len() - i,
    {
        if down[i] == vk {
            return true;
        }
        i = i + 1;
    }
    false
}

/// Whether every modifier is among the keys found down.
pub open spec fn all_down(modifiers: Seq<KeyCode>, down: Seq<u16>) -> bool {
    forall|i: int| 0 <= i < modifiers.len() ==> down.contains(vk_of(#[trigger] modifiers[i]))
}

pub fn check_modifiers(modifiers: &Vec<KeyCode>, down: &Vec<u16>) -> (r: bool)
    ensures
        r == all_down(modifiers@, down@),
{
    let mut i: usize = 0;
    while i < modifiers.len()
        invariant
            i <= modifiers@.len(),
            forall|j: int| 0 <= j < i ==> down@.contains(vk_of(#[trigger] modifiers@[j])),
        decreases modifiers@.len() - i,
    {
        if !is_key_down(down, keycode_to_vk(&modifiers[i])) {
            return false;
        }
        i = i + 1;
    }
    true
}

/// The virtual keys to poll for a binding: the primary key, then each modifier.
pub open spec fn polled_keys(b: HotkeyBinding) -> Seq<u16> {
    seq![vk_of(b.key)] + b.modifiers@.map_values(|k: KeyCode| vk_of(k))
}

pub fn binding_keys(binding: &HotkeyBinding) -> (r: Vec<u16>)
    ensures
        r@ == polled_keys(*binding),
{
    let mut v: Vec<u16> = Vec::new();
    v.push(keycode_to_vk(&binding.key));
    let mut i: usize = 0;
    while i < binding.modifiers.len()
        invariant
            i <= binding.modifiers@.len(),
            v@ == seq![vk_of(binding.key)] + binding.modifiers@.subrange(0, i as int).map_values(
                |k: KeyCode| vk_of(k),
            ),
        decreases binding.modifiers@.len() - i,
    {
        v.push(keycode_to_vk(&binding.modifiers[i]));
        proof {
            assert(v@ =~= seq![vk_of(binding.key)] + binding.modifiers@.subrange(0, i + 1).map_values(
                |k: KeyCode| vk_of(k),
            ));
        }
        i = i + 1;
    }
    proof {
        assert(binding.modifiers@.subrange(0, i as int) =~= binding.modifiers@);
    }
    v
}

/// Whether a poll that found `down` pressed satisfies the binding: the
/// primary key and every modifier are down.
pub open spec fn binding_active(b: HotkeyBinding, down: Seq<u16>) -> bool {
    down.contains(vk_of(b.key)) && all_down(b.modifiers@, down)
}

pub fn hotkey_active(binding: &HotkeyBinding, down: &Vec<u16>) -> (r: bool)
    ensures
        r == binding_active(*binding, down@),
{
    is_key_down(down, keycode_to_vk(&binding.key)) && check_modifiers(&binding.modifiers, down)
}

} // verus!
