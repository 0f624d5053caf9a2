use vhisper_core::config::{HotkeyBinding, KeyCode};
use vhisper_core::hotkey::macos::{
    check_modifiers as flags_hold, keycode_to_cg_flag, keycode_to_cg_keycode, observe_event,
    subscribed_events, TapEvent, TapEventKind, FLAG_ALPHA_SHIFT, FLAG_ALTERNATE, FLAG_COMMAND,
    FLAG_CONTROL, FLAG_SHIFT,
};
use vhisper_core::hotkey::windows::{binding_keys, check_modifiers, hotkey_active, keycode_to_vk};
use vhisper_core::hotkey::{EdgeAction, EdgeDetector};
use vhisper_core::tray::{load_icon_from_png, rgb_to_rgba};

#[test]
fn mac_key_codes() {
    assert_eq!(keycode_to_cg_keycode(&KeyCode::KeyA), Some(0x00));
    assert_eq!(keycode_to_cg_keycode(&KeyCode::F1), Some(0x7A));
    assert_eq!(keycode_to_cg_keycode(&KeyCode::Space), Some(0x31));
    assert_eq!(keycode_to_cg_keycode(&KeyCode::Alt), None);
    assert_eq!(keycode_to_cg_flag(&KeyCode::Meta), Some(FLAG_COMMAND));
    assert_eq!(keycode_to_cg_flag(&KeyCode::F2), None);
}

#[test]
fn mac_modifier_flags() {
    let mods = vec![KeyCode::Control, KeyCode::Shift];
    assert!(flags_hold(FLAG_CONTROL | FLAG_SHIFT | 0x100, &mods));
    assert!(!flags_hold(FLAG_CONTROL, &mods));
    assert!(flags_hold(0, &vec![]));
}

#[test]
fn mac_modifier_primary_uses_flags() {
    let b = HotkeyBinding { key: KeyCode::Alt, modifiers: vec![] };
    assert_eq!(observe_event(&b, TapEvent::FlagsChanged { flags: FLAG_ALTERNATE }), Some(true));
    assert_eq!(observe_event(&b, TapEvent::FlagsChanged { flags: 0 }), Some(false));
    assert_eq!(observe_event(&b, TapEvent::KeyDown { key_code: 0, flags: FLAG_ALTERNATE }), None);
    assert_eq!(subscribed_events(&b), vec![TapEventKind::FlagsChanged]);
}

#[test]
fn mac_ordinary_primary_uses_key_events() {
    let b = HotkeyBinding { key: KeyCode::KeyA, modifiers: vec![KeyCode::Control] };
    assert_eq!(observe_event(&b, TapEvent::KeyDown { key_code: 0x00, flags: FLAG_CONTROL }), Some(true));
    assert_eq!(observe_event(&b, TapEvent::KeyDown { key_code: 0x00, flags: 0 }), None);
    assert_eq!(observe_event(&b, TapEvent::KeyDown { key_code: 0x01, flags: FLAG_CONTROL }), None);
    assert_eq!(observe_event(&b, TapEvent::KeyUp { key_code: 0x00, flags: 0 }), Some(false));
    assert_eq!(observe_event(&b, TapEvent::FlagsChanged { flags: 0 }), None);
    assert_eq!(
        subscribed_events(&b),
        vec![TapEventKind::FlagsChanged, TapEventKind::KeyDown, TapEventKind::KeyUp]
    );
}

#[test]
fn mac_caps_lock_uses_its_flag() {
    let b = HotkeyBinding { key: KeyCode::CapsLock, modifiers: vec![] };
    assert_eq!(observe_event(&b, TapEvent::FlagsChanged { flags: FLAG_ALPHA_SHIFT }), Some(true));
    assert_eq!(observe_event(&b, TapEvent::FlagsChanged { flags: 0 }), Some(false));
    assert_eq!(subscribed_events(&b), vec![TapEventKind::FlagsChanged]);
}

#[test]
fn windows_virtual_keys() {
    assert_eq!(keycode_to_vk(&KeyCode::Alt), 0x12);
    assert_eq!(keycode_to_vk(&KeyCode::Meta), 0x5B);
    assert_eq!(keycode_to_vk(&KeyCode::F12), 0x7B);
    assert_eq!(keycode_to_vk(&KeyCode::KeyZ), 0x5A);
    assert_eq!(keycode_to_vk(&KeyCode::Digit0), 0x30);
    assert_eq!(keycode_to_vk(&KeyCode::Backquote), 0xC0);
}

#[test]
fn windows_binding_activity() {
    let b = HotkeyBinding { key: KeyCode::KeyR, modifiers: vec![KeyCode::Control, KeyCode::Shift] };
    assert_eq!(binding_keys(&b), vec![0x52, 0x11, 0x10]);
    assert!(hotkey_active(&b, &vec![0x10, 0x52, 0x11]));
    assert!(!hotkey_active(&b, &vec![0x52, 0x11]));
    assert!(check_modifiers(&vec![], &vec![]));
    assert!(!check_modifiers(&b.modifiers, &vec![0x11]));
}

#[test]
fn edge_detector_fires_once_per_press() {
    let mut d = EdgeDetector::new();
    assert_eq!(d.handle_key_state_change(true, Some(3)), EdgeAction::StartRecording);
    assert_eq!(d.handle_key_state_change(true, Some(4)), EdgeAction::Nothing);
    assert_eq!(d.handle_key_state_change(false, None), EdgeAction::StopRecording(Some(3)));
    assert_eq!(d.handle_key_state_change(false, None), EdgeAction::Nothing);
    assert_eq!(d.handle_key_state_change(true, None), EdgeAction::StartRecording);
    assert_eq!(d.handle_key_state_change(false, None), EdgeAction::StopRecording(None));
}

#[test]
fn rgb_pixels_gain_alpha() {
    assert_eq!(rgb_to_rgba(&vec![1, 2, 3, 4, 5, 6]), vec![1, 2, 3, 255, 4, 5, 6, 255]);
    assert_eq!(rgb_to_rgba(&vec![]), Vec::<u8>::new());
}

#[test]
fn png_icon_gains_alpha() {
    let mut file = Vec::new();
    {
        let mut enc = png::Encoder::new(&mut file, 2, 1);
        enc.set_color(png::ColorType::Rgb);
        enc.set_depth(png::BitDepth::Eight);
        let mut w = enc.write_header().unwrap();
        w.write_image_data(&[10, 20, 30, 40, 50, 60]).unwrap();
    }
    let (rgba, width, height) = load_icon_from_png(&file).unwrap();
    assert_eq!((width, height), (2, 1));
    assert_eq!(rgba, vec![10, 20, 30, 255, 40, 50, 60, 255]);
    assert!(load_icon_from_png(&[1, 2, 3]).is_err());
}
