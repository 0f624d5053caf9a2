use vhisper_core::config::{
    default_asr_provider, default_dashscope_model, default_funasr_endpoint, default_gpt_model,
    default_language, default_llm_provider, default_max_tokens, default_ollama_endpoint,
    default_ollama_model, default_paste_delay, default_qwen_asr_model, default_qwen_model,
    default_temperature, default_true, default_whisper_model, AppConfig, HotkeyBinding,
    HotkeyConfig, KeyCode,
};

#[test]
fn modifiers_are_recognized() {
    assert!(KeyCode::Alt.is_modifier());
    assert!(KeyCode::Control.is_modifier());
    assert!(KeyCode::Shift.is_modifier());
    assert!(KeyCode::Meta.is_modifier());
    assert!(!KeyCode::F1.is_modifier());
    assert!(!KeyCode::CapsLock.is_modifier());
    assert!(!KeyCode::KeyA.is_modifier());
}

#[test]
fn key_labels() {
    assert_eq!(KeyCode::Alt.display_name(), "Alt");
    assert_eq!(KeyCode::F12.display_name(), "F12");
    assert_eq!(KeyCode::KeyQ.display_name(), "Q");
    assert_eq!(KeyCode::Digit7.display_name(), "7");
    assert_eq!(KeyCode::Backquote.display_name(), "`");
    assert_eq!(KeyCode::CapsLock.display_name(), "CapsLock");
}

#[test]
fn binding_text_joins_modifiers_then_key() {
    let b = HotkeyBinding { key: KeyCode::KeyA, modifiers: vec![KeyCode::Control, KeyCode::Shift] };
    assert_eq!(b.display_text(), "Control + Shift + A");
    let alone = HotkeyBinding::default();
    assert_eq!(alone.display_text(), "Alt");
}

#[test]
fn duplicate_keeps_key_and_modifiers() {
    let b = HotkeyBinding { key: KeyCode::Space, modifiers: vec![KeyCode::Meta] };
    let c = b.duplicate();
    assert_eq!(c.key, KeyCode::Space);
    assert_eq!(c.modifiers, vec![KeyCode::Meta]);
}

#[test]
fn migrate_legacy_control() {
    let mut h = HotkeyConfig::default();
    h.binding = HotkeyBinding { key: KeyCode::F5, modifiers: vec![KeyCode::Shift] };
    h.trigger_key = Some("Control".to_string());
    h.migrate();
    assert_eq!(h.binding.key, KeyCode::Control);
    assert!(h.binding.modifiers.is_empty());
    assert!(h.trigger_key.is_none());
}

#[test]
fn migrate_legacy_alt_and_unknown() {
    let mut h = HotkeyConfig::default();
    h.binding = HotkeyBinding { key: KeyCode::F5, modifiers: vec![] };
    h.trigger_key = Some("Alt".to_string());
    h.migrate();
    assert_eq!(h.binding.key, KeyCode::Alt);

    let mut u = HotkeyConfig::default();
    u.binding = HotkeyBinding { key: KeyCode::F5, modifiers: vec![] };
    u.trigger_key = Some("Hyper".to_string());
    u.migrate();
    assert_eq!(u.binding.key, KeyCode::Alt);
    assert!(u.trigger_key.is_none());
}

#[test]
fn migrate_without_legacy_setting_changes_nothing() {
    let mut h = HotkeyConfig::default();
    h.binding = HotkeyBinding { key: KeyCode::F5, modifiers: vec![KeyCode::Shift] };
    h.migrate();
    assert_eq!(h.binding.key, KeyCode::F5);
    assert_eq!(h.binding.modifiers, vec![KeyCode::Shift]);
}

#[test]
fn defaults() {
    assert!(default_true());
    assert_eq!(default_asr_provider(), "Qwen");
    assert_eq!(default_dashscope_model(), "paraformer-realtime-v2");
    assert_eq!(default_qwen_asr_model(), "qwen3-asr-flash-realtime");
    assert_eq!(default_whisper_model(), "whisper-1");
    assert_eq!(default_language(), "zh");
    assert_eq!(default_funasr_endpoint(), "http://localhost:10096");
    assert_eq!(default_llm_provider(), "DashScope");
    assert_eq!(default_qwen_model(), "qwen-plus");
    assert_eq!(default_gpt_model(), "gpt-4o-mini");
    assert_eq!(default_temperature(), 30);
    assert_eq!(default_max_tokens(), 2000);
    assert_eq!(default_ollama_endpoint(), "http://localhost:11434");
    assert_eq!(default_ollama_model(), "qwen3:8b");
    assert_eq!(default_paste_delay(), 50);
    let c = AppConfig::default();
    assert_eq!(c.hotkey.binding.key, KeyCode::Alt);
    assert!(c.hotkey.enabled);
    assert_eq!(c.asr.provider, "Qwen");
    assert!(c.llm.enabled);
    assert!(c.output.restore_clipboard);
    assert_eq!(c.output.paste_delay_ms, 50);
}
