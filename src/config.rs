//! The configuration model: key codes, hotkey bindings and the settings
//! consumed by recognition, refinement and output.
use vstd::prelude::*;
use crate::text::text_eq;

verus! {

/// A key that can take part in a hotkey binding.
#[derive(Debug, Clone, Copy, PartialEq, Eq, Structural)]
pub enum KeyCode {
    Alt,
    Control,
    Shift,
    Meta,
    F1,
    F2,
    F3,
    F4,
    F5,
    F6,
    F7,
    F8,
    F9,
    F10,
    F11,
    F12,
    KeyA,
    KeyB,
    KeyC,
    KeyD,
    KeyE,
    KeyF,
    KeyG,
    KeyH,
    KeyI,
    KeyJ,
    KeyK,
    KeyL,
    KeyM,
    KeyN,
    KeyO,
    KeyP,
    KeyQ,
    KeyR,
    KeyS,
    KeyT,
    KeyU,
    KeyV,
    KeyW,
    KeyX,
    KeyY,
    KeyZ,
    Digit0,
    Digit1,
    Digit2,
    Digit3,
    Digit4,
    Digit5,
    Digit6,
    Digit7,
    Digit8,
    Digit9,
    Space,
    Tab,
    CapsLock,
    Escape,
    Backquote,
}

/// Whether a key is one of the four modifier keys.
pub open spec fn is_modifier_key(k: KeyCode) -> bool {
    k == KeyCode::Alt || k == KeyCode::Control || k == KeyCode::Shift || k == KeyCode::Meta
}

/// The label under which a key is shown to the user.
pub open spec fn key_label(k: KeyCode) -> Seq<char> {
    match k {
        KeyCode::Alt => "Alt"@,
        KeyCode::Control => "Control"@,
        KeyCode::Shift => "Shift"@,
        KeyCode::Meta => "Meta"@,
        KeyCode::F1 => "F1"@,
        KeyCode::F2 => "F2"@,
        KeyCode::F3 => "F3"@,
        KeyCode::F4 => "F4"@,
        KeyCode::F5 => "F5"@,
        KeyCode::F6 => "F6"@,
        KeyCode::F7 => "F7"@,
        KeyCode::F8 => "F8"@,
        KeyCode::F9 => "F9"@,
        KeyCode::F10 => "F10"@,
        KeyCode::F11 => "F11"@,
        KeyCode::F12 => "F12"@,
        KeyCode::KeyA => "A"@,
        KeyCode::KeyB => "B"@,
        KeyCode::KeyC => "C"@,
        KeyCode::KeyD => "D"@,
        KeyCode::KeyE => "E"@,
        KeyCode::KeyF => "F"@,
        KeyCode::KeyG => "G"@,
        KeyCode::KeyH => "H"@,
        KeyCode::KeyI => "I"@,
        KeyCode::KeyJ => "J"@,
        KeyCode::KeyK => "K"@,
        KeyCode::KeyL => "L"@,
        KeyCode::KeyM => "M"@,
        KeyCode::KeyN => "N"@,
        KeyCode::KeyO => "O"@,
        KeyCode::KeyP => "P"@,
        KeyCode::KeyQ => "Q"@,
        KeyCode::KeyR => "R"@,
        KeyCode::KeyS => "S"@,
        KeyCode::KeyT => "T"@,
        KeyCode::KeyU => "U"@,
        KeyCode::KeyV => "V"@,
        KeyCode::KeyW => "W"@,
        KeyCode::KeyX => "X"@,
        KeyCode::KeyY => "Y"@,
        KeyCode::KeyZ => "Z"@,
        KeyCode::Digit0 => "0"@,
        KeyCode::Digit1 => "1"@,
        KeyCode::Digit2 => "2"@,
        KeyCode::Digit3 => "3"@,
        KeyCode::Digit4 => "4"@,
        KeyCode::Digit5 => "5"@,
        KeyCode::Digit6 => "6"@,
        KeyCode::Digit7 => "7"@,
        KeyCode::Digit8 => "8"@,
        KeyCode::Digit9 => "9"@,
        KeyCode::Space => "Space"@,
        KeyCode::Tab => "Tab"@,
        KeyCode::CapsLock => "CapsLock"@,
        KeyCode::Escape => "Escape"@,
        KeyCode::Backquote => "`"@,
    }
}

impl Default for KeyCode {
    fn default() -> (r: KeyCode)
        ensures
            r == KeyCode::Alt,
    {
        KeyCode::Alt
    }
}

impl KeyCode {
    /// Whether this key is a modifier (Alt, Control, Shift or Meta).
    pub fn is_modifier(&self) -> (r: bool)
        ensures
            r == is_modifier_key(*self),
    {
        match self {
            KeyCode::Alt | KeyCode::Control | KeyCode::Shift | KeyCode::Meta => true,
            _ => false,
        }
    }

    /// The label shown for this key.
    pub fn display_name(&self) -> (r: &'static str)
        ensures
            r@ == key_label(*self),
    {
        match self {
            KeyCode::Alt => "Alt",
            KeyCode::Control => "Control",
            KeyCode::Shift => "Shift",
            KeyCode::Meta => "Meta",
            KeyCode::F1 => "F1",
            KeyCode::F2 => "F2",
            KeyCode::F3 => "F3",
            KeyCode::F4 => "F4",
            KeyCode::F5 => "F5",
            KeyCode::F6 => "F6",
            KeyCode::F7 => "F7",
            KeyCode::F8 => "F8",
            KeyCode::F9 => "F9",
            KeyCode::F10 => "F10",
            KeyCode::F11 => "F11",
            KeyCode::F12 => "F12",
            KeyCode::KeyA => "A",
            KeyCode::KeyB => "B",
            KeyCode::KeyC => "C",
            KeyCode::KeyD => "D",
            KeyCode::KeyE => "E",
            KeyCode::KeyF => "F",
            KeyCode::KeyG => "G",
            KeyCode::KeyH => "H",
            KeyCode::KeyI => "I",
            KeyCode::KeyJ => "J",
            KeyCode::KeyK => "K",
            KeyCode::KeyL => "L",
            KeyCode::KeyM => "M",
            KeyCode::KeyN => "N",
            KeyCode::KeyO => "O",
            KeyCode::KeyP => "P",
            KeyCode::KeyQ => "Q",
            KeyCode::KeyR => "R",
            KeyCode::KeyS => "S",
            KeyCode::KeyT => "T",
            KeyCode::KeyU => "U",
            KeyCode::KeyV => "V",
            KeyCode::KeyW => "W",
            KeyCode::KeyX => "X",
            KeyCode::KeyY => "Y",
            KeyCode::KeyZ => "Z",
            KeyCode::Digit0 => "0",
            KeyCode::Digit1 => "1",
            KeyCode::Digit2 => "2",
            KeyCode::Digit3 => "3",
            KeyCode::Digit4 => "4",
            KeyCode::Digit5 => "5",
            KeyCode::Digit6 => "6",
            KeyCode::Digit7 => "7",
            KeyCode::Digit8 => "8",
            KeyCode::Digit9 => "9",
            KeyCode::Space => "Space",
            KeyCode::Tab => "Tab",
            KeyCode::CapsLock => "CapsLock",
            KeyCode::Escape => "Escape",
            KeyCode::Backquote => "`",
        }
    }
}

/// A hotkey: the primary key whose press and release gate recording, and
/// the modifiers that must be held with it.
#[derive(Debug, Clone)]
pub struct HotkeyBinding {
    pub key: KeyCode,
    pub modifiers: Vec<KeyCode>,
}

/// The text of a list of modifiers, each followed by the separator.
pub open spec fn modifiers_text(mods: Seq<KeyCode>) -> Seq<char>
    decreases mods.len(),
{
    if mods.len() == 0 {
        Seq::empty()
    } else {
        modifiers_text(mods.drop_last()) + key_label(mods.last()) + " + "@
    }
}

/// The labels of the modifiers and then of the primary key, joined by " + ".
pub open spec fn binding_text(key: KeyCode, mods: Seq<KeyCode>) -> Seq<char> {
    modifiers_text(mods) + key_label(key)
}

impl Default for HotkeyBinding {
    fn default() -> (r: HotkeyBinding)
        ensures
            r.key == KeyCode::Alt,
            r.modifiers@.len() == 0,
    {
        HotkeyBinding { key: KeyCode::Alt, modifiers: Vec::new() }
    }
}

impl HotkeyBinding {
    /// The binding as shown to the user, for example "Control + Shift + A".
    pub fn display_text(&self) -> (r: String)
        ensures
            r@ == binding_text(self.key, self.modifiers@),
    {
        let mut out = String::new();
        let mut i: usize = 0;
        while i < self.modifiers.len()
            invariant
                i <= self.modifiers@.len(),
                out@ == modifiers_text(self.modifiers@.subrange(0, i as int)),
            decreases self.modifiers@.len() - i,
        {
            let m = self.modifiers[i];
            out.append(m.display_name());
            out.append(" + ");
            proof {
                let next = self.modifiers@.subrange(0, i + 1);
                assert(next.drop_last() =~= self.modifiers@.subrange(0, i as int));
            }
            i = i + 1;
        }
        proof {
            assert(self.modifiers@.subrange(0, i as int) =~= self.modifiers@);
        }
        out.append(self.key.display_name());
        out
    }

    /// A copy of this binding with the same key and modifiers.
    pub fn duplicate(&self) -> (r: HotkeyBinding)
        ensures
            r.key == self.key,
            r.modifiers@ == self.modifiers@,
    {
        let mut mods: Vec<KeyCode> = Vec::new();
        let mut i: usize = 0;
        while i < self.modifiers.len()
            invariant
                i <= self.modifiers@.len(),
                mods@ == self.modifiers@.subrange(0, i as int),
            decreases self.modifiers@.len() - i,
        {
            mods.push(self.modifiers[i]);
            proof {
                assert(mods@ =~= self.modifiers@.subrange(0, i + 1));
            }
            i = i + 1;
        }
        proof {
            assert(mods@ =~= self.modifiers@);
        }
        HotkeyBinding { key: self.key, modifiers: mods }
    }
}

impl PartialEq for HotkeyBinding {
    fn eq(&self, other: &HotkeyBinding) -> (r: bool)
        ensures
            r == (self.key == other.key && self.modifiers@ == other.modifiers@),
    {
        if self.key != other.key || self.modifiers.len() != other.modifiers.len() {
            return false;
        }
        let mut i: usize = 0;
        while i < self.modifiers.len()
            invariant
                i <= self.modifiers@.len(),
                self.modifiers@.len() == other.modifiers@.len(),
                forall|j: int| 0 <= j < i ==> self.modifiers@[j] == other.modifiers@[j],
            decreases self.modifiers@.len() - i,
        {
            if self.modifiers[i] != other.modifiers[i] {
                return false;
            }
            i = i + 1;
        }
        proof {
            assert(self.modifiers@ =~= other.modifiers@);
        }
        true
    }
}

impl vstd::std_specs::cmp::PartialEqSpecImpl for HotkeyBinding {
    open spec fn obeys_eq_spec() -> bool {
        true
    }

    open spec fn eq_spec(&self, other: &HotkeyBinding) -> bool {
        self.key == other.key && self.modifiers@ == other.modifiers@
    }
}

impl Eq for HotkeyBinding {

}

/// The primary key that a legacy single-key setting stands for: Alt or
/// Control by name, anything else falls back to Alt.
pub open spec fn legacy_key(name: Seq<char>) -> KeyCode {
    if name == "Control"@ {
        KeyCode::Control
    } else {
        KeyCode::Alt
    }
}

/// The whole application configuration.
#[derive(Debug, Clone)]
pub struct AppConfig {
    pub hotkey: HotkeyConfig,
    pub asr: AsrConfig,
    pub llm: LlmConfig,
    pub output: OutputConfig,
}

impl Default for AppConfig {
    fn default() -> (r: AppConfig)
        ensures
            r.hotkey.binding.key == KeyCode::Alt,
            r.hotkey.binding.modifiers@.len() == 0,
            r.hotkey.trigger_key is None,
            r.hotkey.enabled,
            r.asr.provider@ == "Qwen"@,
            r.asr.dashscope is None,
            r.asr.qwen is None,
            r.asr.openai is None,
            r.asr.funasr is None,
            r.llm.enabled,
            r.llm.provider@ == "DashScope"@,
            r.llm.dashscope is None,
            r.llm.openai is None,
            r.llm.ollama is None,
            r.output.restore_clipboard,
            r.output.paste_delay_ms == 50,
    {
        AppConfig {
            hotkey: HotkeyConfig::default(),
            asr: AsrConfig::default(),
            llm: LlmConfig::default(),
            output: OutputConfig::default(),
        }
    }
}

/// Hotkey settings; `trigger_key` is the single-key setting of older
/// configurations, kept until it is migrated.
#[derive(Debug, Clone)]
pub struct HotkeyConfig {
    pub binding: HotkeyBinding,
    pub trigger_key: Option<String>,
    pub enabled: bool,
}

pub fn default_true() -> (r: bool)
    ensures
        r,
{
    true
}

impl Default for HotkeyConfig {
    fn default() -> (r: HotkeyConfig)
        ensures
            r.binding.key == KeyCode::Alt,
            r.binding.modifiers@.len() == 0,
            r.trigger_key is None,
            r.enabled,
    {
        HotkeyConfig { binding: HotkeyBinding::default(), trigger_key: None, enabled: true }
    }
}

impl HotkeyConfig {
    /// Replaces a legacy single-key setting by the binding it stands for.
    pub fn migrate(&mut self)
        ensures
            match old(self).trigger_key {
                Some(name) => {
                    &&& final(self).binding.key == legacy_key(name@)
                    &&& final(self).binding.modifiers@.len() == 0
                    &&& final(self).trigger_key is None
                    &&& final(self).enabled == old(self).enabled
                },
                None => *final(self) == *old(self),
            },
    {
        proof {
            reveal_strlit("Alt");
            reveal_strlit("Control");
            assert("Alt"@.len() != "Control"@.len());
        }
        let key = match &self.trigger_key {
            Some(name) => {
                if text_eq(name.as_str(), "Alt") {
                    Some(KeyCode::Alt)
                } else if text_eq(name.as_str(), "Control") {
                    Some(KeyCode::Control)
                } else {
                    Some(HotkeyBinding::default().key)
                }
            },
            None => None,
        };
        if let Some(k) = key {
            self.binding = HotkeyBinding { key: k, modifiers: Vec::new() };
            self.trigger_key = None;
        }
    }
}

/// Speech recognition settings: the selected provider and each provider's
/// credentials.
#[derive(Debug, Clone)]
pub struct AsrConfig {
    pub provider: String,
    pub dashscope: Option<DashScopeAsrConfig>,
    pub qwen: Option<QwenAsrConfig>,
    pub openai: Option<OpenAiAsrConfig>,
    pub funasr: Option<FunAsrConfig>,
}

pub fn default_asr_provider() -> (r: String)
    ensures
        r@ == "Qwen"@,
{
    String::from_str("Qwen")
}

impl Default for AsrConfig {
    fn default() -> (r: AsrConfig)
        ensures
            r.provider@ == "Qwen"@,
            r.dashscope is None,
            r.qwen is None,
            r.openai is None,
            r.funasr is None,
    {
        AsrConfig { provider: default_asr_provider(), dashscope: None, qwen: None, openai: None, funasr: None }
    }
}

#[derive(Debug, Clone)]
pub struct DashScopeAsrConfig {
    pub api_key: String,
    pub model: String,
}

pub fn default_dashscope_model() -> (r: String)
    ensures
        r@ == "paraformer-realtime-v2"@,
{
    String::from_str("paraformer-realtime-v2")
}

#[derive(Debug, Clone)]
pub struct QwenAsrConfig {
    pub api_key: String,
    pub model: String,
}

pub fn default_qwen_asr_model() -> (r: String)
    ensures
        r@ == "qwen3-asr-flash-realtime"@,
{
    String::from_str("qwen3-asr-flash-realtime")
}

#[derive(Debug, Clone)]
pub struct OpenAiAsrConfig {
    pub api_key: String,
    pub model: String,
    pub language: String,
}

pub fn default_whisper_model() -> (r: String)
    ensures
        r@ == "whisper-1"@,
{
    String::from_str("whisper-1")
}

pub fn default_language() -> (r: String)
    ensures
        r@ == "zh"@,
{
    String::from_str("zh")
}

#[derive(Debug, Clone)]
pub struct FunAsrConfig {
    pub endpoint: String,
}

pub fn default_funasr_endpoint() -> (r: String)
    ensures
        r@ == "http://localhost:10096"@,
{
    String::from_str("http://localhost:10096")
}

/// Text refinement settings.
#[derive(Debug, Clone)]
pub struct LlmConfig {
    pub enabled: bool,
    pub provider: String,
    pub dashscope: Option<DashScopeLlmConfig>,
    pub openai: Option<OpenAiLlmConfig>,
    pub ollama: Option<OllamaConfig>,
}

pub fn default_llm_provider() -> (r: String)
    ensures
        r@ == "DashScope"@,
{
    String::from_str("DashScope")
}

impl Default for LlmConfig {
    fn default() -> (r: LlmConfig)
        ensures
            r.enabled,
            r.provider@ == "DashScope"@,
            r.dashscope is None,
            r.openai is None,
            r.ollama is None,
    {
        LlmConfig { enabled: true, provider: default_llm_provider(), dashscope: None, openai: None, ollama: None }
    }
}

#[derive(Debug, Clone)]
pub struct DashScopeLlmConfig {
    pub api_key: String,
    pub model: String,
}

pub fn default_qwen_model() -> (r: String)
    ensures
        r@ == "qwen-plus"@,
{
    String::from_str("qwen-plus")
}

/// OpenAI chat settings; the sampling temperature is held in hundredths.
#[derive(Debug, Clone)]
pub struct OpenAiLlmConfig {
    pub api_key: String,
    pub model: String,
    pub temperature_hundredths: u32,
    pub max_tokens: u32,
}

pub fn default_gpt_model() -> (r: String)
    ensures
        r@ == "gpt-4o-mini"@,
{
    String::from_str("gpt-4o-mini")
}

/// The default temperature, 0.3, in hundredths.
pub fn default_temperature() -> (r: u32)
    ensures
        r == 30,
{
    30
}

pub fn default_max_tokens() -> (r: u32)
    ensures
        r == 2000,
{
    2000
}

#[derive(Debug, Clone)]
pub struct OllamaConfig {
    pub endpoint: String,
    pub model: String,
}

pub fn default_ollama_endpoint() -> (r: String)
    ensures
        r@ == "http://localhost:11434"@,
{
    String::from_str("http://localhost:11434")
}

pub fn default_ollama_model() -> (r: String)
    ensures
        r@ == "qwen3:8b"@,
{
    String::from_str("qwen3:8b")
}

/// How recognized text is delivered.
#[derive(Debug, Clone)]
pub struct OutputConfig {
    pub restore_clipboard: bool,
    pub paste_delay_ms: u64,
}

pub fn default_paste_delay() -> (r: u64)
    ensures
        r == 50,
{
    50
}

impl Default for OutputConfig {
    fn default() -> (r: OutputConfig)
        ensures
            r.restore_clipboard,
            r.paste_delay_ms == 50,
    {
        OutputConfig { restore_clipboard: true, paste_delay_ms: default_paste_delay() }
    }
}

} // verus!
