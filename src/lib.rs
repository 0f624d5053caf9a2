//! Core of a push-to-talk dictation tool: configuration model, speech
//! recognition session protocols, the processing pipeline and the hotkey
//! edge detector.
pub mod text;
pub mod config;
pub mod asr;
pub mod dashscope;
pub mod qwen;
pub mod funasr;
pub mod pipeline;
pub mod hotkey;
pub mod tray;
