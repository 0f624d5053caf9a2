use vhisper_core::asr::{AsrError, AsrResult, Incoming, Step};
use vhisper_core::config::{AppConfig, KeyCode, HotkeyBinding, QwenAsrConfig};
use vhisper_core::hotkey::{reload_hotkey, EdgeAction, HotkeySupervisor};
use vhisper_core::pipeline::{
    amplitude_gate, encode_pcm, peak_amplitude, Gate, PipelineAction, PipelineError, ProcessRun,
    Stage, VoicePipeline,
};
use vhisper_core::qwen::{QwenEvent, QwenSession};

fn sine(freq: f64, amplitude: f64, rate: u32, seconds: f64) -> Vec<i16> {
    let n = (rate as f64 * seconds) as usize;
    (0..n)
        .map(|i| {
            let v = amplitude * (2.0 * std::f64::consts::PI * freq * i as f64 / rate as f64).sin();
            (v * 32767.0).round() as i16
        })
        .collect()
}

fn qwen_config(refine: bool) -> AppConfig {
    let mut c = AppConfig::default();
    c.asr.qwen = Some(QwenAsrConfig { api_key: "k".to_string(), model: "m".to_string() });
    c.llm.enabled = refine;
    c
}

fn mock_recognition() -> Result<AsrResult, AsrError> {
    let mut s = QwenSession::new();
    let ev = |t: &str, tr: Option<&str>| QwenEvent {
        event_type: t.to_string(),
        transcript: tr.map(|x| x.to_string()),
        error_message: None,
    };
    assert!(matches!(s.on_message(Incoming::Event(ev("session.created", None))), Step::Ready));
    match s.on_message(Incoming::Event(ev("conversation.item.input_audio_transcription.completed", Some("hello")))) {
        Step::Finished(r) => Ok(r),
        Step::Failed(e) => Err(e),
        other => panic!("unexpected {:?}", other),
    }
}

/// Drives a whole press/record/release cycle; returns the result and the
/// texts that were emitted.
fn press_and_release(config: AppConfig, refinement: Result<String, String>) -> (Result<String, PipelineError>, Vec<String>) {
    let mut sup = HotkeySupervisor::new(HotkeyBinding { key: KeyCode::Alt, modifiers: vec![] });
    let mut pipeline = VoicePipeline::new(config);
    assert_eq!(sup.observe(Some(true), Some(42)), EdgeAction::StartRecording);
    assert!(pipeline.start_recording());
    let samples = sine(440.0, 0.2, 16000, 1.0);
    let stop = sup.observe(Some(false), None);
    assert_eq!(stop, EdgeAction::StopRecording(Some(42)));
    let (mut run, mut action) = pipeline.stop_and_process(&samples, 16000, Some(42));
    assert!(!pipeline.recording());
    let mut emitted = Vec::new();
    let mut refinement = Some(refinement);
    loop {
        action = match action {
            PipelineAction::Recognize { audio, sample_rate, .. } => {
                assert_eq!(audio.len(), 32000);
                assert_eq!(sample_rate, 16000);
                run.on_recognized(mock_recognition())
            }
            PipelineAction::Refine(_) => run.on_refined(refinement.take().unwrap()),
            PipelineAction::Emit { text, origin_pid, .. } => {
                assert_eq!(origin_pid, Some(42));
                emitted.push(text);
                run.on_emitted(Ok(()))
            }
            PipelineAction::Complete(r) => return (r, emitted),
        }
    }
}

#[test]
fn silent_buffer_is_a_permission_error() {
    let c = qwen_config(false);
    let samples = vec![0i16, 10, -20, 32];
    assert_eq!(amplitude_gate(&samples), Gate::Silent);
    let (run, a) = ProcessRun::start(&c, &samples, 16000, None);
    assert_eq!(run.current_stage(), Stage::Done);
    match a {
        PipelineAction::Complete(Err(PipelineError::Other(m))) => {
            assert_eq!(m, "录音无声音，请检查麦克风权限是否已授予当前应用")
        }
        other => panic!("unexpected {:?}", other),
    }
}

#[test]
fn quiet_buffer_is_a_quiet_error() {
    let c = qwen_config(false);
    let samples = vec![33i16, -1600];
    assert_eq!(amplitude_gate(&samples), Gate::TooQuiet);
    let (_, a) = ProcessRun::start(&c, &samples, 16000, None);
    match a {
        PipelineAction::Complete(Err(PipelineError::Other(m))) => assert_eq!(m, "录音音量太低，请靠近麦克风或大声说话"),
        other => panic!("unexpected {:?}", other),
    }
}

#[test]
fn loud_buffer_goes_to_recognition() {
    let c = qwen_config(false);
    let samples = vec![0i16, -1639, 5];
    assert_eq!(peak_amplitude(&samples), 1639);
    assert_eq!(amplitude_gate(&samples), Gate::Speech);
    let (run, a) = ProcessRun::start(&c, &samples, 16000, None);
    assert_eq!(run.current_stage(), Stage::Recognizing);
    assert!(matches!(a, PipelineAction::Recognize { .. }));
    assert_eq!(peak_amplitude(&vec![i16::MIN]), 32768);
}

#[test]
fn empty_buffer_is_an_empty_result() {
    let c = qwen_config(true);
    let (run, a) = ProcessRun::start(&c, &Vec::new(), 16000, None);
    assert_eq!(run.current_stage(), Stage::Done);
    match a {
        PipelineAction::Complete(Ok(t)) => assert_eq!(t, ""),
        other => panic!("unexpected {:?}", other),
    }
}

#[test]
fn unconfigured_provider_fails_processing() {
    let c = AppConfig::default();
    let (_, a) = ProcessRun::start(&c, &vec![20000i16], 16000, None);
    assert!(matches!(a, PipelineAction::Complete(Err(PipelineError::Asr(AsrError::Config(_))))));
}

#[test]
fn pcm_is_little_endian() {
    assert_eq!(encode_pcm(&vec![1i16, -2, 0x1234]), vec![1, 0, 0xFE, 0xFF, 0x34, 0x12]);
}

#[test]
fn sine_wave_is_recognized_and_emitted_once() {
    let (r, emitted) = press_and_release(qwen_config(false), Ok("never asked".to_string()));
    assert_eq!(r.unwrap(), "hello");
    assert_eq!(emitted, vec!["hello".to_string()]);
}

#[test]
fn failed_refinement_still_emits_the_transcript() {
    let (r, emitted) = press_and_release(qwen_config(true), Err("refinement service down".to_string()));
    assert_eq!(r.unwrap(), "hello");
    assert_eq!(emitted, vec!["hello".to_string()]);
}

#[test]
fn successful_refinement_replaces_the_transcript() {
    let (r, emitted) = press_and_release(qwen_config(true), Ok("Hello.".to_string()));
    assert_eq!(r.unwrap(), "Hello.");
    assert_eq!(emitted, vec!["Hello.".to_string()]);
}

#[test]
fn recognition_error_is_propagated() {
    let c = qwen_config(false);
    let (mut run, _) = ProcessRun::start(&c, &vec![20000i16], 16000, None);
    let a = run.on_recognized(Err(AsrError::Network("down".to_string())));
    assert!(matches!(a, PipelineAction::Complete(Err(PipelineError::Asr(AsrError::Network(_))))));
}

#[test]
fn empty_transcript_is_not_emitted() {
    let c = qwen_config(true);
    let (mut run, _) = ProcessRun::start(&c, &vec![20000i16], 16000, None);
    let a = run.on_recognized(Ok(AsrResult { text: String::new(), is_final: true }));
    assert!(matches!(a, PipelineAction::Complete(Ok(ref t)) if t.is_empty()));
}

#[test]
fn output_error_is_propagated() {
    let c = qwen_config(false);
    let (mut run, _) = ProcessRun::start(&c, &vec![20000i16], 16000, None);
    let a = run.on_recognized(Ok(AsrResult { text: "hi".to_string(), is_final: true }));
    assert!(matches!(a, PipelineAction::Emit { .. }));
    let done = run.on_emitted(Err("paste failed".to_string()));
    assert!(matches!(done, PipelineAction::Complete(Err(PipelineError::Output(_)))));
}

#[test]
fn second_start_is_a_no_op() {
    let mut p = VoicePipeline::new(AppConfig::default());
    assert!(p.start_recording());
    assert!(!p.start_recording());
    assert!(p.recording());
}

#[test]
fn reload_while_held_neither_restarts_nor_loses_the_stop() {
    let mut sup = HotkeySupervisor::new(HotkeyBinding { key: KeyCode::Alt, modifiers: vec![] });
    assert_eq!(sup.observe(Some(true), Some(7)), EdgeAction::StartRecording);
    reload_hotkey(&mut sup, HotkeyBinding { key: KeyCode::F5, modifiers: vec![] });
    assert_eq!(sup.active_binding().key, KeyCode::Alt);
    assert_eq!(sup.observe(Some(true), Some(8)), EdgeAction::Nothing);
    assert_eq!(sup.observe(None, Some(8)), EdgeAction::Nothing);
    assert_eq!(sup.observe(Some(false), None), EdgeAction::StopRecording(Some(7)));
    assert_eq!(sup.active_binding().key, KeyCode::F5);
    assert_eq!(sup.observe(Some(false), None), EdgeAction::Nothing);
}

#[test]
fn reload_while_released_takes_effect_at_once() {
    let mut sup = HotkeySupervisor::new(HotkeyBinding::default());
    reload_hotkey(&mut sup, HotkeyBinding { key: KeyCode::F5, modifiers: vec![KeyCode::Shift] });
    assert_eq!(sup.active_binding().key, KeyCode::F5);
    assert_eq!(sup.observe(Some(true), None), EdgeAction::StartRecording);
    assert_eq!(sup.observe(Some(false), None), EdgeAction::StopRecording(None));
}

#[test]
fn failed_capture_returns_to_idle() {
    let mut p = VoicePipeline::new(AppConfig::default());
    assert!(p.start_recording());
    let r = p.capture_started(Err("no device".to_string()));
    assert!(matches!(r, Err(PipelineError::Audio(ref m)) if m == "no device"));
    assert!(!p.recording());
    assert!(p.start_recording());
    assert!(p.capture_started(Ok(())).is_ok());
    assert!(p.recording());
}
