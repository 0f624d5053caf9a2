use vhisper_core::asr::{
    audio_chunks, compact_uuid, create_asr_service, new_event_id, new_task_id, AsrError,
    AsrProvider, Incoming, Phase, Step,
};
use vhisper_core::config::{AsrConfig, DashScopeAsrConfig, FunAsrConfig, QwenAsrConfig};
use vhisper_core::dashscope::{dashscope_chunk_size, dashscope_frames, DashScopeEvent, DashScopeSession};
use vhisper_core::funasr::{funasr_chunk_size, funasr_frames, FunAsr, FunAsrEvent, FunAsrSession};
use vhisper_core::qwen::{qwen_audio_payloads, QwenAsr, QwenEvent, QwenSession, QWEN_CHUNK_SIZE};

fn ds_event(event: &str) -> DashScopeEvent {
    DashScopeEvent {
        event: event.to_string(),
        error_code: None,
        error_message: None,
        sentence_text: None,
        sentence_end: false,
    }
}

fn ds_sentence(text: &str, end: bool) -> DashScopeEvent {
    DashScopeEvent { sentence_text: Some(text.to_string()), sentence_end: end, ..ds_event("result-generated") }
}

fn qw_event(t: &str, transcript: Option<&str>) -> QwenEvent {
    QwenEvent { event_type: t.to_string(), transcript: transcript.map(|s| s.to_string()), error_message: None }
}

fn is_network(s: &Step) -> bool {
    matches!(s, Step::Failed(AsrError::Network(_)))
}

fn is_api(s: &Step) -> bool {
    matches!(s, Step::Failed(AsrError::Api(_)))
}

fn finished_text(s: &Step) -> Option<String> {
    match s {
        Step::Finished(r) => Some(r.text.clone()),
        _ => None,
    }
}

#[test]
fn chunk_sizes_follow_the_sample_rate() {
    assert_eq!(dashscope_chunk_size(16000), 3200);
    assert_eq!(dashscope_chunk_size(48000), 9600);
    assert_eq!(dashscope_chunk_size(44100), 8820);
    assert_eq!(funasr_chunk_size(16000), 6400);
    assert_eq!(funasr_chunk_size(8000), 3200);
    assert_eq!(QWEN_CHUNK_SIZE, 3200);
}

#[test]
fn chunking_covers_the_audio() {
    let data: Vec<u8> = (0..10u8).collect();
    let chunks = audio_chunks(&data, 4);
    assert_eq!(chunks, vec![vec![0, 1, 2, 3], vec![4, 5, 6, 7], vec![8, 9]]);
    assert!(audio_chunks(&Vec::new(), 4).is_empty());
    assert_eq!(audio_chunks(&data, 5).len(), 2);
}

#[test]
fn frames_at_sixteen_kilohertz() {
    let audio = vec![7u8; 7000];
    let frames = dashscope_frames(&audio, 16000).unwrap();
    assert_eq!(frames.iter().map(|f| f.len()).collect::<Vec<_>>(), vec![3200, 3200, 600]);
    let frames = funasr_frames(&audio, 16000).unwrap();
    assert_eq!(frames.iter().map(|f| f.len()).collect::<Vec<_>>(), vec![6400, 600]);
    assert!(matches!(dashscope_frames(&audio, 4), Err(AsrError::Encoding(_))));
    assert!(matches!(funasr_frames(&audio, 2), Err(AsrError::Encoding(_))));
}

#[test]
fn qwen_payloads_are_base64() {
    let audio = b"hello world~".to_vec();
    let p = qwen_audio_payloads(&audio).unwrap();
    assert_eq!(p, vec!["aGVsbG8gd29ybGR+".to_string()]);
    let long = vec![0u8; 3201];
    let p = qwen_audio_payloads(&long).unwrap();
    assert_eq!(p.len(), 2);
    assert_eq!(p[1], "AA==");
    assert!(matches!(qwen_audio_payloads(&Vec::new()), Err(AsrError::Encoding(_))));
}

#[test]
fn identifiers_have_their_shape() {
    let t = new_task_id();
    assert_eq!(t.len(), 32);
    assert!(t.chars().all(|c| c.is_ascii_hexdigit() && !c.is_ascii_uppercase()));
    let e = new_event_id();
    assert_eq!(e.len(), 26);
    assert!(e.starts_with("event_"));
    assert_ne!(new_task_id(), new_task_id());
    assert_eq!(compact_uuid("67e55044-10b1-426f-9247-bb680e5fe0c8"), "67e5504410b1426f9247bb680e5fe0c8");
}

#[test]
fn endpoint_becomes_secure_websocket() {
    assert_eq!(FunAsr::new("http://localhost:10096".to_string()).endpoint_str(), "wss://localhost:10096");
    assert_eq!(FunAsr::new("https://host:1".to_string()).endpoint_str(), "wss://host:1");
    assert_eq!(FunAsr::new("ws://host:2".to_string()).endpoint_str(), "wss://host:2");
    assert_eq!(FunAsr::new("wss://host:3".to_string()).endpoint_str(), "wss://host:3");
}

#[test]
fn qwen_url_names_the_model() {
    let q = QwenAsr::new("k".to_string(), "qwen3-asr-flash-realtime".to_string());
    assert_eq!(q.url(), "wss://dashscope.aliyuncs.com/api-ws/v1/realtime?model=qwen3-asr-flash-realtime");
    assert_eq!(q.api_key_str(), "k");
}

#[test]
fn factory_selects_the_configured_provider() {
    let mut c = AsrConfig::default();
    assert!(matches!(create_asr_service(&c), Err(AsrError::Config(_))));
    c.qwen = Some(QwenAsrConfig { api_key: "k".to_string(), model: "m".to_string() });
    assert!(matches!(create_asr_service(&c), Ok(AsrProvider::Qwen(_))));
    c.provider = "DashScope".to_string();
    assert!(matches!(create_asr_service(&c), Err(AsrError::Config(_))));
    c.dashscope = Some(DashScopeAsrConfig { api_key: "k".to_string(), model: "paraformer".to_string() });
    match create_asr_service(&c) {
        Ok(AsrProvider::DashScope(d)) => assert_eq!(d.model_str(), "paraformer"),
        other => panic!("unexpected {:?}", other),
    }
    c.provider = "FunASR".to_string();
    c.funasr = Some(FunAsrConfig { endpoint: "http://h:1".to_string() });
    match create_asr_service(&c) {
        Ok(AsrProvider::FunAsr(f)) => assert_eq!(f.endpoint_str(), "wss://h:1"),
        other => panic!("unexpected {:?}", other),
    }
    c.provider = "Nope".to_string();
    assert!(matches!(create_asr_service(&c), Err(AsrError::Config(_))));
}

#[test]
fn dashscope_without_task_started_fails() {
    let mut s = DashScopeSession::new();
    assert!(matches!(s.on_message(Incoming::Event(ds_event("other"))), Step::Continue));
    assert!(matches!(s.on_message(Incoming::Other), Step::Continue));
    assert!(is_api(&s.on_message(Incoming::Ended)));
    assert_eq!(s.current_phase(), Phase::Failed);

    let mut s = DashScopeSession::new();
    assert!(is_network(&s.on_message(Incoming::Close)));
}

#[test]
fn qwen_without_session_ack_fails() {
    let mut s = QwenSession::new();
    assert!(matches!(s.on_message(Incoming::Event(qw_event("other", None))), Step::Continue));
    assert!(is_api(&s.on_message(Incoming::Ended)));
    let mut s = QwenSession::new();
    assert!(is_network(&s.on_message(Incoming::Failure("reset".to_string()))));
}

#[test]
fn dashscope_collects_the_sentence() {
    let mut s = DashScopeSession::new();
    assert_eq!(s.task_id_str().len(), 32);
    assert!(matches!(s.on_message(Incoming::Event(ds_event("task-started"))), Step::Ready));
    assert_eq!(s.current_phase(), Phase::Collecting);
    assert!(matches!(s.on_message(Incoming::Event(ds_sentence("hel", false))), Step::Continue));
    assert!(matches!(s.on_message(Incoming::Event(ds_sentence("hello", true))), Step::Continue));
    assert!(matches!(s.on_message(Incoming::Event(ds_sentence("hello w", false))), Step::Continue));
    let end = s.on_message(Incoming::Event(ds_event("task-finished")));
    assert_eq!(finished_text(&end), Some("hello".to_string()));
}

#[test]
fn dashscope_error_event_is_api_error() {
    let mut s = DashScopeSession::new();
    let ev = DashScopeEvent {
        error_code: Some("InvalidApiKey".to_string()),
        error_message: Some("bad key".to_string()),
        ..ds_event("task-failed")
    };
    match s.on_message(Incoming::Event(ev)) {
        Step::Failed(AsrError::Api(m)) => assert_eq!(m, "InvalidApiKey: bad key"),
        other => panic!("unexpected {:?}", other),
    }
    let mut s = DashScopeSession::new();
    assert!(is_api(&s.on_message(Incoming::Unparsable("eof".to_string()))));
}

#[test]
fn qwen_collects_the_transcript() {
    let mut s = QwenSession::new();
    assert!(matches!(s.on_message(Incoming::Event(qw_event("session.created", None))), Step::Ready));
    let partial = qw_event("conversation.item.input_audio_transcription.text", Some("hel"));
    assert!(matches!(s.on_message(Incoming::Event(partial)), Step::Continue));
    let done = qw_event("conversation.item.input_audio_transcription.completed", Some("hello"));
    assert_eq!(finished_text(&s.on_message(Incoming::Event(done))), Some("hello".to_string()));

    let mut s = QwenSession::new();
    assert!(matches!(s.on_message(Incoming::Event(qw_event("session.updated", None))), Step::Ready));
    let err = QwenEvent { error_message: Some("quota".to_string()), ..qw_event("error", None) };
    match s.on_message(Incoming::Event(err)) {
        Step::Failed(AsrError::Api(m)) => assert_eq!(m, "quota"),
        other => panic!("unexpected {:?}", other),
    }
}

#[test]
fn funasr_overwrites_with_cumulative_text() {
    let mut s = FunAsrSession::new();
    let ev = |t: &str, fin: bool| FunAsrEvent { text: Some(t.to_string()), is_final: fin, mode: None };
    assert!(matches!(s.on_message(Incoming::Event(ev("he", false))), Step::Continue));
    assert!(matches!(s.on_message(Incoming::Unparsable("x".to_string())), Step::Continue));
    assert!(matches!(s.on_message(Incoming::Event(ev("hello", false))), Step::Continue));
    assert_eq!(finished_text(&s.on_message(Incoming::Event(ev("hello", true)))), Some("hello".to_string()));

    let mut s = FunAsrSession::new();
    let offline = FunAsrEvent { text: Some("hi".to_string()), is_final: false, mode: Some("offline".to_string()) };
    assert_eq!(finished_text(&s.on_message(Incoming::Event(offline))), Some("hi".to_string()));
}

#[test]
fn close_after_partial_keeps_the_partial() {
    let mut s = FunAsrSession::new();
    let ev = FunAsrEvent { text: Some("part".to_string()), is_final: false, mode: None };
    s.on_message(Incoming::Event(ev));
    assert_eq!(finished_text(&s.on_message(Incoming::Failure("reset".to_string()))), Some("part".to_string()));

    let mut s = DashScopeSession::new();
    s.on_message(Incoming::Event(ds_event("task-started")));
    s.on_message(Incoming::Event(ds_sentence("part", false)));
    assert_eq!(finished_text(&s.on_message(Incoming::Close)), Some("part".to_string()));
}

#[test]
fn drop_right_after_handshake_is_a_network_error() {
    let mut d = DashScopeSession::new();
    assert!(is_network(&d.on_message(Incoming::Close)));
    assert_eq!(d.current_phase(), Phase::Failed);
    let mut q = QwenSession::new();
    assert!(is_network(&q.on_message(Incoming::Close)));
    assert_eq!(q.current_phase(), Phase::Failed);
    let mut f = FunAsrSession::new();
    assert!(is_network(&f.on_message(Incoming::Close)));
    assert_eq!(f.current_phase(), Phase::Failed);
    let mut f = FunAsrSession::new();
    assert!(is_network(&f.on_message(Incoming::Failure("reset".to_string()))));
}

#[test]
fn error_descriptions() {
    assert_eq!(AsrError::Network("x".to_string()).describe(), "Network error: x");
    assert_eq!(AsrError::Api("y".to_string()).describe(), "API error: y");
}

#[test]
fn dashscope_keeps_the_latest_partial() {
    let mut s = DashScopeSession::new();
    s.on_message(Incoming::Event(ds_event("task-started")));
    s.on_message(Incoming::Event(ds_sentence("a", false)));
    s.on_message(Incoming::Event(ds_sentence("b", false)));
    s.on_message(Incoming::Event(ds_sentence("", false)));
    let end = s.on_message(Incoming::Event(ds_event("task-finished")));
    assert_eq!(finished_text(&end), Some("b".to_string()));
    match end {
        Step::Finished(r) => assert!(r.is_final),
        other => panic!("unexpected {:?}", other),
    }
}

#[test]
fn unacknowledged_stream_messages() {
    let mut s = DashScopeSession::new();
    match s.on_message(Incoming::Ended) {
        Step::Failed(AsrError::Api(m)) => assert_eq!(m, "未收到 task-started 事件"),
        other => panic!("unexpected {:?}", other),
    }
    let mut q = QwenSession::new();
    match q.on_message(Incoming::Ended) {
        Step::Failed(AsrError::Api(m)) => assert_eq!(m, "未收到 session 确认事件"),
        other => panic!("unexpected {:?}", other),
    }
}

#[test]
fn finished_results_are_final() {
    let mut f = FunAsrSession::new();
    let ev = FunAsrEvent { text: Some("hello".to_string()), is_final: true, mode: None };
    match f.on_message(Incoming::Event(ev)) {
        Step::Finished(r) => {
            assert_eq!(r.text, "hello");
            assert!(r.is_final);
        }
        other => panic!("unexpected {:?}", other),
    }
}
