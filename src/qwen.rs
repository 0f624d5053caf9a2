//! Realtime conversational recognition: a `session.update` event that must
//! be answered by `session.created` or `session.updated`, Base64 audio in
//! `input_audio_buffer.append` events of 3200 bytes, a commit, then
//! transcription events until the completed one.
use vstd::prelude::*;
use crate::asr::{
    audio_chunks, chunk_of, close_outcome, close_step, covers, ends_connection, finished,
    phase_after, AsrError, AsrErrorKind, Incoming, Phase, Step, StepView,
};
use crate::text::text_eq;

verus! {

/// Client settings for the realtime conversational recognition service.
#[derive(Debug, Clone)]
pub struct QwenAsr {
    api_key: String,
    model: String,
}

/// The service endpoint, to which the model is appended as a query value.
pub open spec fn qwen_url(model: Seq<char>) -> Seq<char> {
    "wss://dashscope.aliyuncs.com/api-ws/v1/realtime?model="@ + model
}

impl QwenAsr {
    pub fn new(api_key: String, model: String) -> (r: QwenAsr)
        ensures
            r.api_key() == api_key@,
            r.model() == model@,
    {
        QwenAsr { api_key, model }
    }

    pub closed spec fn api_key(&self) -> Seq<char> {
        self.api_key@
    }

    pub closed spec fn model(&self) -> Seq<char> {
        self.model@
    }

    pub fn api_key_str(&self) -> (r: &str)
        ensures
            r@ == self.api_key(),
    {
        self.api_key.as_str()
    }

    /// The address to connect to, naming the model.
    pub fn url(&self) -> (r: String)
        ensures
            r@ == qwen_url(self.model()),
    {
        let mut out = String::from_str("wss://dashscope.aliyuncs.com/api-ws/v1/realtime?model=");
        out.append(self.model.as_str());
        out
    }
}

/// Bytes of audio in each append event.
pub const QWEN_CHUNK_SIZE: usize = 3200;

/// Standard padded Base64 of some bytes, as the base64 crate writes it.
pub uninterp spec fn base64_of(b: Seq<u8>) -> Seq<char>;

/// Relies on `base64::Engine::encode` with the `STANDARD` engine: the
/// padded standard-alphabet encoding, a function of the bytes alone, and
/// empty for no bytes.
#[verifier::external_body]
fn base64_encode(b: &[u8]) -> (r: String)
    ensures
        r@ == base64_of(b@),
        b@.len() == 0 ==> r@.len() == 0,
{
    base64::Engine::encode(&base64::engine::general_purpose::STANDARD, b)
}

/// The Base64 payloads of the append events that carry `audio`, one per
/// 3200-byte chunk. Empty audio cannot be sent.
pub fn qwen_audio_payloads(audio: &Vec<u8>) -> (r: Result<Vec<String>, AsrError>)
    ensures
        audio@.len() == 0 <==> r is Err,
        r matches Err(e) ==> e.kind() == AsrErrorKind::Encoding,
        r matches Ok(p) ==> {
            &&& covers(audio@.len(), 3200, p@.len())
            &&& forall|i: int|
                0 <= i < p@.len() ==> #[trigger] p@[i]@ == base64_of(chunk_of(audio@, 3200, i))
        },
{
    if audio.len() == 0 {
        return Err(AsrError::Encoding(String::from_str("音频数据为空")));
    }
    let chunks = audio_chunks(audio, QWEN_CHUNK_SIZE);
    let mut out: Vec<String> = Vec::new();
    let mut i: usize = 0;
    while i < chunks.len()
        invariant
            i <= chunks@.len(),
            out@.len() == i,
            forall|j: int| 0 <= j < i ==> #[trigger] out@[j]@ == base64_of(chunks@[j]@),
        decreases chunks@.len() - i,
    {
        out.push(base64_encode(chunks[i].as_slice()));
        i = i + 1;
    }
    Ok(out)
}

/// One server event, as decoded from a text frame.
#[derive(Debug, Clone)]
pub struct QwenEvent {
    /// `type`
    pub event_type: String,
    /// `transcript`
    pub transcript: Option<String>,
    /// `error.message`
    pub error_message: Option<String>,
}

pub open spec fn is_session_ack_type(t: Seq<char>) -> bool {
    t == "session.created"@ || t == "session.updated"@
}

pub open spec fn completed_type() -> Seq<char> {
    "conversation.item.input_audio_transcription.completed"@
}

pub open spec fn partial_type() -> Seq<char> {
    "conversation.item.input_audio_transcription.text"@
}

/// The transcript after an event that may carry one: it replaces the text.
pub open spec fn qwen_merge(text: Seq<char>, ev: QwenEvent) -> Seq<char> {
    match ev.transcript {
        Some(t) => t@,
        None => text,
    }
}

/// The session's transition.
pub open spec fn qwen_next(phase: Phase, text: Seq<char>, msg: Incoming<QwenEvent>) -> (Seq<char>, StepView) {
    match msg {
        Incoming::Event(ev) => if ev.error_message is Some {
            (text, StepView::Failed(AsrErrorKind::Api, ev.error_message->0@))
        } else if phase == Phase::AwaitingAck {
            if is_session_ack_type(ev.event_type@) {
                (text, StepView::Ready)
            } else {
                (text, StepView::Continue)
            }
        } else if ev.event_type@ == completed_type() {
            (qwen_merge(text, ev), StepView::Finished(qwen_merge(text, ev)))
        } else if ev.event_type@ == partial_type() {
            (qwen_merge(text, ev), StepView::Continue)
        } else {
            (text, StepView::Continue)
        },
        Incoming::Unparsable(e) => (
            text,
            StepView::Failed(AsrErrorKind::Api, "解析响应失败: "@ + e@),
        ),
        Incoming::Close => if phase == Phase::AwaitingAck {
            (text, StepView::Failed(AsrErrorKind::Network, "WebSocket 连接被关闭"@))
        } else {
            (text, close_outcome(text))
        },
        Incoming::Ended => if phase == Phase::AwaitingAck {
            (text, StepView::Failed(AsrErrorKind::Api, "未收到 session 确认事件"@))
        } else {
            (text, close_outcome(text))
        },
        Incoming::Failure(e) => (text, StepView::Failed(AsrErrorKind::Network, e@)),
        Incoming::Other => (text, StepView::Continue),
    }
}

/// The state of one recognition call.
#[derive(Debug)]
pub struct QwenSession {
    phase: Phase,
    text: String,
}

impl QwenSession {
    pub closed spec fn phase(&self) -> Phase {
        self.phase
    }

    pub closed spec fn text(&self) -> Seq<char> {
        self.text@
    }

    /// A session waiting for the service to acknowledge its configuration.
    pub fn new() -> (r: QwenSession)
        ensures
            r.phase() == Phase::AwaitingAck,
            r.text().len() == 0,
    {
        QwenSession { phase: Phase::AwaitingAck, text: String::new() }
    }

    pub fn current_phase(&self) -> (r: Phase)
        ensures
            r == self.phase(),
    {
        self.phase
    }

    /// Takes one message read from the socket.
    pub fn on_message(&mut self, msg: Incoming<QwenEvent>) -> (r: Step)
        requires
            old(self).phase() == Phase::AwaitingAck || old(self).phase() == Phase::Collecting,
        ensures
            (final(self).text(), r@) == qwen_next(old(self).phase(), old(self).text(), msg),
            r matches Step::Finished(res) ==> res.is_final,
            final(self).phase() == phase_after(r@, old(self).phase()),
    {
        proof {
            reveal_strlit("session.created");
            reveal_strlit("session.updated");
            reveal_strlit("conversation.item.input_audio_transcription.completed");
            reveal_strlit("conversation.item.input_audio_transcription.text");
        }
        let r = match msg {
            Incoming::Event(ev) => {
                if let Some(m) = ev.error_message {
                    Step::Failed(AsrError::Api(m))
                } else if self.phase == Phase::AwaitingAck {
                    if text_eq(ev.event_type.as_str(), "session.created") || text_eq(
                        ev.event_type.as_str(),
                        "session.updated",
                    ) {
                        Step::Ready
                    } else {
                        Step::Continue
                    }
                } else if text_eq(
                    ev.event_type.as_str(),
                    "conversation.item.input_audio_transcription.completed",
                ) {
                    if let Some(t) = ev.transcript {
                        self.text = t;
                    }
                    finished(self.text.clone())
                } else if text_eq(
                    ev.event_type.as_str(),
                    "conversation.item.input_audio_transcription.text",
                ) {
                    if let Some(t) = ev.transcript {
                        self.text = t;
                    }
                    Step::Continue
                } else {
                    Step::Continue
                }
            },
            Incoming::Unparsable(e) => {
                let mut m = String::from_str("解析响应失败: ");
                m.append(e.as_str());
                Step::Failed(AsrError::Api(m))
            },
            Incoming::Close => {
                if self.phase == Phase::AwaitingAck {
                    Step::Failed(AsrError::Network(String::from_str("WebSocket 连接被关闭")))
                } else {
                    close_step(&self.text)
                }
            },
            Incoming::Ended => {
                if self.phase == Phase::AwaitingAck {
                    Step::Failed(AsrError::Api(String::from_str("未收到 session 确认事件")))
                } else {
                    close_step(&self.text)
                }
            },
            Incoming::Failure(e) => Step::Failed(AsrError::Network(e)),
            Incoming::Other => Step::Continue,
        };
        self.phase = match r {
            Step::Continue => self.phase,
            Step::Ready => Phase::Collecting,
            Step::Finished(_) => Phase::Finished,
            Step::Failed(_) => Phase::Failed,
        };
        r
    }
}

/// The session driven over a sequence of messages until a step ends it.
pub open spec fn qwen_run(phase: Phase, text: Seq<char>, last: StepView, msgs: Seq<Incoming<QwenEvent>>) -> (
    Phase,
    Seq<char>,
    StepView,
)
    decreases msgs.len(),
{
    if msgs.len() == 0 || phase == Phase::Finished || phase == Phase::Failed {
        (phase, text, last)
    } else {
        let (t, s) = qwen_next(phase, text, msgs[0]);
        qwen_run(phase_after(s, phase), t, s, msgs.drop_first())
    }
}

/// Whether a message acknowledges the session configuration.
pub open spec fn is_qwen_ack(msg: Incoming<QwenEvent>) -> bool {
    msg matches Incoming::Event(ev) && ev.error_message is None && is_session_ack_type(ev.event_type@)
}

/// A session whose configuration is never acknowledged fails, with a
/// network or service error, by the time the connection ends.
pub proof fn lemma_qwen_unacknowledged_fails(msgs: Seq<Incoming<QwenEvent>>)
    requires
        forall|i: int| 0 <= i < msgs.len() ==> !is_qwen_ack(#[trigger] msgs[i]),
        msgs.len() > 0,
        ends_connection(msgs.last()),
    ensures
        ({
            let (phase, _, fin) = qwen_run(Phase::AwaitingAck, Seq::empty(), StepView::Continue, msgs);
            &&& phase == Phase::Failed
            &&& fin matches StepView::Failed(kind, _) && (kind == AsrErrorKind::Network || kind == AsrErrorKind::Api)
        }),
{
    lemma_qwen_waiting_run(Seq::empty(), StepView::Continue, msgs);
}

proof fn lemma_qwen_waiting_run(text: Seq<char>, last: StepView, msgs: Seq<Incoming<QwenEvent>>)
    requires
        forall|i: int| 0 <= i < msgs.len() ==> !is_qwen_ack(#[trigger] msgs[i]),
        msgs.len() > 0,
        ends_connection(msgs.last()),
    ensures
        ({
            let (phase, _, fin) = qwen_run(Phase::AwaitingAck, text, last, msgs);
            &&& phase == Phase::Failed
            &&& fin matches StepView::Failed(kind, _) && (kind == AsrErrorKind::Network || kind == AsrErrorKind::Api)
        }),
    decreases msgs.len(),
{
    let m = msgs[0];
    assert(!is_qwen_ack(m));
    let (t, s) = qwen_next(Phase::AwaitingAck, text, m);
    let rest = msgs.drop_first();
    assert(qwen_run(Phase::AwaitingAck, text, last, msgs) == qwen_run(
        phase_after(s, Phase::AwaitingAck),
        t,
        s,
        rest,
    ));
    if msgs.len() == 1 {
        assert(m == msgs.last());
    }
    if s is Continue {
        assert(msgs.len() > 1) by {
            if msgs.len() == 1 {
                assert(ends_connection(m));
            }
        }
        assert(rest.last() == msgs.last());
        assert forall|i: int| 0 <= i < rest.len() implies !is_qwen_ack(#[trigger] rest[i]) by {
            assert(rest[i] == msgs[i + 1]);
        }
        lemma_qwen_waiting_run(t, s, rest);
    } else {
        assert(s is Failed);
        if rest.len() > 0 {
            assert(qwen_run(Phase::Failed, t, s, rest) == (Phase::Failed, t, s));
        }
    }
}

/// A connection dropped right after the handshake ends the session with a
/// network error, whatever would have followed.
pub proof fn lemma_qwen_drop_is_final(rest: Seq<Incoming<QwenEvent>>)
    ensures
        qwen_run(Phase::AwaitingAck, Seq::empty(), StepView::Continue, seq![Incoming::Close].add(rest))
            == (Phase::Failed, Seq::<char>::empty(), StepView::Failed(AsrErrorKind::Network, "WebSocket 连接被关闭"@)),
{
    let msgs = seq![Incoming::Close].add(rest);
    assert(msgs[0] == Incoming::<QwenEvent>::Close);
    assert(msgs.drop_first() =~= rest);
    let (t, s) = qwen_next(Phase::AwaitingAck, Seq::empty(), msgs[0]);
    assert(qwen_run(Phase::AwaitingAck, Seq::empty(), StepView::Continue, msgs) == qwen_run(
        Phase::Failed,
        t,
        s,
        rest,
    ));
}

} // verus!
