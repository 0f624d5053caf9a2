//! DashScope-style realtime recognition: a `run-task` command that must be
//! acknowledged by `task-started`, binary audio frames of about 100 ms, a
//! `finish-task` command, then `result-generated` events until
//! `task-finished`.
use vstd::prelude::*;
use crate::asr::{
    audio_chunks, chunk_of, close_outcome, close_step, covers, ends_connection, finished,
    is_hex_text, new_task_id, phase_after, AsrError, AsrErrorKind, Incoming, Phase, Step, StepView,
};
use crate::text::text_eq;

verus! {

/// Client settings for the DashScope realtime recognition service.
#[derive(Debug, Clone)]
pub struct DashScopeAsr {
    api_key: String,
    model: String,
}

impl DashScopeAsr {
    pub fn new(api_key: String, model: String) -> (r: DashScopeAsr)
        ensures
            r.api_key() == api_key@,
            r.model() == model@,
    {
        DashScopeAsr { api_key, model }
    }

    pub closed spec fn api_key(&self) -> Seq<char> {
        self.api_key@
    }

    pub closed spec fn model(&self) -> Seq<char> {
        self.model@
    }

    /// The key sent as bearer credential.
    pub fn api_key_str(&self) -> (r: &str)
        ensures
            r@ == self.api_key(),
    {
        self.api_key.as_str()
    }

    /// The model named in the `run-task` command.
    pub fn model_str(&self) -> (r: &str)
        ensures
            r@ == self.model(),
    {
        self.model.as_str()
    }
}

/// Bytes of 16-bit audio in 100 ms at `sample_rate`.
pub fn dashscope_chunk_size(sample_rate: u32) -> (r: usize)
    ensures
        r as int == sample_rate as int * 2 / 10,
{
    ((sample_rate as u64) * 2 / 10) as usize
}

/// The binary frames that carry `audio`: 100 ms each at `sample_rate`. A
/// rate too low to give a chunk of one byte cannot be streamed.
pub fn dashscope_frames(audio: &Vec<u8>, sample_rate: u32) -> (r: Result<Vec<Vec<u8>>, AsrError>)
    ensures
        sample_rate < 5 <==> r is Err,
        r matches Err(e) ==> e.kind() == AsrErrorKind::Encoding,
        r matches Ok(frames) ==> {
            &&& covers(audio@.len(), sample_rate as nat * 2 / 10, frames@.len())
            &&& forall|i: int|
                0 <= i < frames@.len() ==> #[trigger] frames@[i]@ == chunk_of(
                    audio@,
                    sample_rate as nat * 2 / 10,
                    i,
                )
        },
{
    let size = dashscope_chunk_size(sample_rate);
    if size == 0 {
        return Err(AsrError::Encoding(String::from_str("sample rate too low to stream")));
    }
    Ok(audio_chunks(audio, size))
}

/// One server event, as decoded from a text frame.
#[derive(Debug, Clone)]
pub struct DashScopeEvent {
    /// `header.event`
    pub event: String,
    /// `header.error_code`
    pub error_code: Option<String>,
    /// `header.error_message`
    pub error_message: Option<String>,
    /// `payload.output.sentence.text`
    pub sentence_text: Option<String>,
    /// `payload.output.sentence.sentence_end`
    pub sentence_end: bool,
}

/// The message of an error that the service reported: `code: message`.
pub open spec fn remote_error(code: Seq<char>, message: Option<String>) -> Seq<char> {
    code + ": "@ + match message {
        Some(m) => m@,
        None => Seq::empty(),
    }
}

/// The transcript after a `result-generated` event, with whether it came
/// from a sentence marked as ended: such a sentence always replaces it;
/// another non-empty sentence replaces it until an ended one has arrived.
pub open spec fn dashscope_merge(text: Seq<char>, ended: bool, ev: DashScopeEvent) -> (Seq<char>, bool) {
    match ev.sentence_text {
        Some(t) => if ev.sentence_end {
            (t@, true)
        } else if !ended && t@.len() > 0 {
            (t@, false)
        } else {
            (text, ended)
        },
        None => (text, ended),
    }
}

/// The session's transition: from the phase, the transcript so far (and
/// whether it came from an ended sentence) and one message, the new
/// transcript, its flag and the step.
pub open spec fn dashscope_next(phase: Phase, text: Seq<char>, ended: bool, msg: Incoming<DashScopeEvent>) -> (
    Seq<char>,
    bool,
    StepView,
) {
    match msg {
        Incoming::Event(ev) => if ev.error_code is Some {
            (text, ended, StepView::Failed(AsrErrorKind::Api, remote_error(ev.error_code->0@, ev.error_message)))
        } else if phase == Phase::AwaitingAck {
            if ev.event@ == "task-started"@ {
                (text, ended, StepView::Ready)
            } else {
                (text, ended, StepView::Continue)
            }
        } else if ev.event@ == "result-generated"@ {
            let (t, e) = dashscope_merge(text, ended, ev);
            (t, e, StepView::Continue)
        } else if ev.event@ == "task-finished"@ {
            (text, ended, StepView::Finished(text))
        } else {
            (text, ended, StepView::Continue)
        },
        Incoming::Unparsable(e) => (
            text,
            ended,
            StepView::Failed(AsrErrorKind::Api, "解析响应失败: "@ + e@),
        ),
        Incoming::Close => if phase == Phase::AwaitingAck {
            (text, ended, StepView::Failed(AsrErrorKind::Network, "WebSocket 连接被关闭"@))
        } else {
            (text, ended, close_outcome(text))
        },
        Incoming::Ended => if phase == Phase::AwaitingAck {
            (text, ended, StepView::Failed(AsrErrorKind::Api, "未收到 task-started 事件"@))
        } else {
            (text, ended, close_outcome(text))
        },
        Incoming::Failure(e) => (text, ended, StepView::Failed(AsrErrorKind::Network, e@)),
        Incoming::Other => (text, ended, StepView::Continue),
    }
}

/// The state of one recognition call.
#[derive(Debug)]
pub struct DashScopeSession {
    phase: Phase,
    task_id: String,
    text: String,
    sentence_ended: bool,
}

/// `code: message` from an error event.
fn remote_error_text(code: &String, message: &Option<String>) -> (r: String)
    ensures
        r@ == remote_error(code@, *message),
{
    let mut out = code.clone();
    out.append(": ");
    match message {
        Some(m) => out.append(m.as_str()),
        None => {},
    }
    proof {
        if message is None {
            assert(out@ =~= remote_error(code@, *message));
        }
    }
    out
}

impl DashScopeSession {
    pub closed spec fn phase(&self) -> Phase {
        self.phase
    }

    pub closed spec fn text(&self) -> Seq<char> {
        self.text@
    }

    /// Whether the transcript came from a sentence marked as ended.
    pub closed spec fn sentence_ended(&self) -> bool {
        self.sentence_ended
    }

    pub closed spec fn task_id(&self) -> Seq<char> {
        self.task_id@
    }

    /// A session waiting for `task-started`, with a fresh task id.
    pub fn new() -> (r: DashScopeSession)
        ensures
            r.phase() == Phase::AwaitingAck,
            r.text().len() == 0,
            !r.sentence_ended(),
            r.task_id().len() == 32,
            is_hex_text(r.task_id()),
    {
        DashScopeSession {
            phase: Phase::AwaitingAck,
            task_id: new_task_id(),
            text: String::new(),
            sentence_ended: false,
        }
    }

    /// The task id that both commands carry.
    pub fn task_id_str(&self) -> (r: &str)
        ensures
            r@ == self.task_id(),
    {
        self.task_id.as_str()
    }

    pub fn current_phase(&self) -> (r: Phase)
        ensures
            r == self.phase(),
    {
        self.phase
    }

    /// Takes one message read from the socket.
    pub fn on_message(&mut self, msg: Incoming<DashScopeEvent>) -> (r: Step)
        requires
            old(self).phase() == Phase::AwaitingAck || old(self).phase() == Phase::Collecting,
        ensures
            (final(self).text(), final(self).sentence_ended(), r@) == dashscope_next(
                old(self).phase(),
                old(self).text(),
                old(self).sentence_ended(),
                msg,
            ),
            r matches Step::Finished(res) ==> res.is_final,
            final(self).phase() == phase_after(r@, old(self).phase()),
            final(self).task_id() == old(self).task_id(),
    {
        proof {
            reveal_strlit("task-started");
            reveal_strlit("result-generated");
            reveal_strlit("task-finished");
        }
        let r = match msg {
            Incoming::Event(ev) => {
                if let Some(code) = &ev.error_code {
                    Step::Failed(AsrError::Api(remote_error_text(code, &ev.error_message)))
                } else if self.phase == Phase::AwaitingAck {
                    if text_eq(ev.event.as_str(), "task-started") {
                        Step::Ready
                    } else {
                        Step::Continue
                    }
                } else if text_eq(ev.event.as_str(), "result-generated") {
                    match ev.sentence_text {
                        Some(t) => {
                            if ev.sentence_end {
                                self.text = t;
                                self.sentence_ended = true;
                            } else if !self.sentence_ended && t.as_str().unicode_len() > 0 {
                                self.text = t;
                            }
                        },
                        None => {},
                    }
                    Step::Continue
                } else if text_eq(ev.event.as_str(), "task-finished") {
                    finished(self.text.clone())
                } else {
                    Step::Continue
                }
            },
            Incoming::Unparsable(e) => {
                let mut m = String::from_str("解析响应失败: ");
                m.append(e.as_str());
                Step::Failed(AsrError::Api(m))
            },
            Incoming::Close => {
                if self.phase == Phase::AwaitingAck {
                    Step::Failed(AsrError::Network(String::from_str("WebSocket 连接被关闭")))
                } else {
                    close_step(&self.text)
                }
            },
            Incoming::Ended => {
                if self.phase == Phase::AwaitingAck {
                    Step::Failed(AsrError::Api(String::from_str("未收到 task-started 事件")))
                } else {
                    close_step(&self.text)
                }
            },
            Incoming::Failure(e) => Step::Failed(AsrError::Network(e)),
            Incoming::Other => Step::Continue,
        };
        self.phase = match r {
            Step::Continue => self.phase,
            Step::Ready => Phase::Collecting,
            Step::Finished(_) => Phase::Finished,
            Step::Failed(_) => Phase::Failed,
        };
        r
    }
}

/// The session driven over a sequence of messages until a step ends it:
/// the phase, the transcript and the last step.
pub open spec fn dashscope_run(
    phase: Phase,
    text: Seq<char>,
    ended: bool,
    last: StepView,
    msgs: Seq<Incoming<DashScopeEvent>>,
) -> (Phase, Seq<char>, StepView)
    decreases msgs.len(),
{
    if msgs.len() == 0 || phase == Phase::Finished || phase == Phase::Failed {
        (phase, text, last)
    } else {
        let (t, e, s) = dashscope_next(phase, text, ended, msgs[0]);
        dashscope_run(phase_after(s, phase), t, e, s, msgs.drop_first())
    }
}

/// Whether a message acknowledges the `run-task` command.
pub open spec fn is_dashscope_ack(msg: Incoming<DashScopeEvent>) -> bool {
    msg matches Incoming::Event(ev) && ev.error_code is None && ev.event@ == "task-started"@
}

/// A session whose service never acknowledges the task fails, with a
/// network or service error, by the time the connection ends: it never goes
/// on to stream audio.
pub proof fn lemma_dashscope_unacknowledged_fails(msgs: Seq<Incoming<DashScopeEvent>>)
    requires
        forall|i: int| 0 <= i < msgs.len() ==> !is_dashscope_ack(#[trigger] msgs[i]),
        msgs.len() > 0,
        ends_connection(msgs.last()),
    ensures
        ({
            let (phase, _, fin) = dashscope_run(Phase::AwaitingAck, Seq::empty(), false, StepView::Continue, msgs);
            &&& phase == Phase::Failed
            &&& fin matches StepView::Failed(kind, _) && (kind == AsrErrorKind::Network || kind == AsrErrorKind::Api)
        }),
    decreases msgs.len(),
{
    lemma_dashscope_waiting_run(Seq::empty(), false, StepView::Continue, msgs);
}

proof fn lemma_dashscope_waiting_run(
    text: Seq<char>,
    ended: bool,
    last: StepView,
    msgs: Seq<Incoming<DashScopeEvent>>,
)
    requires
        forall|i: int| 0 <= i < msgs.len() ==> !is_dashscope_ack(#[trigger] msgs[i]),
        msgs.len() > 0,
        ends_connection(msgs.last()),
    ensures
        ({
            let (phase, _, fin) = dashscope_run(Phase::AwaitingAck, text, ended, last, msgs);
            &&& phase == Phase::Failed
            &&& fin matches StepView::Failed(kind, _) && (kind == AsrErrorKind::Network || kind == AsrErrorKind::Api)
        }),
    decreases msgs.len(),
{
    let m = msgs[0];
    assert(!is_dashscope_ack(m));
    let (t, e, s) = dashscope_next(Phase::AwaitingAck, text, ended, m);
    let rest = msgs.drop_first();
    assert(dashscope_run(Phase::AwaitingAck, text, ended, last, msgs) == dashscope_run(
        phase_after(s, Phase::AwaitingAck),
        t,
        e,
        s,
        rest,
    ));
    if msgs.len() == 1 {
        assert(m == msgs.last());
    }
    if s is Continue {
        assert(msgs.len() > 1) by {
            if msgs.len() == 1 {
                assert(ends_connection(m));
            }
        }
        assert(rest.last() == msgs.last());
        assert forall|i: int| 0 <= i < rest.len() implies !is_dashscope_ack(#[trigger] rest[i]) by {
            assert(rest[i] == msgs[i + 1]);
        }
        lemma_dashscope_waiting_run(t, e, s, rest);
    } else {
        assert(s is Failed);
        if rest.len() > 0 {
            assert(dashscope_run(Phase::Failed, t, e, s, rest) == (Phase::Failed, t, s));
        }
    }
}

/// A connection dropped right after the handshake ends the session with a
/// network error, whatever would have followed: the session never asks for
/// another connection.
pub proof fn lemma_dashscope_drop_is_final(rest: Seq<Incoming<DashScopeEvent>>)
    ensures
        dashscope_run(Phase::AwaitingAck, Seq::empty(), false, StepView::Continue, seq![Incoming::Close].add(rest))
            == (Phase::Failed, Seq::<char>::empty(), StepView::Failed(AsrErrorKind::Network, "WebSocket 连接被关闭"@)),
{
    let msgs = seq![Incoming::Close].add(rest);
    assert(msgs[0] == Incoming::<DashScopeEvent>::Close);
    assert(msgs.drop_first() =~= rest);
    let (t, e, s) = dashscope_next(Phase::AwaitingAck, Seq::empty(), false, msgs[0]);
    assert(s == StepView::Failed(AsrErrorKind::Network, "WebSocket 连接被关闭"@));
    assert(dashscope_run(Phase::AwaitingAck, Seq::empty(), false, StepView::Continue, msgs) == dashscope_run(
        Phase::Failed,
        t,
        e,
        s,
        rest,
    ));
}

} // verus!
