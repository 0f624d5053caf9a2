//! Local streaming recognition over TLS: a JSON start descriptor, binary
//! audio frames of about 200 ms, an end descriptor, then messages whose
//! `text` is the whole transcript so far, until one is final.
use vstd::prelude::*;
use crate::asr::{
    audio_chunks, chunk_of, close_outcome, close_step, closed_early_message, covers, finished,
    phase_after, AsrError, AsrErrorKind, Incoming, Phase, Step, StepView,
};
use crate::text::{replace_all, replaced, text_eq};

verus! {

/// Client settings for a local streaming recognition server.
#[derive(Debug, Clone)]
pub struct FunAsr {
    endpoint: String,
}

/// The secure WebSocket form of an endpoint: every `http://`, then every
/// `https://`, then every `ws://` becomes `wss://`.
pub open spec fn secure_endpoint(e: Seq<char>) -> Seq<char> {
    replaced(replaced(replaced(e, "http://"@, "wss://"@), "https://"@, "wss://"@), "ws://"@, "wss://"@)
}

impl FunAsr {
    pub fn new(endpoint: String) -> (r: FunAsr)
        ensures
            r.endpoint() == secure_endpoint(endpoint@),
    {
        proof {
            reveal_strlit("http://");
            reveal_strlit("https://");
            reveal_strlit("ws://");
        }
        let a = replace_all(endpoint.as_str(), "http://", "wss://");
        let b = replace_all(a.as_str(), "https://", "wss://");
        let c = replace_all(b.as_str(), "ws://", "wss://");
        FunAsr { endpoint: c }
    }

    pub closed spec fn endpoint(&self) -> Seq<char> {
        self.endpoint@
    }

    /// The address to connect to.
    pub fn endpoint_str(&self) -> (r: &str)
        ensures
            r@ == self.endpoint(),
    {
        self.endpoint.as_str()
    }
}

/// Bytes of 16-bit audio in 200 ms at `sample_rate`.
pub fn funasr_chunk_size(sample_rate: u32) -> (r: usize)
    ensures
        r as int == sample_rate as int * 2 / 5,
{
    ((sample_rate as u64) * 2 / 5) as usize
}

/// The binary frames that carry `audio`: 200 ms each at `sample_rate`.
pub fn funasr_frames(audio: &Vec<u8>, sample_rate: u32) -> (r: Result<Vec<Vec<u8>>, AsrError>)
    ensures
        sample_rate < 3 <==> r is Err,
        r matches Err(e) ==> e.kind() == AsrErrorKind::Encoding,
        r matches Ok(frames) ==> {
            &&& covers(audio@.len(), sample_rate as nat * 2 / 5, frames@.len())
            &&& forall|i: int|
                0 <= i < frames@.len() ==> #[trigger] frames@[i]@ == chunk_of(
                    audio@,
                    sample_rate as nat * 2 / 5,
                    i,
                )
        },
{
    let size = funasr_chunk_size(sample_rate);
    if size == 0 {
        return Err(AsrError::Encoding(String::from_str("sample rate too low to stream")));
    }
    Ok(audio_chunks(audio, size))
}

/// One server message, as decoded from a text frame.
#[derive(Debug, Clone)]
pub struct FunAsrEvent {
    /// `text`: the whole transcript so far.
    pub text: Option<String>,
    /// `is_final`
    pub is_final: bool,
    /// `mode`
    pub mode: Option<String>,
}

/// Whether a message is the last the server sends.
pub open spec fn is_last_message(ev: FunAsrEvent) -> bool {
    ev.is_final || (ev.mode matches Some(m) && m@ == "offline"@)
}

/// The session's transition. Messages that do not decode are skipped; a
/// transport error after some transcript is tolerated like a close.
pub open spec fn funasr_next(text: Seq<char>, msg: Incoming<FunAsrEvent>) -> (Seq<char>, StepView) {
    match msg {
        Incoming::Event(ev) => {
            let t = match ev.text {
                Some(s) => s@,
                None => text,
            };
            if is_last_message(ev) {
                (t, StepView::Finished(t))
            } else {
                (t, StepView::Continue)
            }
        },
        Incoming::Unparsable(_) => (text, StepView::Continue),
        Incoming::Close => (text, close_outcome(text)),
        Incoming::Ended => (text, close_outcome(text)),
        Incoming::Failure(e) => if text.len() == 0 {
            (text, StepView::Failed(AsrErrorKind::Network, e@))
        } else {
            (text, StepView::Finished(text))
        },
        Incoming::Other => (text, StepView::Continue),
    }
}

/// The state of one recognition call. No acknowledgment is awaited: the
/// session collects from the start.
#[derive(Debug)]
pub struct FunAsrSession {
    phase: Phase,
    text: String,
}

impl FunAsrSession {
    pub closed spec fn phase(&self) -> Phase {
        self.phase
    }

    pub closed spec fn text(&self) -> Seq<char> {
        self.text@
    }

    pub fn new() -> (r: FunAsrSession)
        ensures
            r.phase() == Phase::Collecting,
            r.text().len() == 0,
    {
        FunAsrSession { phase: Phase::Collecting, text: String::new() }
    }

    pub fn current_phase(&self) -> (r: Phase)
        ensures
            r == self.phase(),
    {
        self.phase
    }

    /// Takes one message read from the socket.
    pub fn on_message(&mut self, msg: Incoming<FunAsrEvent>) -> (r: Step)
        requires
            old(self).phase() == Phase::Collecting,
        ensures
            (final(self).text(), r@) == funasr_next(old(self).text(), msg),
            r matches Step::Finished(res) ==> res.is_final,
            final(self).phase() == phase_after(r@, old(self).phase()),
    {
        proof {
            reveal_strlit("offline");
        }
        let r = match msg {
            Incoming::Event(ev) => {
                if let Some(t) = ev.text {
                    self.text = t;
                }
                let offline = match &ev.mode {
                    Some(m) => text_eq(m.as_str(), "offline"),
                    None => false,
                };
                if ev.is_final || offline {
                    finished(self.text.clone())
                } else {
                    Step::Continue
                }
            },
            Incoming::Unparsable(_) => Step::Continue,
            Incoming::Close => close_step(&self.text),
            Incoming::Ended => close_step(&self.text),
            Incoming::Failure(e) => {
                if self.text.as_str().unicode_len() == 0 {
                    Step::Failed(AsrError::Network(e))
                } else {
                    finished(self.text.clone())
                }
            },
            Incoming::Other => Step::Continue,
        };
        self.phase = match r {
            Step::Continue => self.phase,
            Step::Ready => Phase::Collecting,
            Step::Finished(_) => Phase::Finished,
            Step::Failed(_) => Phase::Failed,
        };
        r
    }
}

/// The session driven over a sequence of messages until a step ends it.
pub open spec fn funasr_run(phase: Phase, text: Seq<char>, last: StepView, msgs: Seq<Incoming<FunAsrEvent>>) -> (
    Phase,
    Seq<char>,
    StepView,
)
    decreases msgs.len(),
{
    if msgs.len() == 0 || phase == Phase::Finished || phase == Phase::Failed {
        (phase, text, last)
    } else {
        let (t, s) = funasr_next(text, msgs[0]);
        funasr_run(phase_after(s, phase), t, s, msgs.drop_first())
    }
}

/// A connection dropped before any transcript ends the session with a
/// network error, whatever would have followed.
pub proof fn lemma_funasr_drop_is_final(rest: Seq<Incoming<FunAsrEvent>>)
    ensures
        funasr_run(Phase::Collecting, Seq::empty(), StepView::Continue, seq![Incoming::Close].add(rest))
            == (Phase::Failed, Seq::<char>::empty(), StepView::Failed(AsrErrorKind::Network, closed_early_message())),
{
    let msgs = seq![Incoming::Close].add(rest);
    assert(msgs[0] == Incoming::<FunAsrEvent>::Close);
    assert(msgs.drop_first() =~= rest);
    let (t, s) = funasr_next(Seq::empty(), msgs[0]);
    assert(funasr_run(Phase::Collecting, Seq::empty(), StepView::Continue, msgs) == funasr_run(
        Phase::Failed,
        t,
        s,
        rest,
    ));
}

} // verus!
