//! The recognition abstraction: results, errors, provider selection, and
//! the pieces that every provider session shares (audio chunking, message
//! classification, random identifiers).
use vstd::prelude::*;
use crate::config::AsrConfig;
use crate::dashscope::DashScopeAsr;
use crate::funasr::{secure_endpoint, FunAsr};
use crate::qwen::QwenAsr;
use crate::text::text_eq;

verus! {

/// The transcript of one recognition session.
#[derive(Debug, Clone)]
pub struct AsrResult {
    pub text: String,
    pub is_final: bool,
}

/// Why a recognition call failed.
#[derive(Debug, Clone)]
pub enum AsrError {
    /// Transport, connect or handshake failure.
    Network(String),
    /// Local serialization failure or unusable input.
    Encoding(String),
    /// An error reported by the remote service.
    Api(String),
    /// The selected provider is unknown or has no settings.
    Config(String),
}

/// The kind of an [`AsrError`], without its message.
#[derive(Debug, Clone, Copy, PartialEq, Eq, Structural)]
pub enum AsrErrorKind {
    Network,
    Encoding,
    Api,
    Config,
}

impl AsrError {
    pub open spec fn kind(&self) -> AsrErrorKind {
        match self {
            AsrError::Network(_) => AsrErrorKind::Network,
            AsrError::Encoding(_) => AsrErrorKind::Encoding,
            AsrError::Api(_) => AsrErrorKind::Api,
            AsrError::Config(_) => AsrErrorKind::Config,
        }
    }

    pub open spec fn message(&self) -> Seq<char> {
        match self {
            AsrError::Network(m) => m@,
            AsrError::Encoding(m) => m@,
            AsrError::Api(m) => m@,
            AsrError::Config(m) => m@,
        }
    }

    /// A human-readable description of the error.
    pub fn describe(&self) -> (r: String)
        ensures
            r@ == self.kind_label() + self.message(),
    {
        let mut out = String::new();
        match self {
            AsrError::Network(m) => {
                out.append("Network error: ");
                out.append(m.as_str());
            },
            AsrError::Encoding(m) => {
                out.append("Encoding error: ");
                out.append(m.as_str());
            },
            AsrError::Api(m) => {
                out.append("API error: ");
                out.append(m.as_str());
            },
            AsrError::Config(m) => {
                out.append("Configuration error: ");
                out.append(m.as_str());
            },
        }
        out
    }

    pub open spec fn kind_label(&self) -> Seq<char> {
        match self {
            AsrError::Network(_) => "Network error: "@,
            AsrError::Encoding(_) => "Encoding error: "@,
            AsrError::Api(_) => "API error: "@,
            AsrError::Config(_) => "Configuration error: "@,
        }
    }
}

/// One message read from a provider's socket, after the caller has decoded
/// a text frame into the provider's event type `E`.
#[derive(Debug, Clone)]
pub enum Incoming<E> {
    /// A text frame that decoded into an event.
    Event(E),
    /// A text frame that did not decode; the decoder's explanation.
    Unparsable(String),
    /// A close frame.
    Close,
    /// A transport error while reading.
    Failure(String),
    /// The stream ended without a close frame.
    Ended,
    /// Any other frame (binary, ping, pong).
    Other,
}

/// Whether a message ends the connection.
pub open spec fn ends_connection<E>(msg: Incoming<E>) -> bool {
    msg is Close || msg is Ended || msg is Failure
}

/// What the driver of a session does after handing it one message.
#[derive(Debug, Clone)]
pub enum Step {
    /// Read the next message.
    Continue,
    /// The service acknowledged the configuration: stream the audio and
    /// send the end-of-input signal, then read again.
    Ready,
    /// The session is over with this result.
    Finished(AsrResult),
    /// The session is over with this error.
    Failed(AsrError),
}

/// The phase of a provider session.
#[derive(Debug, Clone, Copy, PartialEq, Eq, Structural)]
pub enum Phase {
    AwaitingAck,
    Collecting,
    Finished,
    Failed,
}

/// A view of a [`Step`] over plain values.
pub ghost enum StepView {
    Continue,
    Ready,
    Finished(Seq<char>),
    Failed(AsrErrorKind, Seq<char>),
}

impl Step {
    pub open spec fn view(&self) -> StepView {
        match self {
            Step::Continue => StepView::Continue,
            Step::Ready => StepView::Ready,
            Step::Finished(r) => StepView::Finished(r.text@),
            Step::Failed(e) => StepView::Failed(e.kind(), e.message()),
        }
    }

    /// Whether the step ends the session.
    pub open spec fn is_terminal(&self) -> bool {
        self is Finished || self is Failed
    }
}

/// A finished step carrying `text` as a final result.
pub fn finished(text: String) -> (r: Step)
    ensures
        r@ == StepView::Finished(text@),
        r matches Step::Finished(res) && res.is_final,
{
    Step::Finished(AsrResult { text, is_final: true })
}

/// The phase that a step leaves the session in.
pub open spec fn phase_after(s: StepView, current: Phase) -> Phase {
    match s {
        StepView::Continue => current,
        StepView::Ready => Phase::Collecting,
        StepView::Finished(_) => Phase::Finished,
        StepView::Failed(_, _) => Phase::Failed,
    }
}

/// The message given when a connection ends before any transcript arrived.
pub open spec fn closed_early_message() -> Seq<char> {
    "WebSocket 连接被关闭"@
}

/// How a session that is collecting results ends when the connection closes
/// or the stream ends: a transcript captured so far is the result; without
/// one the close is a network failure.
pub open spec fn close_outcome(text: Seq<char>) -> StepView {
    if text.len() == 0 {
        StepView::Failed(AsrErrorKind::Network, closed_early_message())
    } else {
        StepView::Finished(text)
    }
}

pub fn close_step(text: &String) -> (r: Step)
    ensures
        r@ == close_outcome(text@),
        r matches Step::Finished(res) ==> res.is_final,
{
    if text.as_str().unicode_len() == 0 {
        Step::Failed(AsrError::Network(String::from_str("WebSocket 连接被关闭")))
    } else {
        finished(text.clone())
    }
}

// ---------------------------------------------------------------- chunking

/// Chunk `i` of `data` cut into pieces of `size` bytes; the last may be shorter.
pub open spec fn chunk_of(data: Seq<u8>, size: nat, i: int) -> Seq<u8> {
    let lo = i * size;
    let hi = if (i + 1) * size <= data.len() { (i + 1) * size } else { data.len() as int };
    data.subrange(lo, hi)
}

/// Whether `count` pieces of `size` bytes cover `n` bytes with none left empty.
pub open spec fn covers(n: nat, size: nat, count: nat) -> bool {
    count * size >= n && (count == 0 || (count - 1) * size < n)
}

/// Cuts audio into consecutive chunks of `size` bytes, the last one possibly
/// shorter.
pub fn audio_chunks(data: &Vec<u8>, size: usize) -> (r: Vec<Vec<u8>>)
    requires
        size > 0,
    ensures
        covers(data@.len(), size as nat, r@.len()),
        forall|i: int| 0 <= i < r@.len() ==> #[trigger] r@[i]@ == chunk_of(data@, size as nat, i),
{
    let n = data.len();
    let mut out: Vec<Vec<u8>> = Vec::new();
    let mut start: usize = 0;
    proof {
        assert(out@.len() * size == 0) by (nonlinear_arith)
            requires
                out@.len() == 0,
        ;
    }
    while start < n
        invariant
            n == data@.len(),
            size > 0,
            start <= n,
            start < n ==> start as int == out@.len() * size,
            start == n ==> covers(n as nat, size as nat, out@.len()),
            out@.len() > 0 ==> (out@.len() - 1) * size < n,
            forall|i: int| 0 <= i < out@.len() ==> #[trigger] out@[i]@ == chunk_of(data@, size as nat, i),
        decreases n - start,
    {
        let ghost k = out@.len();
        let end: usize = if n - start > size { start + size } else { n };
        let mut piece: Vec<u8> = Vec::new();
        let mut j: usize = start;
        while j < end
            invariant
                start <= j <= end <= n,
                n == data@.len(),
                piece@ == data@.subrange(start as int, j as int),
            decreases end - j,
        {
            piece.push(data[j]);
            proof {
                assert(piece@ =~= data@.subrange(start as int, j + 1));
            }
            j = j + 1;
        }
        proof {
            assert((k + 1) * size == k * size + size) by (nonlinear_arith);
            assert(piece@ == chunk_of(data@, size as nat, k as int));
        }
        let ghost before = out@;
        out.push(piece);
        proof {
            assert forall|i: int| 0 <= i < out@.len() implies #[trigger] out@[i]@ == chunk_of(
                data@,
                size as nat,
                i,
            ) by {
                if i < k {
                    assert(out@[i] == before[i]);
                }
            }
        }
        start = end;
    }
    proof {
        if n == 0 {
            assert(covers(0, size as nat, 0));
        }
    }
    out
}

// ------------------------------------------------------------ identifiers

pub open spec fn is_lower_hex(c: char) -> bool {
    ('0' <= c && c <= '9') || ('a' <= c && c <= 'f')
}

pub open spec fn is_hex_text(s: Seq<char>) -> bool {
    forall|i: int| 0 <= i < s.len() ==> is_lower_hex(#[trigger] s[i])
}

/// A UUID in its hyphenated lowercase form, `8-4-4-4-12` hex digits.
pub open spec fn is_hyphenated_uuid(s: Seq<char>) -> bool {
    &&& s.len() == 36
    &&& forall|i: int|
        0 <= i < 36 ==> if i == 8 || i == 13 || i == 18 || i == 23 {
            #[trigger] s[i] == '-'
        } else {
            is_lower_hex(s[i])
        }
}

/// Relies on uuid::Uuid::new_v4 and the Display impl of Uuid: a random
/// version-4 UUID, written in the hyphenated lowercase form, whose version
/// digit is `4`.
#[verifier::external_body]
fn random_uuid() -> (r: String)
    ensures
        is_hyphenated_uuid(r@),
        r@[14] == '4',
{
    uuid::Uuid::new_v4().to_string()
}

/// The 32 hex digits of a hyphenated UUID, without its hyphens.
pub open spec fn undashed(s: Seq<char>) -> Seq<char> {
    s.subrange(0, 8) + s.subrange(9, 13) + s.subrange(14, 18) + s.subrange(19, 23) + s.subrange(
        24,
        36,
    )
}

/// Drops the four hyphens of a hyphenated UUID.
pub fn compact_uuid(s: &str) -> (r: String)
    requires
        is_hyphenated_uuid(s@),
    ensures
        r@ == undashed(s@),
        r@.len() == 32,
        is_hex_text(r@),
{
    let mut out = String::new();
    out.append(s.substring_char(0, 8));
    out.append(s.substring_char(9, 13));
    out.append(s.substring_char(14, 18));
    out.append(s.substring_char(19, 23));
    out.append(s.substring_char(24, 36));
    proof {
        let u = undashed(s@);
        assert(out@ =~= u);
        assert forall|i: int| 0 <= i < u.len() implies is_lower_hex(#[trigger] u[i]) by {
            if i < 8 {
                assert(u[i] == s@[i]);
            } else if i < 12 {
                assert(u[i] == s@[i + 1]);
            } else if i < 16 {
                assert(u[i] == s@[i + 2]);
            } else if i < 20 {
                assert(u[i] == s@[i + 3]);
            } else {
                assert(u[i] == s@[i + 4]);
            }
        }
    }
    out
}

/// A fresh task identifier: 32 random lowercase hex digits.
pub fn new_task_id() -> (r: String)
    ensures
        r@.len() == 32,
        is_hex_text(r@),
{
    let u = random_uuid();
    compact_uuid(u.as_str())
}

/// A fresh event identifier: `event_` followed by 20 random lowercase hex digits.
pub fn new_event_id() -> (r: String)
    ensures
        r@.len() == 26,
        r@.subrange(0, 6) == "event_"@,
        is_hex_text(r@.subrange(6, 26)),
{
    let u = random_uuid();
    let hex = compact_uuid(u.as_str());
    let mut out = String::from_str("event_");
    out.append(hex.as_str().substring_char(0, 20));
    proof {
        reveal_strlit("event_");
        assert(out@.subrange(0, 6) =~= "event_"@);
        assert(out@.subrange(6, 26) =~= hex@.subrange(0, 20));
    }
    out
}

// ------------------------------------------------------------ selection

/// The recognition client chosen by configuration.
#[derive(Debug, Clone)]
pub enum AsrProvider {
    DashScope(DashScopeAsr),
    Qwen(QwenAsr),
    FunAsr(FunAsr),
}

/// What selecting a provider gives for a configuration: the client that the
/// provider name selects, built from that provider's settings; `None` where
/// the name is unknown or its settings are missing.
pub open spec fn selected(config: AsrConfig, p: AsrProvider) -> bool {
    let name = config.provider@;
    if name == "DashScope"@ {
        config.dashscope matches Some(c) && p matches AsrProvider::DashScope(x) && x.api_key()
            == c.api_key@ && x.model() == c.model@
    } else if name == "Qwen"@ {
        config.qwen matches Some(c) && p matches AsrProvider::Qwen(x) && x.api_key() == c.api_key@
            && x.model() == c.model@
    } else if name == "FunASR"@ {
        config.funasr matches Some(c) && p matches AsrProvider::FunAsr(x) && x.endpoint()
            == secure_endpoint(c.endpoint@)
    } else {
        false
    }
}

/// Whether the configuration names a known provider whose settings are present.
pub open spec fn is_configured(config: AsrConfig) -> bool {
    let name = config.provider@;
    (name == "DashScope"@ && config.dashscope is Some) || (name == "Qwen"@ && config.qwen is Some)
        || (name == "FunASR"@ && config.funasr is Some)
}

/// Builds the recognition client that the configuration selects. An unknown
/// provider, or one without settings, is a configuration error.
pub fn create_asr_service(config: &AsrConfig) -> (r: Result<AsrProvider, AsrError>)
    ensures
        is_configured(*config) <==> r is Ok,
        r matches Ok(p) ==> selected(*config, p),
        r matches Err(e) ==> e.kind() == AsrErrorKind::Config,
{
    proof {
        reveal_strlit("DashScope");
        reveal_strlit("Qwen");
        reveal_strlit("FunASR");
        assert("DashScope"@.len() != "Qwen"@.len());
        assert("DashScope"@.len() != "FunASR"@.len());
        assert("Qwen"@.len() != "FunASR"@.len());
    }
    let name = config.provider.as_str();
    if text_eq(name, "DashScope") {
        match &config.dashscope {
            Some(c) => Ok(AsrProvider::DashScope(DashScopeAsr::new(c.api_key.clone(), c.model.clone()))),
            None => Err(AsrError::Config(String::from_str("DashScope settings are missing"))),
        }
    } else if text_eq(name, "Qwen") {
        match &config.qwen {
            Some(c) => Ok(AsrProvider::Qwen(QwenAsr::new(c.api_key.clone(), c.model.clone()))),
            None => Err(AsrError::Config(String::from_str("Qwen settings are missing"))),
        }
    } else if text_eq(name, "FunASR") {
        match &config.funasr {
            Some(c) => Ok(AsrProvider::FunAsr(FunAsr::new(c.endpoint.clone()))),
            None => Err(AsrError::Config(String::from_str("FunASR settings are missing"))),
        }
    } else {
        Err(AsrError::Config(String::from_str("unknown recognition provider")))
    }
}

} // verus!
