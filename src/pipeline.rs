//! The processing pipeline: the recording flag, the amplitude gate, audio
//! encoding, and the sequence recognize → refine → emit as a state machine
//! that its driver feeds with the outcome of each outside step.
use vstd::prelude::*;
use crate::asr::{
    create_asr_service, is_configured, selected, AsrError, AsrErrorKind, AsrProvider, AsrResult,
};
use crate::config::AppConfig;

verus! {

/// Why processing a recording failed.
#[derive(Debug, Clone)]
pub enum PipelineError {
    Audio(String),
    Asr(AsrError),
    Llm(String),
    Output(String),
    Other(String),
}

impl PipelineError {
    pub open spec fn label(&self) -> Seq<char> {
        match self {
            PipelineError::Audio(_) => "Audio error: "@,
            PipelineError::Asr(_) => "ASR error: "@,
            PipelineError::Llm(_) => "LLM error: "@,
            PipelineError::Output(_) => "Output error: "@,
            PipelineError::Other(_) => "Pipeline error: "@,
        }
    }

    pub open spec fn detail(&self) -> Seq<char> {
        match self {
            PipelineError::Audio(m) => m@,
            PipelineError::Asr(e) => e.kind_label() + e.message(),
            PipelineError::Llm(m) => m@,
            PipelineError::Output(m) => m@,
            PipelineError::Other(m) => m@,
        }
    }

    /// The message shown to the user for this error.
    pub fn describe(&self) -> (r: String)
        ensures
            r@ == self.label() + self.detail(),
    {
        match self {
            PipelineError::Audio(m) => {
                let mut out = String::from_str("Audio error: ");
                out.append(m.as_str());
                out
            },
            PipelineError::Asr(e) => {
                let mut out = String::from_str("ASR error: ");
                let d = e.describe();
                out.append(d.as_str());
                proof {
                    assert(out@ =~= self.label() + self.detail());
                }
                out
            },
            PipelineError::Llm(m) => {
                let mut out = String::from_str("LLM error: ");
                out.append(m.as_str());
                out
            },
            PipelineError::Output(m) => {
                let mut out = String::from_str("Output error: ");
                out.append(m.as_str());
                out
            },
            PipelineError::Other(m) => {
                let mut out = String::from_str("Pipeline error: ");
                out.append(m.as_str());
                out
            },
        }
    }
}

// ------------------------------------------------------------------ gating

/// The magnitude of a 16-bit sample.
pub open spec fn magnitude(s: i16) -> nat {
    if s < 0 {
        (-(s as int)) as nat
    } else {
        s as nat
    }
}

/// The largest magnitude in a buffer; 0 for an empty one.
pub open spec fn peak(s: Seq<i16>) -> nat
    decreases s.len(),
{
    if s.len() == 0 {
        0
    } else {
        let p = peak(s.drop_last());
        let m = magnitude(s.last());
        if m > p {
            m
        } else {
            p
        }
    }
}

/// The verdict of the amplitude gate.
#[derive(Debug, Clone, Copy, PartialEq, Eq, Structural)]
pub enum Gate {
    /// Peak below 0.001 of full scale: most likely no microphone permission.
    Silent,
    /// Peak below 0.05 of full scale: too quiet to hold speech.
    TooQuiet,
    /// Loud enough to send for recognition.
    Speech,
}

/// Full scale of a 16-bit sample.
pub const FULL_SCALE: u32 = 32767;

/// The verdict for a peak, where 32767 is the loudest sample value.
pub open spec fn gate_of(peak: nat) -> Gate {
    if peak * 1000 < 32767 {
        Gate::Silent
    } else if peak * 20 < 32767 {
        Gate::TooQuiet
    } else {
        Gate::Speech
    }
}

/// The largest sample magnitude of the buffer.
pub fn peak_amplitude(samples: &Vec<i16>) -> (r: u32)
    ensures
        r == peak(samples@),
{
    let mut best: u32 = 0;
    let mut i: usize = 0;
    while i < samples.len()
        invariant
            i <= samples@.len(),
            best == peak(samples@.subrange(0, i as int)),
            best <= 32768,
        decreases samples@.len() - i,
    {
        let s = samples[i];
        let m: u32 = if s < 0 { (-(s as i32)) as u32 } else { s as u32 };
        proof {
            let pre = samples@.subrange(0, i + 1);
            assert(pre.drop_last() =~= samples@.subrange(0, i as int));
            assert(pre.last() == s);
        }
        if m > best {
            best = m;
        }
        i = i + 1;
    }
    proof {
        assert(samples@.subrange(0, i as int) =~= samples@);
    }
    best
}

/// Decides whether a buffer is loud enough to be worth recognizing.
pub fn amplitude_gate(samples: &Vec<i16>) -> (r: Gate)
    ensures
        r == gate_of(peak(samples@)),
{
    let p = peak_amplitude(samples) as u64;
    if p * 1000 < FULL_SCALE as u64 {
        Gate::Silent
    } else if p * 20 < FULL_SCALE as u64 {
        Gate::TooQuiet
    } else {
        Gate::Speech
    }
}

// ---------------------------------------------------------------- encoding

/// The two little-endian bytes of sample `i` in raw 16-bit audio.
pub open spec fn pcm_bytes_of(s: Seq<i16>, bytes: Seq<u8>) -> bool {
    &&& bytes.len() == 2 * s.len()
    &&& forall|i: int|
        0 <= i < s.len() ==> {
            &&& #[trigger] bytes[2 * i] as int == (s[i] as u16) as int % 256
            &&& bytes[2 * i + 1] as int == (s[i] as u16) as int / 256
        }
}

/// Raw 16-bit little-endian audio.
pub fn encode_pcm(samples: &Vec<i16>) -> (r: Vec<u8>)
    ensures
        pcm_bytes_of(samples@, r@),
{
    let mut out: Vec<u8> = Vec::new();
    let mut i: usize = 0;
    while i < samples.len()
        invariant
            i <= samples@.len(),
            pcm_bytes_of(samples@.subrange(0, i as int), out@),
        decreases samples@.len() - i,
    {
        let v = samples[i] as u16;
        let ghost before = out@;
        out.push((v % 256) as u8);
        out.push((v / 256) as u8);
        proof {
            let pre = samples@.subrange(0, i + 1);
            assert forall|j: int| 0 <= j < pre.len() implies {
                &&& #[trigger] out@[2 * j] as int == (pre[j] as u16) as int % 256
                &&& out@[2 * j + 1] as int == (pre[j] as u16) as int / 256
            } by {
                if j < i {
                    assert(pre[j] == samples@.subrange(0, i as int)[j]);
                    assert(out@[2 * j] == before[2 * j]);
                    assert(out@[2 * j + 1] == before[2 * j + 1]);
                }
            }
        }
        i = i + 1;
    }
    proof {
        assert(samples@.subrange(0, i as int) =~= samples@);
    }
    out
}

// ----------------------------------------------------------- processing

/// What the driver of a processing run does next.
#[derive(Debug)]
pub enum PipelineAction {
    /// Run a recognition session and report its outcome.
    Recognize { provider: AsrProvider, audio: Vec<u8>, sample_rate: u32 },
    /// Ask the refinement service to improve the text and report its outcome.
    Refine(String),
    /// Deliver the text to the focused application and report the outcome.
    Emit { text: String, restore_clipboard: bool, paste_delay_ms: u64, origin_pid: Option<i32> },
    /// The run is over.
    Complete(Result<String, PipelineError>),
}

/// The stage a processing run waits in.
#[derive(Debug, Clone, Copy, PartialEq, Eq, Structural)]
pub enum Stage {
    Recognizing,
    Refining,
    Emitting,
    Done,
}

/// One run of processing a finished recording, from a configuration
/// snapshot taken when it starts.
#[derive(Debug)]
pub struct ProcessRun {
    stage: Stage,
    text: String,
    refine: bool,
    restore_clipboard: bool,
    paste_delay_ms: u64,
    origin_pid: Option<i32>,
}

pub open spec fn silent_message() -> Seq<char> {
    "录音无声音，请检查麦克风权限是否已授予当前应用"@
}

pub open spec fn quiet_message() -> Seq<char> {
    "录音音量太低，请靠近麦克风或大声说话"@
}

/// Whether `a` completes the run with the text `t`.
pub open spec fn completes_with(a: PipelineAction, t: Seq<char>) -> bool {
    a matches PipelineAction::Complete(Ok(s)) && s@ == t
}

/// Whether `a` emits the text `t` with the run's output settings.
pub open spec fn emits(run: ProcessRun, a: PipelineAction, t: Seq<char>) -> bool {
    a matches PipelineAction::Emit { text, restore_clipboard, paste_delay_ms, origin_pid } && text@ == t
        && restore_clipboard == run.restore_clipboard() && paste_delay_ms == run.paste_delay_ms()
        && origin_pid == run.origin_pid()
}

/// What follows once the final text is known: emit it, or finish at once
/// when it is empty.
pub open spec fn after_text(run: ProcessRun, a: PipelineAction, t: Seq<char>) -> bool {
    if t.len() == 0 {
        completes_with(a, t) && run.stage() == Stage::Done
    } else {
        emits(run, a, t) && run.stage() == Stage::Emitting && run.text() == t
    }
}

/// How a run starts: with the output settings of the snapshot, an empty
/// buffer completes with empty text, a silent or too quiet buffer fails,
/// and a loud enough one is sent as raw 16-bit audio to the selected
/// provider, or fails when no provider is configured.
pub open spec fn started(
    config: AppConfig,
    samples: Seq<i16>,
    sample_rate: u32,
    origin_pid: Option<i32>,
    run: ProcessRun,
    a: PipelineAction,
) -> bool {
    &&& run.refine() == config.llm.enabled
    &&& run.restore_clipboard() == config.output.restore_clipboard
    &&& run.paste_delay_ms() == config.output.paste_delay_ms
    &&& run.origin_pid() == origin_pid
    &&& if samples.len() == 0 {
        completes_with(a, Seq::empty()) && run.stage() == Stage::Done
    } else if gate_of(peak(samples)) == Gate::Silent {
        &&& run.stage() == Stage::Done
        &&& a matches PipelineAction::Complete(Err(PipelineError::Other(m)))
        &&& m@ == silent_message()
    } else if gate_of(peak(samples)) == Gate::TooQuiet {
        &&& run.stage() == Stage::Done
        &&& a matches PipelineAction::Complete(Err(PipelineError::Other(m)))
        &&& m@ == quiet_message()
    } else if !is_configured(config.asr) {
        &&& run.stage() == Stage::Done
        &&& a matches PipelineAction::Complete(Err(PipelineError::Asr(e)))
        &&& e.kind() == AsrErrorKind::Config
    } else {
        &&& run.stage() == Stage::Recognizing
        &&& a matches PipelineAction::Recognize { provider, audio, sample_rate: rate }
        &&& selected(config.asr, provider)
        &&& pcm_bytes_of(samples, audio@)
        &&& rate == sample_rate
    }
}

impl ProcessRun {
    pub closed spec fn stage(&self) -> Stage {
        self.stage
    }

    pub closed spec fn text(&self) -> Seq<char> {
        self.text@
    }

    pub closed spec fn refine(&self) -> bool {
        self.refine
    }

    pub closed spec fn restore_clipboard(&self) -> bool {
        self.restore_clipboard
    }

    pub closed spec fn paste_delay_ms(&self) -> u64 {
        self.paste_delay_ms
    }

    pub closed spec fn origin_pid(&self) -> Option<i32> {
        self.origin_pid
    }

    pub fn current_stage(&self) -> (r: Stage)
        ensures
            r == self.stage(),
    {
        self.stage
    }

    /// Starts processing the samples of a finished recording. An empty
    /// buffer gives an empty text at once; a silent or too quiet one fails
    /// before any network work; otherwise the configured provider is asked
    /// to recognize the raw 16-bit audio.
    pub fn start(config: &AppConfig, samples: &Vec<i16>, sample_rate: u32, origin_pid: Option<i32>) -> (r: (ProcessRun, PipelineAction))
        ensures
            started(*config, samples@, sample_rate, origin_pid, r.0, r.1),
    {
        let mut run = ProcessRun {
            stage: Stage::Done,
            text: String::new(),
            refine: config.llm.enabled,
            restore_clipboard: config.output.restore_clipboard,
            paste_delay_ms: config.output.paste_delay_ms,
            origin_pid,
        };
        if samples.len() == 0 {
            return (run, PipelineAction::Complete(Ok(String::new())));
        }
        match amplitude_gate(samples) {
            Gate::Silent => {
                let m = String::from_str(
                    "录音无声音，请检查麦克风权限是否已授予当前应用",
                );
                return (run, PipelineAction::Complete(Err(PipelineError::Other(m))));
            },
            Gate::TooQuiet => {
                let m = String::from_str(
                    "录音音量太低，请靠近麦克风或大声说话",
                );
                return (run, PipelineAction::Complete(Err(PipelineError::Other(m))));
            },
            Gate::Speech => {},
        }
        let audio = encode_pcm(samples);
        match create_asr_service(&config.asr) {
            Ok(provider) => {
                run.stage = Stage::Recognizing;
                (run, PipelineAction::Recognize { provider, audio, sample_rate })
            },
            Err(e) => (run, PipelineAction::Complete(Err(PipelineError::Asr(e)))),
        }
    }

    /// Emits `text` when it is not empty, else completes with it.
    fn deliver(&mut self, text: String) -> (r: PipelineAction)
        ensures
            after_text(*final(self), r, text@),
            final(self).refine() == old(self).refine(),
            final(self).restore_clipboard() == old(self).restore_clipboard(),
            final(self).paste_delay_ms() == old(self).paste_delay_ms(),
            final(self).origin_pid() == old(self).origin_pid(),
    {
        if text.as_str().unicode_len() == 0 {
            self.stage = Stage::Done;
            PipelineAction::Complete(Ok(text))
        } else {
            self.stage = Stage::Emitting;
            self.text = text.clone();
            PipelineAction::Emit {
                text,
                restore_clipboard: self.restore_clipboard,
                paste_delay_ms: self.paste_delay_ms,
                origin_pid: self.origin_pid,
            }
        }
    }

    /// Takes the outcome of recognition. Its error ends the run unchanged;
    /// a transcript goes to refinement when that is enabled and the
    /// transcript is not empty, else straight to output.
    pub fn on_recognized(&mut self, outcome: Result<AsrResult, AsrError>) -> (r: PipelineAction)
        requires
            old(self).stage() == Stage::Recognizing,
        ensures
            final(self).refine() == old(self).refine(),
            final(self).restore_clipboard() == old(self).restore_clipboard(),
            final(self).paste_delay_ms() == old(self).paste_delay_ms(),
            final(self).origin_pid() == old(self).origin_pid(),
            match outcome {
                Err(err) => {
                    &&& final(self).stage() == Stage::Done
                    &&& r matches PipelineAction::Complete(Err(PipelineError::Asr(e)))
                    &&& e == err
                },
                Ok(res) => if old(self).refine() && res.text@.len() > 0 {
                    &&& final(self).stage() == Stage::Refining
                    &&& final(self).text() == res.text@
                    &&& r matches PipelineAction::Refine(t)
                    &&& t@ == res.text@
                } else {
                    after_text(*final(self), r, res.text@)
                },
            },
    {
        match outcome {
            Err(e) => {
                self.stage = Stage::Done;
                PipelineAction::Complete(Err(PipelineError::Asr(e)))
            },
            Ok(res) => {
                if self.refine && res.text.as_str().unicode_len() > 0 {
                    self.stage = Stage::Refining;
                    self.text = res.text.clone();
                    PipelineAction::Refine(res.text)
                } else {
                    self.deliver(res.text)
                }
            },
        }
    }

    /// Takes the outcome of refinement, which is best effort: on failure
    /// the transcript goes on unrefined.
    pub fn on_refined(&mut self, outcome: Result<String, String>) -> (r: PipelineAction)
        requires
            old(self).stage() == Stage::Refining,
        ensures
            final(self).restore_clipboard() == old(self).restore_clipboard(),
            final(self).paste_delay_ms() == old(self).paste_delay_ms(),
            final(self).origin_pid() == old(self).origin_pid(),
            outcome matches Ok(t) ==> after_text(*final(self), r, t@),
            outcome is Err ==> after_text(*final(self), r, old(self).text()),
    {
        match outcome {
            Ok(t) => self.deliver(t),
            Err(_) => {
                let t = self.text.clone();
                self.deliver(t)
            },
        }
    }

    /// Takes the outcome of output and ends the run with the delivered text,
    /// or with the output error.
    pub fn on_emitted(&mut self, outcome: Result<(), String>) -> (r: PipelineAction)
        requires
            old(self).stage() == Stage::Emitting,
        ensures
            final(self).stage() == Stage::Done,
            match outcome {
                Ok(()) => completes_with(r, old(self).text()),
                Err(m) => r matches PipelineAction::Complete(Err(PipelineError::Output(e))) && e@ == m@,
            },
    {
        self.stage = Stage::Done;
        match outcome {
            Ok(()) => PipelineAction::Complete(Ok(self.text.clone())),
            Err(m) => PipelineAction::Complete(Err(PipelineError::Output(m))),
        }
    }
}

// ---------------------------------------------------------------- recording

/// The voice pipeline: the configuration it reads and whether a recording
/// is in progress.
#[derive(Debug)]
pub struct VoicePipeline {
    config: AppConfig,
    recording: bool,
}

impl VoicePipeline {
    pub closed spec fn is_recording(&self) -> bool {
        self.recording
    }

    pub closed spec fn config(&self) -> AppConfig {
        self.config
    }

    /// An idle pipeline with this configuration.
    pub fn new(config: AppConfig) -> (r: VoicePipeline)
        ensures
            !r.is_recording(),
            r.config() == config,
    {
        VoicePipeline { config, recording: false }
    }

    pub fn recording(&self) -> (r: bool)
        ensures
            r == self.is_recording(),
    {
        self.recording
    }

    /// The configuration that the next run will read.
    pub fn config_ref(&self) -> (r: &AppConfig)
        ensures
            *r == self.config(),
    {
        &self.config
    }

    /// Replaces the configuration; a run already started keeps its snapshot.
    pub fn set_config(&mut self, config: AppConfig)
        ensures
            final(self).config() == config,
            final(self).is_recording() == old(self).is_recording(),
    {
        self.config = config;
    }

    /// Moves from idle to recording. Returns whether capture must start: a
    /// second start while recording changes nothing.
    pub fn start_recording(&mut self) -> (r: bool)
        ensures
            final(self).is_recording(),
            r == !old(self).is_recording(),
            final(self).config() == old(self).config(),
    {
        if self.recording {
            false
        } else {
            self.recording = true;
            true
        }
    }

    /// Takes the outcome of starting the capture device after
    /// `start_recording` asked for it: on failure the pipeline is idle again
    /// and the failure is an audio error.
    pub fn capture_started(&mut self, outcome: Result<(), String>) -> (r: Result<(), PipelineError>)
        ensures
            final(self).config() == old(self).config(),
            match outcome {
                Ok(()) => r is Ok && final(self).is_recording() == old(self).is_recording(),
                Err(m) => {
                    &&& !final(self).is_recording()
                    &&& r matches Err(PipelineError::Audio(e))
                    &&& e@ == m@
                },
            },
    {
        match outcome {
            Ok(()) => Ok(()),
            Err(m) => {
                self.recording = false;
                Err(PipelineError::Audio(m))
            },
        }
    }

    /// Returns to idle and starts processing the captured samples with the
    /// configuration as it stands now.
    pub fn stop_and_process(&mut self, samples: &Vec<i16>, sample_rate: u32, origin_pid: Option<i32>) -> (r: (
        ProcessRun,
        PipelineAction,
    ))
        ensures
            !final(self).is_recording(),
            final(self).config() == old(self).config(),
            started(old(self).config(), samples@, sample_rate, origin_pid, r.0, r.1),
    {
        self.recording = false;
        ProcessRun::start(&self.config, samples, sample_rate, origin_pid)
    }
}

} // verus!
