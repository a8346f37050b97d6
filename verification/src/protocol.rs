//! Values exchanged with the input-method frontend over D-Bus.

use vstd::prelude::*;

verus! {

/// Source tag of a candidate that the LLM post-processor produced.
pub const SOURCE_LLM: &'static str = "llm";

/// Source tag of a candidate taken verbatim from speech recognition.
pub const SOURCE_ASR: &'static str = "asr";

/// One candidate text offered to the user.
#[derive(Debug, Clone)]
pub struct Candidate {
    pub text: String,
    pub source: String,
}

/// Mathematical model of a [`Candidate`].
pub struct CandidateView {
    pub text: Seq<char>,
    pub source: Seq<char>,
}

impl View for Candidate {
    type V = CandidateView;

    open spec fn view(&self) -> CandidateView {
        CandidateView { text: self.text@, source: self.source@ }
    }
}

/// The payload of a recognition-result signal.
#[derive(Debug)]
pub struct RecognitionResult {
    /// Text that is committed to the application.
    pub commit_text: String,
    /// Alternatives shown to the user.
    pub candidates: Vec<Candidate>,
}

/// Mathematical model of a [`RecognitionResult`].
pub struct RecognitionResultView {
    pub commit_text: Seq<char>,
    pub candidates: Seq<CandidateView>,
}

impl View for RecognitionResult {
    type V = RecognitionResultView;

    open spec fn view(&self) -> RecognitionResultView {
        RecognitionResultView {
            commit_text: self.commit_text@,
            candidates: self.candidates@.map_values(|c: Candidate| c@),
        }
    }
}

/// A result that commits `text` and offers it as the single candidate, tagged with `source`.
pub open spec fn result_from_text(text: Seq<char>, source: Seq<char>) -> RecognitionResultView {
    RecognitionResultView {
        commit_text: text,
        candidates: seq![CandidateView { text: text, source: source }],
    }
}

/// The result that commits nothing and offers no candidate.
pub open spec fn empty_result() -> RecognitionResultView {
    RecognitionResultView { commit_text: Seq::empty(), candidates: Seq::empty() }
}

impl RecognitionResult {
    /// Builds a result from plain text.
    pub fn from_text(text: String, source: &str) -> (r: RecognitionResult)
        ensures
            r@ == result_from_text(text@, source@),
    {
        let candidate = Candidate { text: text.clone(), source: source.to_owned() };
        let mut candidates: Vec<Candidate> = Vec::new();
        candidates.push(candidate);
        let r = RecognitionResult { commit_text: text, candidates };
        assert(r@.candidates =~= result_from_text(text@, source@).candidates);
        r
    }

    /// Builds the empty result.
    pub fn empty() -> (r: RecognitionResult)
        ensures
            r@ == empty_result(),
    {
        let r = RecognitionResult { commit_text: String::new(), candidates: Vec::new() };
        assert(r@.candidates =~= empty_result().candidates);
        r
    }
}

/// Status values published on the bus.
#[derive(Debug, Clone, Copy, PartialEq, Eq, Structural)]
pub enum DaemonStatus {
    Idle,
    Recording,
    Inferring,
    Postprocessing,
    Error,
}

/// The wire name of a status.
pub open spec fn status_name(s: DaemonStatus) -> Seq<char> {
    match s {
        DaemonStatus::Idle => "idle"@,
        DaemonStatus::Recording => "recording"@,
        DaemonStatus::Inferring => "inferring"@,
        DaemonStatus::Postprocessing => "postprocessing"@,
        DaemonStatus::Error => "error"@,
    }
}

impl DaemonStatus {
    /// The name under which the status is sent over the bus.
    pub fn as_str(&self) -> (r: &'static str)
        ensures
            r@ == status_name(*self),
    {
        match self {
            DaemonStatus::Idle => "idle",
            DaemonStatus::Recording => "recording",
            DaemonStatus::Inferring => "inferring",
            DaemonStatus::Postprocessing => "postprocessing",
            DaemonStatus::Error => "error",
        }
    }
}

/// Lifecycle status of an LLM adaptor process.
#[derive(Debug, Clone, Copy, PartialEq, Eq, Structural)]
pub enum AdaptorStatus {
    Stopped,
    Starting,
    Running,
}

/// Commands that the bus service hands to the daemon's worker.
#[derive(Debug)]
pub enum DaemonCommand {
    StartRecording,
    StartCommandRecording { context_text: String },
    StopRecording { reason: String },
    StartAdaptor { adaptor_id: String },
    StopAdaptor { adaptor_id: String },
}

/// Mathematical model of a [`DaemonCommand`].
pub enum CommandView {
    StartRecording,
    StartCommandRecording { context_text: Seq<char> },
    StopRecording { reason: Seq<char> },
    StartAdaptor { adaptor_id: Seq<char> },
    StopAdaptor { adaptor_id: Seq<char> },
}

impl View for DaemonCommand {
    type V = CommandView;

    open spec fn view(&self) -> CommandView {
        match self {
            DaemonCommand::StartRecording => CommandView::StartRecording,
            DaemonCommand::StartCommandRecording { context_text } => {
                CommandView::StartCommandRecording { context_text: context_text@ }
            },
            DaemonCommand::StopRecording { reason } => CommandView::StopRecording { reason: reason@ },
            DaemonCommand::StartAdaptor { adaptor_id } => {
                CommandView::StartAdaptor { adaptor_id: adaptor_id@ }
            },
            DaemonCommand::StopAdaptor { adaptor_id } => {
                CommandView::StopAdaptor { adaptor_id: adaptor_id@ }
            },
        }
    }
}

} // verus!
