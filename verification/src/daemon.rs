//! The daemon's recording state machine.
//!
//! The worker that owns the bus connection, the audio device and the recogniser
//! feeds every command and every outcome of its outside work into a
//! [`DaemonController`], and carries out the [`DaemonAction`]s it gets back.

use vstd::prelude::*;

use crate::adaptor_manager::{after_start, after_stop, AdaptorEntry, AdaptorManager};
use crate::post_processor::{
    default_llm_config, process_command_result, process_result, PostProcessor, PostProcessorView,
};
use crate::protocol::{
    empty_result, result_from_text, CommandView, DaemonCommand, DaemonStatus, RecognitionResult,
    RecognitionResultView, SOURCE_ASR,
};
use crate::text::concat;

verus! {

/// Fewest captured samples worth recognising: 0.1 s at 16 kHz.
pub const MIN_SAMPLES_FOR_INFERENCE: usize = 1600;

/// Phase of the recording pipeline.
#[derive(Debug, Clone, Copy, PartialEq, Eq, Structural)]
pub enum DaemonState {
    Idle,
    Recording,
    Inferring,
    Postprocessing,
}

/// The bus status that corresponds to a phase.
pub open spec fn state_status(s: DaemonState) -> DaemonStatus {
    match s {
        DaemonState::Idle => DaemonStatus::Idle,
        DaemonState::Recording => DaemonStatus::Recording,
        DaemonState::Inferring => DaemonStatus::Inferring,
        DaemonState::Postprocessing => DaemonStatus::Postprocessing,
    }
}

impl DaemonState {
    /// The bus status of this phase.
    pub fn to_status(&self) -> (r: DaemonStatus)
        ensures
            r == state_status(*self),
    {
        match self {
            DaemonState::Idle => DaemonStatus::Idle,
            DaemonState::Recording => DaemonStatus::Recording,
            DaemonState::Inferring => DaemonStatus::Inferring,
            DaemonState::Postprocessing => DaemonStatus::Postprocessing,
        }
    }
}

/// Work that the controller asks its owner to carry out.
#[derive(Debug)]
pub enum DaemonAction {
    /// Start audio capture, then report the outcome with `recording_started`.
    BeginRecording,
    /// Stop audio capture, then report the number of samples with `samples_collected`.
    CollectSamples,
    /// Recognise the captured samples in the background, then turn the outcome
    /// into signals with `recognition_actions`.
    RunInference { command_mode: bool, selected_text: String },
    /// Publish a status-changed signal.
    EmitStatus(DaemonStatus),
    /// Publish an error signal, stamped with the current time.
    EmitError { code: String, subject: String, detail: String },
    /// Publish a recognition result.
    EmitResult(RecognitionResult),
}

/// Mathematical model of a [`DaemonAction`].
pub enum ActionView {
    BeginRecording,
    CollectSamples,
    RunInference { command_mode: bool, selected_text: Seq<char> },
    EmitStatus(DaemonStatus),
    EmitError { code: Seq<char>, subject: Seq<char>, detail: Seq<char> },
    EmitResult(RecognitionResultView),
}

impl View for DaemonAction {
    type V = ActionView;

    open spec fn view(&self) -> ActionView {
        match self {
            DaemonAction::BeginRecording => ActionView::BeginRecording,
            DaemonAction::CollectSamples => ActionView::CollectSamples,
            DaemonAction::RunInference { command_mode, selected_text } => {
                ActionView::RunInference {
                    command_mode: *command_mode,
                    selected_text: selected_text@,
                }
            },
            DaemonAction::EmitStatus(s) => ActionView::EmitStatus(*s),
            DaemonAction::EmitError { code, subject, detail } => {
                ActionView::EmitError { code: code@, subject: subject@, detail: detail@ }
            },
            DaemonAction::EmitResult(r) => ActionView::EmitResult(r@),
        }
    }
}

/// The models of a list of actions.
pub open spec fn actions_view(v: Seq<DaemonAction>) -> Seq<ActionView> {
    v.map_values(|a: DaemonAction| a@)
}

/// The model of the recogniser's outcome: the text, or the error message.
pub open spec fn text_outcome(r: Result<String, String>) -> Result<Seq<char>, Seq<char>> {
    match r {
        Ok(t) => Ok(t@),
        Err(e) => Err(e@),
    }
}

/// The model of the outcome of starting audio capture.
pub open spec fn unit_outcome(r: Result<(), String>) -> Result<(), Seq<char>> {
    match r {
        Ok(_) => Ok(()),
        Err(e) => Err(e@),
    }
}

/// A recording that has been requested but whose capture has not been confirmed.
struct PendingStart {
    command_mode: bool,
    context_text: String,
}

/// Mathematical model of a [`DaemonController`].
pub struct ControllerView {
    pub state: DaemonState,
    pub command_mode: bool,
    pub selected_text: Seq<char>,
    /// The requested recording awaiting confirmation: command mode and context text.
    pub pending: Option<(bool, Seq<char>)>,
    pub adaptors: Map<Seq<char>, AdaptorEntry>,
    pub post: PostProcessorView,
}

/// The recording state machine of the daemon.
pub struct DaemonController {
    state: DaemonState,
    is_command_mode: bool,
    selected_text: String,
    pending_start: Option<PendingStart>,
    adaptor_manager: AdaptorManager,
    post_processor: PostProcessor,
}

/// The error signal for a failed start of audio capture.
pub open spec fn audio_error(command_mode: bool, err: Seq<char>) -> ActionView {
    ActionView::EmitError {
        code: "audio_error"@,
        subject: "Audio"@,
        detail: if command_mode {
            "无法开始命令录音: "@ + err
        } else {
            "无法开始录音: "@ + err
        },
    }
}

/// How the controller answers a command.
pub open spec fn on_command(c: ControllerView, cmd: CommandView) -> (ControllerView, Seq<
    ActionView,
>) {
    match cmd {
        CommandView::StartRecording => {
            if c.state != DaemonState::Idle {
                (c, Seq::empty())
            } else {
                (
                    ControllerView { pending: Some((false, Seq::empty())), ..c },
                    seq![ActionView::BeginRecording],
                )
            }
        },
        CommandView::StartCommandRecording { context_text } => {
            if c.state != DaemonState::Idle {
                (c, Seq::empty())
            } else {
                (
                    ControllerView { pending: Some((true, context_text)), ..c },
                    seq![ActionView::BeginRecording],
                )
            }
        },
        CommandView::StopRecording { reason } => {
            if c.state != DaemonState::Recording {
                (c, Seq::empty())
            } else {
                (c, seq![ActionView::CollectSamples])
            }
        },
        CommandView::StartAdaptor { adaptor_id } => {
            (ControllerView { adaptors: after_start(c.adaptors, adaptor_id), ..c }, Seq::empty())
        },
        CommandView::StopAdaptor { adaptor_id } => {
            (ControllerView { adaptors: after_stop(c.adaptors, adaptor_id), ..c }, Seq::empty())
        },
    }
}

/// How the controller answers the outcome of starting audio capture.
pub open spec fn on_recording_started(c: ControllerView, outcome: Result<(), Seq<char>>) -> (
    ControllerView,
    Seq<ActionView>,
) {
    match c.pending {
        None => (c, Seq::empty()),
        Some((mode, context)) => match outcome {
            Err(e) => (ControllerView { pending: None, ..c }, seq![audio_error(mode, e)]),
            Ok(_) => (
                ControllerView {
                    state: DaemonState::Recording,
                    command_mode: mode,
                    selected_text: context,
                    pending: None,
                    ..c
                },
                seq![ActionView::EmitStatus(DaemonStatus::Recording)],
            ),
        },
    }
}

/// How the controller answers the number of samples captured by a finished recording.
pub open spec fn on_samples_collected(
    c: ControllerView,
    sample_count: nat,
    engine_ready: bool,
) -> (ControllerView, Seq<ActionView>) {
    if c.state != DaemonState::Recording {
        (c, Seq::empty())
    } else if sample_count < MIN_SAMPLES_FOR_INFERENCE {
        (
            ControllerView { state: DaemonState::Idle, ..c },
            seq![ActionView::EmitStatus(DaemonStatus::Idle)],
        )
    } else {
        (
            ControllerView { state: DaemonState::Idle, ..c },
            seq![ActionView::EmitStatus(DaemonStatus::Inferring)] + if engine_ready {
                seq![
                    ActionView::RunInference {
                        command_mode: c.command_mode,
                        selected_text: c.selected_text,
                    },
                ]
            } else {
                Seq::empty()
            },
        )
    }
}

/// The signals that publish the outcome of a recognition.
pub open spec fn recognition_outcome(
    post: PostProcessorView,
    asr: Result<Seq<char>, Seq<char>>,
    command_mode: bool,
) -> Seq<ActionView> {
    match asr {
        Err(e) => seq![
            ActionView::EmitError { code: "asr_error"@, subject: "ASR"@, detail: "识别失败: "@ + e },
            ActionView::EmitStatus(DaemonStatus::Idle),
        ],
        Ok(text) => if text.len() == 0 {
            seq![
                ActionView::EmitResult(empty_result()),
                ActionView::EmitStatus(DaemonStatus::Idle),
            ]
        } else if !post.configured {
            seq![
                ActionView::EmitResult(result_from_text(text, SOURCE_ASR@)),
                ActionView::EmitStatus(DaemonStatus::Idle),
            ]
        } else {
            seq![
                ActionView::EmitStatus(DaemonStatus::Postprocessing),
                ActionView::EmitResult(
                    if command_mode {
                        process_command_result(post, text)
                    } else {
                        process_result(post, text)
                    },
                ),
                ActionView::EmitStatus(DaemonStatus::Idle),
            ]
        },
    }
}

impl View for DaemonController {
    type V = ControllerView;

    closed spec fn view(&self) -> ControllerView {
        ControllerView {
            state: self.state,
            command_mode: self.is_command_mode,
            selected_text: self.selected_text@,
            pending: match self.pending_start {
                Some(p) => Some((p.command_mode, p.context_text@)),
                None => None,
            },
            adaptors: self.adaptor_manager@,
            post: self.post_processor@,
        }
    }
}

/// The phases in which the controller rests between events.
pub open spec fn resting_state(s: DaemonState) -> bool {
    s == DaemonState::Idle || s == DaemonState::Recording
}

impl DaemonController {
    /// Well-formedness: the parts are well-formed, the controller rests in `Idle` or
    /// `Recording`, and a recording awaits confirmation only while idle.
    pub closed spec fn wf(&self) -> bool {
        &&& self.adaptor_manager.wf()
        &&& self.post_processor.wf()
        &&& resting_state(self.state)
        &&& self.pending_start is Some ==> self.state == DaemonState::Idle
    }

    /// A controller in the idle phase, with an empty adaptor registry and an
    /// unconfigured post-processor.
    pub fn new() -> (r: DaemonController)
        ensures
            r.wf(),
            r@.state == DaemonState::Idle,
            !r@.command_mode,
            r@.selected_text == Seq::<char>::empty(),
            r@.pending is None,
            r@.adaptors == Map::<Seq<char>, AdaptorEntry>::empty(),
            !r@.post.configured,
            r@.post.config == default_llm_config(),
    {
        DaemonController {
            state: DaemonState::Idle,
            is_command_mode: false,
            selected_text: String::new(),
            pending_start: None,
            adaptor_manager: AdaptorManager::new(),
            post_processor: PostProcessor::new(),
        }
    }

    /// The current phase.
    pub fn state(&self) -> (r: DaemonState)
        ensures
            r == self@.state,
    {
        self.state
    }

    /// The post-processor used for recognised text.
    pub fn post_processor(&self) -> (r: &PostProcessor)
        requires
            self.wf(),
        ensures
            r.wf(),
            r@ == self@.post,
    {
        &self.post_processor
    }

    /// The adaptor registry.
    pub fn adaptor_manager(&self) -> (r: &AdaptorManager)
        requires
            self.wf(),
        ensures
            r.wf(),
            r@ == self@.adaptors,
    {
        &self.adaptor_manager
    }

    /// Answers a command from the bus.
    pub fn handle_command(&mut self, cmd: DaemonCommand) -> (r: Vec<DaemonAction>)
        requires
            old(self).wf(),
        ensures
            final(self).wf(),
            (final(self)@, actions_view(r@)) == on_command(old(self)@, cmd@),
    {
        let mut out: Vec<DaemonAction> = Vec::new();
        let ghost cmd_view = cmd@;
        match cmd {
            DaemonCommand::StartRecording => {
                if self.state != DaemonState::Idle {
                    assert(actions_view(out@) =~= Seq::empty());
                    return out;
                }
                self.pending_start = Some(
                    PendingStart { command_mode: false, context_text: String::new() },
                );
                out.push(DaemonAction::BeginRecording);
            },
            DaemonCommand::StartCommandRecording { context_text } => {
                if self.state != DaemonState::Idle {
                    assert(actions_view(out@) =~= Seq::empty());
                    return out;
                }
                self.pending_start = Some(PendingStart { command_mode: true, context_text });
                out.push(DaemonAction::BeginRecording);
            },
            DaemonCommand::StopRecording { reason: _ } => {
                if self.state != DaemonState::Recording {
                    assert(actions_view(out@) =~= Seq::empty());
                    return out;
                }
                out.push(DaemonAction::CollectSamples);
            },
            DaemonCommand::StartAdaptor { adaptor_id } => {
                if let Err(e) = self.adaptor_manager.start_adaptor(adaptor_id.as_str()) {
                    let detail = concat(&concat(&concat("启动 ", adaptor_id.as_str()), " 失败: "), &e);
                    out.push(
                        DaemonAction::EmitError {
                            code: "adaptor_error".to_owned(),
                            subject: "Adaptor".to_owned(),
                            detail,
                        },
                    );
                }
            },
            DaemonCommand::StopAdaptor { adaptor_id } => {
                if let Err(e) = self.adaptor_manager.stop_adaptor(adaptor_id.as_str()) {
                    let detail = concat(&concat(&concat("停止 ", adaptor_id.as_str()), " 失败: "), &e);
                    out.push(
                        DaemonAction::EmitError {
                            code: "adaptor_error".to_owned(),
                            subject: "Adaptor".to_owned(),
                            detail,
                        },
                    );
                }
            },
        }
        assert(actions_view(out@) =~= on_command(old(self)@, cmd_view).1);
        out
    }

    /// Answers the outcome of starting audio capture after a `BeginRecording` action.
    pub fn recording_started(&mut self, outcome: Result<(), String>) -> (r: Vec<DaemonAction>)
        requires
            old(self).wf(),
        ensures
            final(self).wf(),
            (final(self)@, actions_view(r@)) == on_recording_started(
                old(self)@,
                unit_outcome(outcome),
            ),
    {
        let mut out: Vec<DaemonAction> = Vec::new();
        let pending = self.pending_start.take();
        match pending {
            None => {},
            Some(p) => match outcome {
                Err(e) => {
                    let prefix = if p.command_mode {
                        "无法开始命令录音: "
                    } else {
                        "无法开始录音: "
                    };
                    out.push(
                        DaemonAction::EmitError {
                            code: "audio_error".to_owned(),
                            subject: "Audio".to_owned(),
                            detail: concat(prefix, &e),
                        },
                    );
                },
                Ok(()) => {
                    self.state = DaemonState::Recording;
                    self.is_command_mode = p.command_mode;
                    self.selected_text = p.context_text;
                    out.push(DaemonAction::EmitStatus(self.state.to_status()));
                },
            },
        }
        assert(actions_view(out@) =~= on_recording_started(
            old(self)@,
            unit_outcome(outcome),
        ).1);
        out
    }

    /// Answers the number of samples captured by a finished recording, after a
    /// `CollectSamples` action; `engine_ready` tells whether a recogniser is loaded.
    pub fn samples_collected(&mut self, sample_count: usize, engine_ready: bool) -> (r: Vec<
        DaemonAction,
    >)
        requires
            old(self).wf(),
        ensures
            final(self).wf(),
            (final(self)@, actions_view(r@)) == on_samples_collected(
                old(self)@,
                sample_count as nat,
                engine_ready,
            ),
    {
        let mut out: Vec<DaemonAction> = Vec::new();
        if self.state != DaemonState::Recording {
            assert(actions_view(out@) =~= Seq::empty());
            return out;
        }
        if sample_count < MIN_SAMPLES_FOR_INFERENCE {
            self.state = DaemonState::Idle;
            out.push(DaemonAction::EmitStatus(self.state.to_status()));
            assert(actions_view(out@) =~= seq![ActionView::EmitStatus(DaemonStatus::Idle)]);
            return out;
        }
        self.state = DaemonState::Inferring;
        out.push(DaemonAction::EmitStatus(self.state.to_status()));
        if engine_ready {
            out.push(
                DaemonAction::RunInference {
                    command_mode: self.is_command_mode,
                    selected_text: self.selected_text.clone(),
                },
            );
        }
        self.state = DaemonState::Idle;
        assert(actions_view(out@) =~= on_samples_collected(
            old(self)@,
            sample_count as nat,
            engine_ready,
        ).1);
        out
    }
}

/// Turns the outcome of a background recognition into the signals that publish it.
/// `asr` is the recognised text or the recogniser's error message.
pub fn recognition_actions(
    post: &PostProcessor,
    asr: Result<String, String>,
    command_mode: bool,
    selected_text: &str,
) -> (r: Vec<DaemonAction>)
    requires
        post.wf(),
    ensures
        actions_view(r@) == recognition_outcome(
            post@,
            text_outcome(asr),
            command_mode,
        ),
{
    let ghost asr_view = text_outcome(asr);
    let mut out: Vec<DaemonAction> = Vec::new();
    match asr {
        Err(e) => {
            out.push(
                DaemonAction::EmitError {
                    code: "asr_error".to_owned(),
                    subject: "ASR".to_owned(),
                    detail: concat("识别失败: ", &e),
                },
            );
        },
        Ok(text) => {
            if text.as_str().is_empty() {
                out.push(DaemonAction::EmitResult(RecognitionResult::empty()));
            } else if !post.is_configured() {
                out.push(DaemonAction::EmitResult(RecognitionResult::from_text(text, SOURCE_ASR)));
            } else {
                out.push(DaemonAction::EmitStatus(DaemonStatus::Postprocessing));
                let processed = if command_mode {
                    post.process_command(text.as_str(), selected_text)
                } else {
                    post.process(text.as_str())
                };
                match processed {
                    Ok(res) => out.push(DaemonAction::EmitResult(res)),
                    Err(e) => {
                        out.push(
                            DaemonAction::EmitError {
                                code: "llm_error".to_owned(),
                                subject: "LLM".to_owned(),
                                detail: concat("后处理失败: ", &e),
                            },
                        );
                        out.push(
                            DaemonAction::EmitResult(RecognitionResult::from_text(text, SOURCE_ASR)),
                        );
                    },
                }
            }
        },
    }
    out.push(DaemonAction::EmitStatus(DaemonStatus::Idle));
    assert(actions_view(out@) =~= recognition_outcome(post@, asr_view, command_mode));
    out
}

} // verus!
