//! Properties that hold across the operations of the library.

use vstd::prelude::*;

use crate::adaptor_manager::{
    after_start, after_stop, after_stop_all, is_active, running_ids, status_of, AdaptorEntry,
    SIMULATED_PID,
};
use crate::daemon::{
    on_command, on_recording_started, on_samples_collected, recognition_outcome, resting_state,
    ActionView, ControllerView, DaemonState, MIN_SAMPLES_FOR_INFERENCE,
};
use crate::post_processor::{
    ends_with_terminator, process_command_result, process_result, punctuate, PostProcessorView,
};
use crate::protocol::{result_from_text, AdaptorStatus, CandidateView, SOURCE_ASR, SOURCE_LLM, CommandView, DaemonStatus, RecognitionResultView};
use crate::text::{is_white_space, trim_end_ws, trim_start_ws, trim_ws};

verus! {

// ---------------------------------------------------------------- adaptors

/// After a start request an adaptor is active, and it is running unless it was
/// already starting.
pub proof fn law_start_activates(m: Map<Seq<char>, AdaptorEntry>, id: Seq<char>)
    ensures
        is_active(status_of(after_start(m, id), id)),
        !is_active(status_of(m, id)) ==> status_of(after_start(m, id), id)
            == AdaptorStatus::Running,
{
}

/// Starting an adaptor twice has the effect of starting it once.
pub proof fn law_start_idempotent(m: Map<Seq<char>, AdaptorEntry>, id: Seq<char>)
    ensures
        after_start(after_start(m, id), id) == after_start(m, id),
{
}

/// After a stop request the adaptor is reported as stopped.
pub proof fn law_stop_stops(m: Map<Seq<char>, AdaptorEntry>, id: Seq<char>)
    ensures
        status_of(after_stop(m, id), id) == AdaptorStatus::Stopped,
{
}

/// Stopping an adaptor keeps its launch settings and clears its process id.
pub proof fn law_stop_keeps_settings(m: Map<Seq<char>, AdaptorEntry>, id: Seq<char>)
    requires
        m.contains_key(id),
    ensures
        after_stop(m, id)[id].command == m[id].command,
        after_stop(m, id)[id].args == m[id].args,
        after_stop(m, id)[id].env == m[id].env,
        after_stop(m, id)[id].pid is None,
{
}

/// Starting or stopping one adaptor leaves the status of every other adaptor alone.
pub proof fn law_requests_are_local(
    m: Map<Seq<char>, AdaptorEntry>,
    id: Seq<char>,
    other: Seq<char>,
)
    requires
        other != id,
    ensures
        status_of(after_start(m, id), other) == status_of(m, other),
        status_of(after_stop(m, id), other) == status_of(m, other),
{
}

/// Starting an inactive adaptor adds exactly its id to the running ids.
pub proof fn law_start_lists_running(m: Map<Seq<char>, AdaptorEntry>, id: Seq<char>)
    requires
        !is_active(status_of(m, id)),
    ensures
        running_ids(after_start(m, id)) == running_ids(m).insert(id),
{
    assert(running_ids(after_start(m, id)) =~= running_ids(m).insert(id));
}

/// After stopping all adaptors none is running, and every adaptor stays registered.
pub proof fn law_stop_all_clears_running(m: Map<Seq<char>, AdaptorEntry>)
    ensures
        running_ids(after_stop_all(m)) == Set::<Seq<char>>::empty(),
        after_stop_all(m).dom() == m.dom(),
{
    assert(running_ids(after_stop_all(m)) =~= Set::<Seq<char>>::empty());
    assert(after_stop_all(m).dom() =~= m.dom());
}

// ---------------------------------------------------------- post-processor

proof fn lemma_trim_start_front(s: Seq<char>)
    ensures
        trim_start_ws(s).len() > 0 ==> !is_white_space(trim_start_ws(s)[0]),
    decreases s.len(),
{
    if s.len() > 0 && is_white_space(s[0]) {
        lemma_trim_start_front(s.drop_first());
    }
}

proof fn lemma_trim_end_prefix(s: Seq<char>)
    ensures
        trim_end_ws(s).len() <= s.len(),
        trim_end_ws(s) == s.take(trim_end_ws(s).len() as int),
        trim_end_ws(s).len() > 0 ==> !is_white_space(trim_end_ws(s).last()),
    decreases s.len(),
{
    if s.len() > 0 && is_white_space(s.last()) {
        lemma_trim_end_prefix(s.drop_last());
        let r = trim_end_ws(s.drop_last());
        assert(s.drop_last().take(r.len() as int) =~= s.take(r.len() as int));
    } else {
        assert(s.take(s.len() as int) =~= s);
    }
}

/// Whether `t` has no whitespace at either end.
spec fn is_trimmed(t: Seq<char>) -> bool {
    t.len() > 0 ==> !is_white_space(t[0]) && !is_white_space(t.last())
}

proof fn lemma_trim_is_trimmed(s: Seq<char>)
    ensures
        is_trimmed(trim_ws(s)),
{
    let u = trim_start_ws(s);
    lemma_trim_start_front(s);
    lemma_trim_end_prefix(u);
    let w = trim_end_ws(u);
    if w.len() > 0 {
        assert(w[0] == u[0]);
    }
}

proof fn lemma_trim_of_trimmed(t: Seq<char>)
    requires
        is_trimmed(t),
    ensures
        trim_ws(t) == t,
{
}

/// Punctuating already punctuated text changes nothing.
pub proof fn law_punctuate_idempotent(text: Seq<char>)
    ensures
        punctuate(punctuate(text)) == punctuate(text),
{
    let p = trim_ws(text);
    lemma_trim_is_trimmed(text);
    if p.len() == 0 {
        assert(trim_ws(Seq::<char>::empty()) == Seq::<char>::empty());
    } else if ends_with_terminator(p) {
        lemma_trim_of_trimmed(p);
    } else {
        let q = p.push('。');
        assert(q[0] == p[0]);
        assert(!is_white_space('。'));
        lemma_trim_of_trimmed(q);
        assert(ends_with_terminator(q));
    }
}

/// Punctuated text is empty exactly when the input is blank, and otherwise ends a sentence.
pub proof fn law_punctuate_ends_sentence(text: Seq<char>)
    ensures
        punctuate(text).len() == 0 <==> trim_ws(text).len() == 0,
        punctuate(text).len() > 0 ==> ends_with_terminator(punctuate(text)),
{
    let p = trim_ws(text);
    if p.len() > 0 && !ends_with_terminator(p) {
        assert(p.push('。').last() == '。');
    }
}

// ------------------------------------------------------------------ daemon

/// The invariant of the recording state machine between events: it rests in
/// `Idle` or `Recording`, and a start awaits confirmation only while idle.
pub open spec fn consistent(c: ControllerView) -> bool {
    &&& resting_state(c.state)
    &&& c.pending is Some ==> c.state == DaemonState::Idle
}

/// Every transition of the state machine keeps it consistent.
pub proof fn law_transitions_keep_consistency(
    c: ControllerView,
    cmd: CommandView,
    started: Result<(), Seq<char>>,
    sample_count: nat,
    engine_ready: bool,
)
    requires
        consistent(c),
    ensures
        consistent(on_command(c, cmd).0),
        consistent(on_recording_started(c, started).0),
        consistent(on_samples_collected(c, sample_count, engine_ready).0),
{
}

/// A start request is ignored, with no action, unless the daemon is idle.
pub proof fn law_start_needs_idle(c: ControllerView, context_text: Seq<char>)
    requires
        c.state != DaemonState::Idle,
    ensures
        on_command(c, CommandView::StartRecording) == (c, Seq::<ActionView>::empty()),
        on_command(c, CommandView::StartCommandRecording { context_text })
            == (c, Seq::<ActionView>::empty()),
{
}

/// A stop request is ignored, with no action, unless the daemon is recording.
pub proof fn law_stop_needs_recording(c: ControllerView, reason: Seq<char>)
    requires
        c.state != DaemonState::Recording,
    ensures
        on_command(c, CommandView::StopRecording { reason }) == (c, Seq::<ActionView>::empty()),
{
}

/// The daemon enters `Recording` only when a requested start is confirmed by the
/// audio device, and only from `Idle`.
pub proof fn law_recording_needs_confirmed_start(
    c: ControllerView,
    started: Result<(), Seq<char>>,
)
    requires
        consistent(c),
        c.state != DaemonState::Recording,
        on_recording_started(c, started).0.state == DaemonState::Recording,
    ensures
        c.state == DaemonState::Idle,
        c.pending is Some,
        started is Ok,
{
}

/// Once the samples of a recording are collected the daemon is idle again.
pub proof fn law_collection_returns_to_idle(
    c: ControllerView,
    sample_count: nat,
    engine_ready: bool,
)
    requires
        c.state == DaemonState::Recording,
    ensures
        on_samples_collected(c, sample_count, engine_ready).0.state == DaemonState::Idle,
{
}

/// Publishing a recognition outcome always ends by announcing `Idle`, and publishes a
/// result exactly when the recogniser succeeded.
pub proof fn law_recognition_ends_idle(
    post: PostProcessorView,
    asr: Result<Seq<char>, Seq<char>>,
    command_mode: bool,
)
    ensures
        recognition_outcome(post, asr, command_mode).len() > 0,
        recognition_outcome(post, asr, command_mode).last() == ActionView::EmitStatus(
            DaemonStatus::Idle,
        ),
        asr is Ok <==> exists|i: int|
            0 <= i < recognition_outcome(post, asr, command_mode).len()
                && #[trigger] recognition_outcome(post, asr, command_mode)[i] is EmitResult,
{
    let s = recognition_outcome(post, asr, command_mode);
    match asr {
        Ok(text) => {
            if text.len() == 0 || !post.configured {
                assert(s[0] is EmitResult);
            } else {
                assert(s[1] is EmitResult);
            }
        },
        Err(e) => {
            assert(!(s[0] is EmitResult));
            assert(!(s[1] is EmitResult));
        },
    }
}

/// Whether `c` closes a sentence: one of 。！？.!?
pub open spec fn is_sentence_end(c: char) -> bool {
    c == '。' || c == '！' || c == '？' || c == '.' || c == '!' || c == '?'
}

/// Punctuation looks only at the last character of the trimmed text: non-empty
/// output ends with a sentence terminator; trimmed text that already ends with
/// one is returned as it is, and any other non-empty trimmed text gets a full
/// stop appended, whatever terminators occur earlier in it.
pub proof fn law_punctuate_last_character(text: Seq<char>)
    ensures
        punctuate(text).len() > 0 ==> is_sentence_end(punctuate(text).last()),
        trim_ws(text).len() > 0 && is_sentence_end(trim_ws(text).last()) ==> punctuate(text)
            == trim_ws(text),
        trim_ws(text).len() > 0 && !is_sentence_end(trim_ws(text).last()) ==> punctuate(text)
            == trim_ws(text).push('。'),
        trim_ws(text).len() == 0 ==> punctuate(text).len() == 0,
{
    let p = trim_ws(text);
    if p.len() > 0 && !ends_with_terminator(p) {
        assert(p.push('。').last() == '。');
    }
}

/// Without a configured LLM, a successful non-empty recognition, in either mode,
/// publishes a result that commits exactly the recognised text and offers it as
/// the single candidate tagged "asr", then announces `Idle`.
pub proof fn law_unconfigured_recognition_publishes_text(
    post: PostProcessorView,
    text: Seq<char>,
    command_mode: bool,
)
    requires
        text.len() > 0,
        !post.configured,
    ensures
        recognition_outcome(post, Ok(text), command_mode) == seq![
            ActionView::EmitResult(
                RecognitionResultView {
                    commit_text: text,
                    candidates: seq![CandidateView { text: text, source: seq!['a', 's', 'r'] }],
                },
            ),
            ActionView::EmitStatus(DaemonStatus::Idle),
        ],
{
    reveal_strlit("asr");
    assert(SOURCE_ASR@ =~= seq!['a', 's', 'r']);
    let expected = RecognitionResultView {
        commit_text: text,
        candidates: seq![CandidateView { text: text, source: seq!['a', 's', 'r'] }],
    };
    assert(result_from_text(text, SOURCE_ASR@) == expected);
}

/// A confirmed start of audio capture, plain or command, enters `Recording` and
/// announces it with exactly one `Recording` status signal.
pub proof fn law_confirmed_start_announces_recording(c: ControllerView)
    requires
        c.pending is Some,
    ensures
        on_recording_started(c, Ok(())).0.state == DaemonState::Recording,
        on_recording_started(c, Ok(())).1 == seq![ActionView::EmitStatus(DaemonStatus::Recording)],
{
}

/// Finishing a recording with enough samples and a recogniser announces
/// `Inferring` and runs inference in the recording's own mode, over its own
/// context, whatever that context is.
pub proof fn law_inference_uses_recording_mode(c: ControllerView, sample_count: nat)
    requires
        c.state == DaemonState::Recording,
        sample_count >= MIN_SAMPLES_FOR_INFERENCE,
    ensures
        on_samples_collected(c, sample_count, true).1 == seq![
            ActionView::EmitStatus(DaemonStatus::Inferring),
            ActionView::RunInference {
                command_mode: c.command_mode,
                selected_text: c.selected_text,
            },
        ],
{
}

/// A whole plain recording from `Idle` — start, confirmation, stop, enough
/// samples — runs plain inference with an empty context, whatever mode and
/// context any earlier recording had.
pub proof fn law_plain_recording_runs_plain_inference(
    c: ControllerView,
    reason: Seq<char>,
    sample_count: nat,
)
    requires
        c.state == DaemonState::Idle,
        sample_count >= MIN_SAMPLES_FOR_INFERENCE,
    ensures
        ({
            let c1 = on_command(c, CommandView::StartRecording);
            let c2 = on_recording_started(c1.0, Ok(()));
            let c3 = on_command(c2.0, CommandView::StopRecording { reason });
            let c4 = on_samples_collected(c3.0, sample_count, true);
            &&& c1.0.pending == Some((false, Seq::<char>::empty()))
            &&& c1.1 == seq![ActionView::BeginRecording]
            &&& c2.0.state == DaemonState::Recording
            &&& !c2.0.command_mode
            &&& c2.0.selected_text == Seq::<char>::empty()
            &&& c2.1 == seq![ActionView::EmitStatus(DaemonStatus::Recording)]
            &&& c3.1 == seq![ActionView::CollectSamples]
            &&& c4.0.state == DaemonState::Idle
            &&& c4.1 == seq![
                ActionView::EmitStatus(DaemonStatus::Inferring),
                ActionView::RunInference { command_mode: false, selected_text: Seq::empty() },
            ]
        }),
{
}

/// A whole command recording from `Idle` over the context `context_text` — start,
/// confirmation, stop, enough samples — runs command-mode inference over exactly
/// that context, even when it is empty.
pub proof fn law_command_recording_runs_command_inference(
    c: ControllerView,
    context_text: Seq<char>,
    reason: Seq<char>,
    sample_count: nat,
)
    requires
        c.state == DaemonState::Idle,
        sample_count >= MIN_SAMPLES_FOR_INFERENCE,
    ensures
        ({
            let c1 = on_command(c, CommandView::StartCommandRecording { context_text });
            let c2 = on_recording_started(c1.0, Ok(()));
            let c3 = on_command(c2.0, CommandView::StopRecording { reason });
            let c4 = on_samples_collected(c3.0, sample_count, true);
            &&& c1.1 == seq![ActionView::BeginRecording]
            &&& c2.0.state == DaemonState::Recording
            &&& c2.0.command_mode
            &&& c2.0.selected_text == context_text
            &&& c2.1 == seq![ActionView::EmitStatus(DaemonStatus::Recording)]
            &&& c3.1 == seq![ActionView::CollectSamples]
            &&& c4.0.state == DaemonState::Idle
            &&& c4.1 == seq![
                ActionView::EmitStatus(DaemonStatus::Inferring),
                ActionView::RunInference { command_mode: true, selected_text: context_text },
            ]
        }),
{
}

/// A result that commits `text` and offers it as its only candidate, tagged `source`.
pub open spec fn single_candidate(text: Seq<char>, source: Seq<char>) -> RecognitionResultView {
    RecognitionResultView {
        commit_text: text,
        candidates: seq![CandidateView { text: text, source: source }],
    }
}

proof fn lemma_sources()
    ensures
        SOURCE_ASR@ == seq!['a', 's', 'r'],
        SOURCE_LLM@ == seq!['l', 'l', 'm'],
{
    reveal_strlit("asr");
    reveal_strlit("llm");
    assert(SOURCE_ASR@ =~= seq!['a', 's', 'r']);
    assert(SOURCE_LLM@ =~= seq!['l', 'l', 'm']);
}

/// What the post-processor returns: without an LLM the text itself tagged "asr";
/// with one, the punctuated text tagged "llm" in plain mode and the spoken text
/// tagged "llm" in command mode.
pub proof fn law_post_processing_results(p: PostProcessorView, text: Seq<char>)
    ensures
        !p.configured ==> process_result(p, text) == single_candidate(text, seq!['a', 's', 'r']),
        !p.configured ==> process_command_result(p, text) == single_candidate(
            text,
            seq!['a', 's', 'r'],
        ),
        p.configured ==> process_result(p, text) == single_candidate(
            punctuate(text),
            seq!['l', 'l', 'm'],
        ),
        p.configured ==> process_command_result(p, text) == single_candidate(
            text,
            seq!['l', 'l', 'm'],
        ),
{
    lemma_sources();
}

/// With an LLM configured, a successful non-empty recognition announces
/// `Postprocessing`, publishes the post-processed result of the matching mode,
/// and announces `Idle`.
pub proof fn law_configured_recognition_is_postprocessed(
    post: PostProcessorView,
    text: Seq<char>,
    command_mode: bool,
)
    requires
        text.len() > 0,
        post.configured,
    ensures
        recognition_outcome(post, Ok(text), command_mode) == seq![
            ActionView::EmitStatus(DaemonStatus::Postprocessing),
            ActionView::EmitResult(
                single_candidate(
                    if command_mode {
                        text
                    } else {
                        punctuate(text)
                    },
                    seq!['l', 'l', 'm'],
                ),
            ),
            ActionView::EmitStatus(DaemonStatus::Idle),
        ],
{
    lemma_sources();
}

/// An empty recognition publishes a result with no text and no candidate.
pub proof fn law_empty_recognition(post: PostProcessorView, command_mode: bool)
    ensures
        recognition_outcome(post, Ok(Seq::empty()), command_mode) == seq![
            ActionView::EmitResult(
                RecognitionResultView { commit_text: Seq::empty(), candidates: Seq::empty() },
            ),
            ActionView::EmitStatus(DaemonStatus::Idle),
        ],
{
}

/// A failed recognition publishes an "asr_error" from subject "ASR" whose detail
/// carries the recogniser's message, and no result.
pub proof fn law_failed_recognition(post: PostProcessorView, err: Seq<char>, command_mode: bool)
    ensures
        recognition_outcome(post, Err(err), command_mode) == seq![
            ActionView::EmitError { code: "asr_error"@, subject: "ASR"@, detail: "识别失败: "@ + err },
            ActionView::EmitStatus(DaemonStatus::Idle),
        ],
{
}

/// A failed start of audio capture leaves the phase unchanged, drops the pending
/// start, and publishes one "audio_error" naming the kind of recording and the
/// device's message.
pub proof fn law_failed_start_reports_audio_error(c: ControllerView, err: Seq<char>)
    requires
        c.pending is Some,
    ensures
        on_recording_started(c, Err(err)).0.state == c.state,
        on_recording_started(c, Err(err)).0.pending is None,
        on_recording_started(c, Err(err)).1 == seq![
            ActionView::EmitError {
                code: "audio_error"@,
                subject: "Audio"@,
                detail: if (c.pending->0).0 {
                    "无法开始命令录音: "@ + err
                } else {
                    "无法开始录音: "@ + err
                },
            },
        ],
{
}

/// A start request for an inactive adaptor records it as running under the
/// simulated process id and registers nothing else; for an adaptor that is
/// running or starting it changes nothing.
pub proof fn law_start_records_running(m: Map<Seq<char>, AdaptorEntry>, id: Seq<char>)
    ensures
        m.contains_key(id) && (m[id].status == AdaptorStatus::Running || m[id].status
            == AdaptorStatus::Starting) ==> after_start(m, id) == m,
        !(m.contains_key(id) && (m[id].status == AdaptorStatus::Running || m[id].status
            == AdaptorStatus::Starting)) ==> {
            &&& after_start(m, id).dom() == m.dom().insert(id)
            &&& after_start(m, id)[id].status == AdaptorStatus::Running
            &&& after_start(m, id)[id].pid == Some(SIMULATED_PID)
            &&& forall|k: Seq<char>| k != id && #[trigger] m.contains_key(k) ==> after_start(m, id)[k] == m[k]
        },
{
    if !(m.contains_key(id) && (m[id].status == AdaptorStatus::Running || m[id].status
        == AdaptorStatus::Starting)) {
        assert(after_start(m, id).dom() =~= m.dom().insert(id));
    }
}

/// The reported status is the recorded one for a registered adaptor and
/// `Stopped` otherwise, and the running ids are exactly the registered adaptors
/// whose status is `Running`.
pub proof fn law_status_and_running_ids(m: Map<Seq<char>, AdaptorEntry>, id: Seq<char>)
    ensures
        m.contains_key(id) ==> status_of(m, id) == m[id].status,
        !m.contains_key(id) ==> status_of(m, id) == AdaptorStatus::Stopped,
        running_ids(m).contains(id) <==> (m.contains_key(id) && m[id].status
            == AdaptorStatus::Running),
{
}

/// Stopping an adaptor removes exactly its id from the running ids, and starting it
/// again afterwards makes it run.
pub proof fn law_stop_then_start(m: Map<Seq<char>, AdaptorEntry>, id: Seq<char>)
    ensures
        running_ids(after_stop(m, id)) == running_ids(m).remove(id),
        status_of(after_start(after_stop(m, id), id), id) == AdaptorStatus::Running,
{
    assert(running_ids(after_stop(m, id)) =~= running_ids(m).remove(id));
}

proof fn lemma_trim_start_shape(s: Seq<char>)
    ensures
        exists|i: int|
            0 <= i <= s.len() && trim_start_ws(s) == s.subrange(i, s.len() as int) && (forall|t: int|
                0 <= t < i ==> is_white_space(#[trigger] s[t])),
    decreases s.len(),
{
    if s.len() > 0 && is_white_space(s[0]) {
        let r = s.drop_first();
        lemma_trim_start_shape(r);
        let i = choose|i: int|
            0 <= i <= r.len() && trim_start_ws(r) == r.subrange(i, r.len() as int) && (forall|t: int|
                0 <= t < i ==> is_white_space(#[trigger] r[t]));
        assert(r.subrange(i, r.len() as int) =~= s.subrange(i + 1, s.len() as int));
        assert forall|t: int| 0 <= t < i + 1 implies is_white_space(#[trigger] s[t]) by {
            if t > 0 {
                assert(s[t] == r[t - 1]);
            }
        }
    } else {
        assert(s.subrange(0, s.len() as int) =~= s);
    }
}

proof fn lemma_trim_end_shape(s: Seq<char>)
    ensures
        exists|j: int|
            0 <= j <= s.len() && trim_end_ws(s) == s.subrange(0, j) && (forall|t: int|
                j <= t < s.len() ==> is_white_space(#[trigger] s[t])),
    decreases s.len(),
{
    if s.len() > 0 && is_white_space(s.last()) {
        let r = s.drop_last();
        lemma_trim_end_shape(r);
        let j = choose|j: int|
            0 <= j <= r.len() && trim_end_ws(r) == r.subrange(0, j) && (forall|t: int|
                j <= t < r.len() ==> is_white_space(#[trigger] r[t]));
        assert(r.subrange(0, j) =~= s.subrange(0, j));
        assert forall|t: int| j <= t < s.len() implies is_white_space(#[trigger] s[t]) by {
            if t < r.len() {
                assert(s[t] == r[t]);
            }
        }
    } else {
        assert(s.subrange(0, s.len() as int) =~= s);
    }
}

/// Trimming removes whitespace, and only whitespace, from both ends: the result
/// is a contiguous part of the input, everything cut off is whitespace, and the
/// result neither starts nor ends with whitespace.
pub proof fn law_trim_cuts_only_whitespace(s: Seq<char>)
    ensures
        exists|i: int, j: int|
            0 <= i <= j <= s.len() && trim_ws(s) == s.subrange(i, j) && (forall|t: int|
                0 <= t < i ==> is_white_space(#[trigger] s[t])) && (forall|t: int|
                j <= t < s.len() ==> is_white_space(#[trigger] s[t])),
        trim_ws(s).len() > 0 ==> !is_white_space(trim_ws(s)[0]) && !is_white_space(
            trim_ws(s).last(),
        ),
{
    lemma_trim_is_trimmed(s);
    lemma_trim_start_shape(s);
    let i = choose|i: int|
        0 <= i <= s.len() && trim_start_ws(s) == s.subrange(i, s.len() as int) && (forall|t: int|
            0 <= t < i ==> is_white_space(#[trigger] s[t]));
    let u = trim_start_ws(s);
    lemma_trim_end_shape(u);
    let j = choose|j: int|
        0 <= j <= u.len() && trim_end_ws(u) == u.subrange(0, j) && (forall|t: int|
            j <= t < u.len() ==> is_white_space(#[trigger] u[t]));
    assert(u.subrange(0, j) =~= s.subrange(i, i + j));
    assert forall|t: int| i + j <= t < s.len() implies is_white_space(#[trigger] s[t]) by {
        assert(s[t] == u[t - i]);
    }
    assert(trim_ws(s) == s.subrange(i, i + j));
}

} // verus!
