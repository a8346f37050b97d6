use vinput_daemon::daemon::{
    recognition_actions, DaemonAction, DaemonController, DaemonState, MIN_SAMPLES_FOR_INFERENCE,
};
use vinput_daemon::post_processor::{LlmConfig, PostProcessor};
use vinput_daemon::protocol::{
    AdaptorStatus, DaemonCommand, DaemonStatus, RecognitionResult, SOURCE_ASR, SOURCE_LLM,
};

fn configured() -> PostProcessor {
    PostProcessor::with_config(LlmConfig {
        endpoint: Some("e".to_string()),
        api_key: Some("k".to_string()),
        ..Default::default()
    })
}

fn is_status(a: &DaemonAction, s: DaemonStatus) -> bool {
    matches!(a, DaemonAction::EmitStatus(x) if *x == s)
}

#[test]
fn status_names() {
    assert_eq!(DaemonStatus::Idle.as_str(), "idle");
    assert_eq!(DaemonStatus::Recording.as_str(), "recording");
    assert_eq!(DaemonStatus::Inferring.as_str(), "inferring");
    assert_eq!(DaemonStatus::Postprocessing.as_str(), "postprocessing");
    assert_eq!(DaemonStatus::Error.as_str(), "error");
    assert_eq!(DaemonState::Recording.to_status(), DaemonStatus::Recording);
    assert_eq!(DaemonState::Postprocessing.to_status(), DaemonStatus::Postprocessing);
}

#[test]
fn recognition_result_constructors() {
    let r = RecognitionResult::from_text("hi".to_string(), SOURCE_ASR);
    assert_eq!(r.commit_text, "hi");
    assert_eq!(r.candidates.len(), 1);
    assert_eq!(r.candidates[0].text, "hi");
    assert_eq!(r.candidates[0].source, "asr");
    let e = RecognitionResult::empty();
    assert_eq!(e.commit_text, "");
    assert!(e.candidates.is_empty());
}

#[test]
fn full_recording_cycle() {
    let mut c = DaemonController::new();
    assert_eq!(c.state(), DaemonState::Idle);

    let a = c.handle_command(DaemonCommand::StartRecording);
    assert_eq!(a.len(), 1);
    assert!(matches!(a[0], DaemonAction::BeginRecording));
    assert_eq!(c.state(), DaemonState::Idle);

    let a = c.recording_started(Ok(()));
    assert_eq!(a.len(), 1);
    assert!(is_status(&a[0], DaemonStatus::Recording));
    assert_eq!(c.state(), DaemonState::Recording);

    let a = c.handle_command(DaemonCommand::StopRecording { reason: "user".to_string() });
    assert_eq!(a.len(), 1);
    assert!(matches!(a[0], DaemonAction::CollectSamples));

    let a = c.samples_collected(MIN_SAMPLES_FOR_INFERENCE, true);
    assert_eq!(a.len(), 2);
    assert!(is_status(&a[0], DaemonStatus::Inferring));
    match &a[1] {
        DaemonAction::RunInference { command_mode, selected_text } => {
            assert!(!command_mode);
            assert_eq!(selected_text, "");
        }
        _ => panic!("expected inference"),
    }
    assert_eq!(c.state(), DaemonState::Idle);
}

#[test]
fn command_recording_carries_context() {
    let mut c = DaemonController::new();
    c.handle_command(DaemonCommand::StartCommandRecording { context_text: "选中".to_string() });
    c.recording_started(Ok(()));
    c.handle_command(DaemonCommand::StopRecording { reason: "done".to_string() });
    let a = c.samples_collected(5000, true);
    match &a[1] {
        DaemonAction::RunInference { command_mode, selected_text } => {
            assert!(*command_mode);
            assert_eq!(selected_text, "选中");
        }
        _ => panic!("expected inference"),
    }
}

#[test]
fn start_ignored_while_recording() {
    let mut c = DaemonController::new();
    c.handle_command(DaemonCommand::StartRecording);
    c.recording_started(Ok(()));
    assert!(c.handle_command(DaemonCommand::StartRecording).is_empty());
    assert!(c
        .handle_command(DaemonCommand::StartCommandRecording { context_text: "x".to_string() })
        .is_empty());
    assert_eq!(c.state(), DaemonState::Recording);
}

#[test]
fn stop_ignored_while_idle() {
    let mut c = DaemonController::new();
    assert!(c.handle_command(DaemonCommand::StopRecording { reason: "r".to_string() }).is_empty());
    assert!(c.samples_collected(10_000, true).is_empty());
    assert_eq!(c.state(), DaemonState::Idle);
}

#[test]
fn failed_capture_reports_audio_error() {
    let mut c = DaemonController::new();
    c.handle_command(DaemonCommand::StartRecording);
    let a = c.recording_started(Err("no device".to_string()));
    assert_eq!(a.len(), 1);
    match &a[0] {
        DaemonAction::EmitError { code, subject, detail } => {
            assert_eq!(code, "audio_error");
            assert_eq!(subject, "Audio");
            assert_eq!(detail, "无法开始录音: no device");
        }
        _ => panic!("expected error"),
    }
    assert_eq!(c.state(), DaemonState::Idle);

    c.handle_command(DaemonCommand::StartCommandRecording { context_text: "t".to_string() });
    let a = c.recording_started(Err("busy".to_string()));
    match &a[0] {
        DaemonAction::EmitError { detail, .. } => assert_eq!(detail, "无法开始命令录音: busy"),
        _ => panic!("expected error"),
    }
    // A confirmation without a pending start changes nothing.
    assert!(c.recording_started(Ok(())).is_empty());
    assert_eq!(c.state(), DaemonState::Idle);
}

#[test]
fn short_recording_skips_inference() {
    let mut c = DaemonController::new();
    c.handle_command(DaemonCommand::StartRecording);
    c.recording_started(Ok(()));
    c.handle_command(DaemonCommand::StopRecording { reason: "r".to_string() });
    let a = c.samples_collected(MIN_SAMPLES_FOR_INFERENCE - 1, true);
    assert_eq!(a.len(), 1);
    assert!(is_status(&a[0], DaemonStatus::Idle));
    assert_eq!(c.state(), DaemonState::Idle);
}

#[test]
fn missing_engine_skips_inference() {
    let mut c = DaemonController::new();
    c.handle_command(DaemonCommand::StartRecording);
    c.recording_started(Ok(()));
    c.handle_command(DaemonCommand::StopRecording { reason: "r".to_string() });
    let a = c.samples_collected(16_000, false);
    assert_eq!(a.len(), 1);
    assert!(is_status(&a[0], DaemonStatus::Inferring));
    assert_eq!(c.state(), DaemonState::Idle);
}

#[test]
fn adaptor_commands_update_registry() {
    let mut c = DaemonController::new();
    assert!(c.handle_command(DaemonCommand::StartAdaptor { adaptor_id: "a".to_string() }).is_empty());
    assert_eq!(c.adaptor_manager().get_status("a"), AdaptorStatus::Running);
    assert!(c.handle_command(DaemonCommand::StopAdaptor { adaptor_id: "a".to_string() }).is_empty());
    assert_eq!(c.adaptor_manager().get_status("a"), AdaptorStatus::Stopped);
    assert_eq!(c.state(), DaemonState::Idle);
}

#[test]
fn recognition_failure_reports_asr_error() {
    let a = recognition_actions(&PostProcessor::new(), Err("model".to_string()), false, "");
    assert_eq!(a.len(), 2);
    match &a[0] {
        DaemonAction::EmitError { code, subject, detail } => {
            assert_eq!(code, "asr_error");
            assert_eq!(subject, "ASR");
            assert_eq!(detail, "识别失败: model");
        }
        _ => panic!("expected error"),
    }
    assert!(is_status(&a[1], DaemonStatus::Idle));
}

#[test]
fn empty_recognition_publishes_empty_result() {
    let a = recognition_actions(&configured(), Ok(String::new()), false, "");
    assert_eq!(a.len(), 2);
    match &a[0] {
        DaemonAction::EmitResult(r) => {
            assert_eq!(r.commit_text, "");
            assert!(r.candidates.is_empty());
        }
        _ => panic!("expected result"),
    }
    assert!(is_status(&a[1], DaemonStatus::Idle));
}

#[test]
fn unconfigured_recognition_publishes_asr_text() {
    let a = recognition_actions(&PostProcessor::new(), Ok("你好".to_string()), true, "ctx");
    assert_eq!(a.len(), 2);
    match &a[0] {
        DaemonAction::EmitResult(r) => {
            assert_eq!(r.commit_text, "你好");
            assert_eq!(r.candidates[0].source, SOURCE_ASR);
        }
        _ => panic!("expected result"),
    }
    assert!(is_status(&a[1], DaemonStatus::Idle));
}

#[test]
fn configured_recognition_is_postprocessed() {
    let a = recognition_actions(&configured(), Ok("你好".to_string()), false, "");
    assert_eq!(a.len(), 3);
    assert!(is_status(&a[0], DaemonStatus::Postprocessing));
    match &a[1] {
        DaemonAction::EmitResult(r) => {
            assert_eq!(r.commit_text, "你好。");
            assert_eq!(r.candidates[0].source, SOURCE_LLM);
        }
        _ => panic!("expected result"),
    }
    assert!(is_status(&a[2], DaemonStatus::Idle));

    let a = recognition_actions(&configured(), Ok("改成英文".to_string()), true, "文字");
    match &a[1] {
        DaemonAction::EmitResult(r) => assert_eq!(r.commit_text, "改成英文"),
        _ => panic!("expected result"),
    }
}
