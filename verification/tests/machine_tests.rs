use dictation_core::capture::{
    CaptureLoop, CapturePhase, DeviceProbe, HardwareFormat, PollAction, RecordingSession,
};
use dictation_core::channel::CaptureChannel;
use dictation_core::client::{DispatchOutcome, ProbeOutcome};
use dictation_core::error::PipelineError;
use dictation_core::machine::{
    should_inject, Pipeline, PipelineStage, PipelineStep, RecordingState, RecordingStateMachine,
    ToggleAction,
};
use dictation_core::sample::Sample;
use dictation_core::types::get_recording_control;

fn recording(samples: &[f32]) -> RecordingSession {
    RecordingSession {
        started_at: 0,
        sample_rate: 16000,
        channel_count: 1,
        samples: samples.iter().map(|x| Sample::from_bits(x.to_bits())).collect(),
    }
}

fn mono_device() -> DeviceProbe {
    DeviceProbe::Configured { sample_rate: 16000, channels: 1, format: HardwareFormat::F32 }
}

#[test]
fn a_new_machine_is_idle() {
    assert_eq!(RecordingStateMachine::new().current(), RecordingState::Idle);
}

#[test]
fn a_new_pipeline_holds_nothing_yet() {
    let pipeline = Pipeline::new();
    assert_eq!(pipeline.current_stage(), PipelineStage::AwaitingCapture);
    assert_eq!(pipeline.failure_kind(), None);
    assert!(pipeline.container_bytes().is_empty());
    assert_eq!(pipeline.resolved_text(), "");
    assert!(!pipeline.injects());
}

#[test]
fn toggles_walk_idle_recording_transcribing() {
    let mut machine = RecordingStateMachine::new();
    let mut signal = get_recording_control();
    signal.reset();
    assert_eq!(machine.toggle(&mut signal), ToggleAction::StartSession);
    assert_eq!(machine.current(), RecordingState::Recording);
    assert!(!signal.is_stop_requested());
    assert_eq!(machine.toggle(&mut signal), ToggleAction::EndSession);
    assert_eq!(machine.current(), RecordingState::Transcribing);
    assert!(signal.is_stop_requested());
    machine.complete(None);
    assert_eq!(machine.current(), RecordingState::Idle);
}

#[test]
fn starting_leaves_the_stop_flag_alone() {
    let mut machine = RecordingStateMachine::new();
    let mut signal = get_recording_control();
    assert!(signal.is_stop_requested());
    machine.toggle(&mut signal);
    assert!(signal.is_stop_requested());
    let mut machine = RecordingStateMachine::new();
    signal.reset();
    machine.toggle(&mut signal);
    assert!(!signal.is_stop_requested());
}

#[test]
fn a_toggle_while_transcribing_changes_nothing() {
    for lowered in [false, true] {
        let mut machine = RecordingStateMachine::new();
        let mut signal = get_recording_control();
        machine.toggle(&mut signal);
        machine.toggle(&mut signal);
        if lowered {
            signal.reset();
        }
        let before = signal;
        for _ in 0..5 {
            assert_eq!(machine.toggle(&mut signal), ToggleAction::Ignore);
            assert_eq!(machine.current(), RecordingState::Transcribing);
            assert_eq!(signal, before);
        }
    }
}

#[test]
fn the_cycle_ends_idle_whatever_the_failure() {
    let failures = [
        None,
        Some(PipelineError::NoInputDevice),
        Some(PipelineError::ConfigurationError),
        Some(PipelineError::UnsupportedFormat),
        Some(PipelineError::StreamStartError),
        Some(PipelineError::NoAudioCaptured),
        Some(PipelineError::EncodingError),
        Some(PipelineError::BackendUnreachable),
        Some(PipelineError::BackendUnhealthy),
        Some(PipelineError::BackendError(500)),
        Some(PipelineError::MalformedResponse),
    ];
    for failure in failures {
        let mut machine = RecordingStateMachine::new();
        let mut signal = get_recording_control();
        machine.toggle(&mut signal);
        machine.toggle(&mut signal);
        machine.complete(failure);
        assert_eq!(machine.current(), RecordingState::Idle);
        assert_eq!(machine.toggle(&mut signal), ToggleAction::StartSession);
    }
}

#[test]
fn completing_moves_only_a_transcribing_machine() {
    let mut signal = get_recording_control();
    let mut machine = RecordingStateMachine::new();
    machine.complete(None);
    assert_eq!(machine.current(), RecordingState::Idle);
    machine.toggle(&mut signal);
    machine.complete(Some(PipelineError::NoAudioCaptured));
    assert_eq!(machine.current(), RecordingState::Recording);
}

#[test]
fn a_successful_session_resolves_to_the_transcript() {
    let mut pipeline = Pipeline::new();
    assert_eq!(pipeline.current_stage(), PipelineStage::AwaitingCapture);
    assert_eq!(pipeline.on_capture(Ok(recording(&[0.0, 0.5, -0.5]))), PipelineStep::CheckHealth);
    assert_eq!(pipeline.current_stage(), PipelineStage::AwaitingHealth);
    assert_eq!(pipeline.container_bytes().len(), 44 + 6);
    assert_eq!(&pipeline.container_bytes()[44..], &[0, 0, 0, 0x40, 0, 0xc0]);
    assert_eq!(pipeline.on_health(ProbeOutcome::Status(200)), PipelineStep::Dispatch);
    assert_eq!(pipeline.current_stage(), PipelineStage::AwaitingDispatch);
    assert_eq!(pipeline.container_bytes().len(), 50);
    let answer = DispatchOutcome::Response { status: 200, body: br#"{"text": "hello world"}"#.to_vec() };
    assert_eq!(pipeline.on_dispatch(&answer), PipelineStep::Finish);
    assert_eq!(pipeline.current_stage(), PipelineStage::Finished);
    assert_eq!(pipeline.resolved_text(), "hello world");
    assert_eq!(pipeline.failure_kind(), None);
    assert!(pipeline.injects());
}

#[test]
fn a_session_without_samples_skips_dispatch_and_ends_idle() {
    let mut machine = RecordingStateMachine::new();
    let mut signal = get_recording_control();
    let mut channel = CaptureChannel::new();
    assert_eq!(machine.toggle(&mut signal), ToggleAction::StartSession);
    let mut session = CaptureLoop::open(mono_device(), &mut signal).expect("opens");
    session.confirm_stream(true, 1_000).expect("starts");
    assert_eq!(session.poll(&signal, 1_000, &mut channel), PollAction::Wait(50));
    assert_eq!(machine.toggle(&mut signal), ToggleAction::EndSession);
    assert_eq!(session.poll(&signal, 1_050, &mut channel), PollAction::Drain);
    session.drain(&mut channel);
    assert_eq!(session.current_phase(), CapturePhase::Closed);
    let captured = session.finish();
    assert_eq!(captured.as_ref().err(), Some(&PipelineError::NoAudioCaptured));

    let mut pipeline = Pipeline::new();
    assert_eq!(pipeline.on_capture(captured), PipelineStep::Finish);
    assert_eq!(pipeline.current_stage(), PipelineStage::Finished);
    assert_eq!(pipeline.failure_kind(), Some(PipelineError::NoAudioCaptured));
    assert_eq!(pipeline.resolved_text(), "Transcription failed");
    assert!(!pipeline.injects());
    assert!(pipeline.container_bytes().is_empty());
    machine.complete(pipeline.failure_kind());
    assert_eq!(machine.current(), RecordingState::Idle);
}

#[test]
fn an_unhealthy_backend_ends_the_session_before_any_audio_is_sent() {
    let mut pipeline = Pipeline::new();
    assert_eq!(pipeline.on_capture(Ok(recording(&[0.25, 0.25]))), PipelineStep::CheckHealth);
    assert_eq!(pipeline.on_health(ProbeOutcome::Status(503)), PipelineStep::Finish);
    assert_eq!(pipeline.current_stage(), PipelineStage::Finished);
    assert_eq!(pipeline.failure_kind(), Some(PipelineError::BackendUnhealthy));
    assert_eq!(pipeline.resolved_text(), "Transcription failed");
    assert!(!pipeline.injects());
    let mut machine = RecordingStateMachine::new();
    let mut signal = get_recording_control();
    machine.toggle(&mut signal);
    machine.toggle(&mut signal);
    machine.complete(pipeline.failure_kind());
    assert_eq!(machine.current(), RecordingState::Idle);
}

#[test]
fn an_unreachable_backend_ends_the_session_at_the_health_check() {
    let mut pipeline = Pipeline::new();
    pipeline.on_capture(Ok(recording(&[0.25])));
    assert_eq!(pipeline.on_health(ProbeOutcome::Unreachable), PipelineStep::Finish);
    assert_eq!(pipeline.failure_kind(), Some(PipelineError::BackendUnreachable));
    assert_eq!(pipeline.resolved_text(), "Transcription failed");
}

#[test]
fn dispatch_failures_resolve_to_the_fallback() {
    let outcomes = vec![
        (DispatchOutcome::Unreachable, PipelineError::BackendUnreachable),
        (
            DispatchOutcome::Response { status: 500, body: b"boom".to_vec() },
            PipelineError::BackendError(500),
        ),
        (
            DispatchOutcome::Response { status: 200, body: b"not json".to_vec() },
            PipelineError::MalformedResponse,
        ),
    ];
    for (outcome, expected) in outcomes {
        let mut pipeline = Pipeline::new();
        pipeline.on_capture(Ok(recording(&[0.1, 0.2])));
        pipeline.on_health(ProbeOutcome::Status(200));
        assert_eq!(pipeline.on_dispatch(&outcome), PipelineStep::Finish);
        assert_eq!(pipeline.current_stage(), PipelineStage::Finished);
        assert_eq!(pipeline.failure_kind(), Some(expected));
        assert_eq!(pipeline.resolved_text(), "Transcription failed");
        assert!(!pipeline.injects());
    }
}

#[test]
fn capture_failures_end_the_pipeline_at_once() {
    let failures = [
        PipelineError::NoInputDevice,
        PipelineError::ConfigurationError,
        PipelineError::UnsupportedFormat,
        PipelineError::StreamStartError,
        PipelineError::NoAudioCaptured,
    ];
    for failure in failures {
        let mut pipeline = Pipeline::new();
        assert_eq!(pipeline.on_capture(Err(failure)), PipelineStep::Finish);
        assert_eq!(pipeline.failure_kind(), Some(failure));
        assert_eq!(pipeline.resolved_text(), "Transcription failed");
    }
}

#[test]
fn a_recording_the_encoder_cannot_write_ends_with_an_encoding_error() {
    let mut ragged = recording(&[0.1, 0.2, 0.3]);
    ragged.channel_count = 2;
    let mut pipeline = Pipeline::new();
    assert_eq!(pipeline.on_capture(Ok(ragged)), PipelineStep::Finish);
    assert_eq!(pipeline.failure_kind(), Some(PipelineError::EncodingError));
    assert_eq!(pipeline.resolved_text(), "Transcription failed");
}

#[test]
fn the_placeholder_for_a_missing_text_is_injected() {
    let mut pipeline = Pipeline::new();
    pipeline.on_capture(Ok(recording(&[0.1])));
    pipeline.on_health(ProbeOutcome::Status(200));
    pipeline.on_dispatch(&DispatchOutcome::Response { status: 200, body: b"{}".to_vec() });
    assert_eq!(pipeline.resolved_text(), "No text returned");
    assert_eq!(pipeline.failure_kind(), None);
    assert!(pipeline.injects());
}

#[test]
fn an_empty_transcript_is_not_injected() {
    let mut pipeline = Pipeline::new();
    pipeline.on_capture(Ok(recording(&[0.1])));
    pipeline.on_health(ProbeOutcome::Status(200));
    pipeline.on_dispatch(&DispatchOutcome::Response { status: 200, body: br#"{"text": "  "}"#.to_vec() });
    assert_eq!(pipeline.resolved_text(), "  ");
    assert_eq!(pipeline.failure_kind(), None);
    assert!(!pipeline.injects());
}

#[test]
fn blank_texts_and_failure_reports_are_not_injected() {
    assert!(should_inject("hello world"));
    assert!(should_inject(" x "));
    assert!(should_inject("No text returned"));
    assert!(should_inject("Failed"));
    assert!(should_inject("faile d"));
    assert!(!should_inject(""));
    assert!(!should_inject("   "));
    assert!(!should_inject("\t\n\r "));
    assert!(!should_inject("\u{a0}\u{2003}\u{3000}"));
    assert!(!should_inject("Transcription failed"));
    assert!(!should_inject("failed"));
    assert!(!should_inject("it failed again"));
    assert!(!should_inject("unfailedly"));
}

#[test]
fn should_inject_is_the_trim_and_contains_test() {
    let texts = [
        "", " ", "a", "fail", "failed", " failed ", "faile", "ffailed", "failefailed", "x\u{85}",
        "\u{85}", "\u{200b}", "\u{feff}", "\u{1680}", "ok then", "FAILED", "f a i l e d",
    ];
    for text in texts {
        let expected = !text.trim().is_empty() && !text.contains("failed");
        assert_eq!(should_inject(text), expected, "text = {:?}", text);
    }
}

#[test]
fn two_quick_toggles_while_recording_end_exactly_one_session() {
    let mut machine = RecordingStateMachine::new();
    let mut signal = get_recording_control();
    let mut channel = CaptureChannel::new();
    let mut sessions_started = 0;
    let mut sessions_ended = 0;

    if machine.toggle(&mut signal) == ToggleAction::StartSession {
        sessions_started += 1;
    }
    let mut session = CaptureLoop::open(mono_device(), &mut signal).expect("opens");
    session.confirm_stream(true, 0).expect("starts");
    assert!(channel.submit_f32(&[0.5f32.to_bits(), 0.25f32.to_bits()]));
    assert_eq!(session.poll(&signal, 0, &mut channel), PollAction::Wait(50));

    // Both toggles arrive before the next poll is due.
    let first = machine.toggle(&mut signal);
    let second = machine.toggle(&mut signal);
    assert_eq!(first, ToggleAction::EndSession);
    assert_eq!(second, ToggleAction::Ignore);
    assert_eq!(machine.current(), RecordingState::Transcribing);
    assert!(signal.is_stop_requested());
    for action in [first, second] {
        if action == ToggleAction::StartSession {
            sessions_started += 1;
        }
        if action == ToggleAction::EndSession {
            sessions_ended += 1;
        }
    }
    assert_eq!(sessions_started, 1);
    assert_eq!(sessions_ended, 1);

    assert!(channel.submit_f32(&[0.125f32.to_bits()]));
    assert_eq!(session.poll(&signal, 50, &mut channel), PollAction::Drain);
    session.drain(&mut channel);
    let captured = session.finish().expect("captured");
    assert_eq!(captured.samples.len(), 3);
    assert_eq!(captured.samples[2].to_bits(), 0.125f32.to_bits());
}
