use dictation_core::capture::{
    CaptureLoop, CapturePhase, DeviceProbe, HardwareFormat, PollAction, MAX_SESSION_MS,
    POLL_INTERVAL_MS,
};
use dictation_core::channel::{CaptureChannel, Polled};
use dictation_core::error::PipelineError;
use dictation_core::sample::Sample;
use dictation_core::types::{get_recording_control, CancellationSignal};

fn device(format: HardwareFormat) -> DeviceProbe {
    DeviceProbe::Configured { sample_rate: 48000, channels: 2, format }
}

fn running() -> CancellationSignal {
    let mut signal = get_recording_control();
    signal.reset();
    signal
}

fn active(start: u64) -> (CaptureLoop, CancellationSignal, CaptureChannel) {
    let mut signal = get_recording_control();
    let mut session = CaptureLoop::open(device(HardwareFormat::F32), &mut signal).expect("opens");
    session.confirm_stream(true, start).expect("starts");
    (session, signal, CaptureChannel::new())
}

fn bits(values: &[f32]) -> Vec<u32> {
    values.iter().map(|x| x.to_bits()).collect()
}

#[test]
fn constants_are_fifty_milliseconds_and_thirty_seconds() {
    assert_eq!(POLL_INTERVAL_MS, 50);
    assert_eq!(MAX_SESSION_MS, 30_000);
}

#[test]
fn opening_fails_without_a_device() {
    let mut signal = get_recording_control();
    let r = CaptureLoop::open(DeviceProbe::NoDevice, &mut signal);
    assert_eq!(r.err(), Some(PipelineError::NoInputDevice));
    assert!(signal.is_stop_requested());
}

#[test]
fn opening_fails_without_a_configuration() {
    let mut signal = running();
    let r = CaptureLoop::open(DeviceProbe::NoConfiguration, &mut signal);
    assert_eq!(r.err(), Some(PipelineError::ConfigurationError));
    assert!(!signal.is_stop_requested());
}

#[test]
fn opening_fails_on_a_stream_no_container_could_describe() {
    let probes = [
        DeviceProbe::Configured { sample_rate: 0, channels: 2, format: HardwareFormat::F32 },
        DeviceProbe::Configured { sample_rate: 48000, channels: 0, format: HardwareFormat::I16 },
        DeviceProbe::Configured { sample_rate: u32::MAX, channels: 2, format: HardwareFormat::F32 },
        DeviceProbe::Configured { sample_rate: 0, channels: 0, format: HardwareFormat::I16 },
    ];
    for probe in probes {
        let mut signal = get_recording_control();
        let r = CaptureLoop::open(probe, &mut signal);
        assert_eq!(r.err(), Some(PipelineError::ConfigurationError));
        assert!(signal.is_stop_requested());
    }
}

#[test]
fn opening_fails_on_an_unsupported_format_before_the_flag_is_touched() {
    let mut signal = get_recording_control();
    let r = CaptureLoop::open(device(HardwareFormat::Unsupported), &mut signal);
    assert_eq!(r.err(), Some(PipelineError::UnsupportedFormat));
    assert!(signal.is_stop_requested());
}

#[test]
fn an_unsupported_format_is_reported_whatever_else_the_configuration_says() {
    let probes = [
        DeviceProbe::Configured { sample_rate: 0, channels: 0, format: HardwareFormat::Unsupported },
        DeviceProbe::Configured { sample_rate: 0, channels: 2, format: HardwareFormat::Unsupported },
        DeviceProbe::Configured {
            sample_rate: 48000,
            channels: 0,
            format: HardwareFormat::Unsupported,
        },
        DeviceProbe::Configured {
            sample_rate: u32::MAX,
            channels: u16::MAX,
            format: HardwareFormat::Unsupported,
        },
    ];
    for probe in probes {
        let mut signal = running();
        let r = CaptureLoop::open(probe, &mut signal);
        assert_eq!(r.err(), Some(PipelineError::UnsupportedFormat));
        assert!(!signal.is_stop_requested());
    }
}

#[test]
fn opening_lowers_a_stale_stop_flag() {
    for format in [HardwareFormat::F32, HardwareFormat::I16] {
        let mut signal = get_recording_control();
        signal.request_stop();
        let session = CaptureLoop::open(device(format), &mut signal).expect("opens");
        assert!(!signal.is_stop_requested());
        assert_eq!(session.current_phase(), CapturePhase::Opening);
        assert_eq!(session.hardware_format(), format);
        assert_eq!(session.sample_count(), 0);
    }
}

#[test]
fn a_stop_left_over_from_the_last_session_does_not_end_the_next() {
    let mut signal = get_recording_control();
    let mut channel = CaptureChannel::new();

    let mut first = CaptureLoop::open(device(HardwareFormat::F32), &mut signal).expect("opens");
    first.confirm_stream(true, 0).expect("starts");
    signal.request_stop();
    assert_eq!(first.poll(&signal, 10, &mut channel), PollAction::Drain);
    first.drain(&mut channel);
    assert!(signal.is_stop_requested());

    let mut second = CaptureLoop::open(device(HardwareFormat::F32), &mut signal).expect("opens");
    second.confirm_stream(true, 100).expect("starts");
    channel.submit_f32(&bits(&[0.5]));
    assert_eq!(second.poll(&signal, 110, &mut channel), PollAction::Wait(50));
    assert_eq!(second.current_phase(), CapturePhase::Active);
    assert_eq!(second.sample_count(), 1);
}

#[test]
fn a_refused_stream_closes_the_session() {
    let mut signal = get_recording_control();
    let mut session = CaptureLoop::open(device(HardwareFormat::I16), &mut signal).expect("opens");
    assert_eq!(session.confirm_stream(false, 5), Err(PipelineError::StreamStartError));
    assert_eq!(session.current_phase(), CapturePhase::Closed);
    assert_eq!(session.finish().err(), Some(PipelineError::NoAudioCaptured));
}

#[test]
fn a_started_stream_makes_the_session_active() {
    let (session, _, _) = active(77);
    assert_eq!(session.current_phase(), CapturePhase::Active);
}

#[test]
fn a_poll_collects_every_queued_block_in_order() {
    let (mut session, signal, mut channel) = active(100);
    channel.submit_f32(&bits(&[0.1, 0.2]));
    channel.submit_f32(&bits(&[]));
    channel.submit_i16(&[32767, -32767]);
    assert_eq!(session.poll(&signal, 120, &mut channel), PollAction::Wait(50));
    assert_eq!(session.current_phase(), CapturePhase::Active);
    assert_eq!(session.sample_count(), 4);
    assert!(matches!(channel.try_recv(), Polled::Empty));
    channel.submit_f32(&bits(&[0.3]));
    assert_eq!(session.poll(&signal, 170, &mut channel), PollAction::Wait(50));
    session.poll(&{ let mut s = signal; s.request_stop(); s }, 220, &mut channel);
    session.drain(&mut channel);
    let recording = session.finish().expect("captured");
    let values: Vec<f32> = recording.samples.iter().map(|s| f32::from_bits(s.to_bits())).collect();
    assert_eq!(values, vec![0.1, 0.2, 1.0, -1.0, 0.3]);
    assert_eq!(recording.sample_rate, 48000);
    assert_eq!(recording.channel_count, 2);
    assert_eq!(recording.started_at, 100);
}

#[test]
fn a_stop_request_ends_the_session_without_touching_the_channel() {
    let (mut session, mut signal, mut channel) = active(0);
    channel.submit_f32(&bits(&[0.5]));
    signal.request_stop();
    assert_eq!(session.poll(&signal, 10, &mut channel), PollAction::Drain);
    assert_eq!(session.current_phase(), CapturePhase::Draining);
    assert_eq!(session.sample_count(), 0);
    session.drain(&mut channel);
    assert_eq!(session.current_phase(), CapturePhase::Closed);
    assert_eq!(session.sample_count(), 1);
}

#[test]
fn the_final_drain_takes_what_arrived_after_the_last_poll() {
    let (mut session, mut signal, mut channel) = active(0);
    channel.submit_f32(&bits(&[0.5, 0.5]));
    assert_eq!(session.poll(&signal, 0, &mut channel), PollAction::Wait(50));
    channel.submit_f32(&bits(&[0.25]));
    signal.request_stop();
    assert_eq!(session.poll(&signal, 50, &mut channel), PollAction::Drain);
    channel.submit_f32(&bits(&[0.125]));
    session.drain(&mut channel);
    let recording = session.finish().expect("captured");
    let values: Vec<f32> = recording.samples.iter().map(|s| f32::from_bits(s.to_bits())).collect();
    assert_eq!(values, vec![0.5, 0.5, 0.25, 0.125]);
}

#[test]
fn the_ceiling_ends_the_session_whatever_the_flag_says() {
    let (mut session, signal, mut channel) = active(1_000);
    assert!(!signal.is_stop_requested());
    channel.submit_f32(&bits(&[0.5]));
    assert_eq!(session.poll(&signal, 31_000, &mut channel), PollAction::Drain);
    assert_eq!(session.current_phase(), CapturePhase::Draining);
    let (mut session, signal, mut channel) = active(1_000);
    assert_eq!(session.poll(&signal, u64::MAX, &mut channel), PollAction::Drain);
    let (mut session, signal, mut channel) = active(1_000);
    assert_eq!(session.poll(&signal, 30_999, &mut channel), PollAction::Wait(1));
    assert_eq!(session.current_phase(), CapturePhase::Active);
}

#[test]
fn waits_shrink_so_that_no_poll_is_due_after_the_ceiling() {
    let (mut session, signal, mut channel) = active(500);
    assert_eq!(session.poll(&signal, 500, &mut channel), PollAction::Wait(50));
    assert_eq!(session.poll(&signal, 500 + 29_950, &mut channel), PollAction::Wait(50));
    assert_eq!(session.poll(&signal, 500 + 29_951, &mut channel), PollAction::Wait(49));
    assert_eq!(session.poll(&signal, 500 + 29_975, &mut channel), PollAction::Wait(25));
    assert_eq!(session.poll(&signal, 500 + 29_999, &mut channel), PollAction::Wait(1));
    assert_eq!(session.poll(&signal, 500 + 30_000, &mut channel), PollAction::Drain);
}

#[test]
fn an_unstopped_session_on_an_exact_clock_drains_at_the_ceiling() {
    let (mut session, signal, mut channel) = active(0);
    let mut now: u64 = 0;
    let mut polls = 0;
    loop {
        channel.submit_f32(&bits(&[0.5]));
        match session.poll(&signal, now, &mut channel) {
            PollAction::Wait(ms) => {
                assert!(ms >= 1 && ms <= POLL_INTERVAL_MS);
                now += ms;
                assert!(now <= MAX_SESSION_MS);
            }
            PollAction::Drain => break,
        }
        polls += 1;
    }
    assert_eq!(now, MAX_SESSION_MS);
    assert_eq!(polls, 600);
    session.drain(&mut channel);
    assert_eq!(session.sample_count(), 601);
}

#[test]
fn a_clock_reading_from_before_the_start_counts_as_no_time_at_all() {
    let (mut session, signal, mut channel) = active(10_000);
    assert_eq!(session.poll(&signal, 5, &mut channel), PollAction::Wait(50));
}

#[test]
fn a_vanished_producer_ends_the_session_after_the_drain() {
    let (mut session, signal, mut channel) = active(0);
    channel.submit_f32(&bits(&[0.5, -0.5]));
    channel.disconnect_producer();
    assert_eq!(session.poll(&signal, 20, &mut channel), PollAction::Drain);
    assert_eq!(session.current_phase(), CapturePhase::Draining);
    assert_eq!(session.sample_count(), 2);
    session.drain(&mut channel);
    assert_eq!(session.finish().expect("captured").samples.len(), 2);
}

#[test]
fn a_session_without_samples_captured_nothing() {
    let (mut session, mut signal, mut channel) = active(0);
    signal.request_stop();
    assert_eq!(session.poll(&signal, 3, &mut channel), PollAction::Drain);
    session.drain(&mut channel);
    assert_eq!(session.finish().err(), Some(PipelineError::NoAudioCaptured));
}

#[test]
fn empty_blocks_alone_capture_nothing() {
    let (mut session, mut signal, mut channel) = active(0);
    channel.submit_f32(&[]);
    channel.submit_i16(&[]);
    session.poll(&signal, 3, &mut channel);
    signal.request_stop();
    session.poll(&signal, 53, &mut channel);
    session.drain(&mut channel);
    assert_eq!(session.finish().err(), Some(PipelineError::NoAudioCaptured));
}

#[test]
fn a_finished_session_encodes_with_its_own_stream_parameters() {
    let (mut session, mut signal, mut channel) = active(0);
    channel.submit_f32(&bits(&[1.0, -1.0]));
    session.poll(&signal, 0, &mut channel);
    signal.request_stop();
    session.poll(&signal, 50, &mut channel);
    session.drain(&mut channel);
    let recording = session.finish().expect("captured");
    let bytes = recording.encode().expect("encodes");
    assert_eq!(&bytes[22..24], &[2, 0]);
    assert_eq!(&bytes[24..28], &[0x80, 0xbb, 0, 0]);
    assert_eq!(&bytes[44..], &[0xff, 0x7f, 0x01, 0x80]);
}

#[test]
fn channel_hands_blocks_out_first_in_first_out() {
    let mut channel = CaptureChannel::new();
    assert!(matches!(channel.try_recv(), Polled::Empty));
    assert!(channel.send(vec![Sample::from_bits(1)]));
    assert!(channel.send(vec![Sample::from_bits(2), Sample::from_bits(3)]));
    assert!(channel.send(vec![]));
    match channel.try_recv() {
        Polled::Block(b) => assert_eq!(b, vec![Sample::from_bits(1)]),
        other => panic!("unexpected {:?}", other),
    }
    match channel.try_recv() {
        Polled::Block(b) => assert_eq!(b, vec![Sample::from_bits(2), Sample::from_bits(3)]),
        other => panic!("unexpected {:?}", other),
    }
    match channel.try_recv() {
        Polled::Block(b) => assert!(b.is_empty()),
        other => panic!("unexpected {:?}", other),
    }
    assert!(matches!(channel.try_recv(), Polled::Empty));
}

#[test]
fn channel_reports_disconnection_only_once_it_is_empty() {
    let mut channel = CaptureChannel::new();
    channel.send(vec![Sample::from_bits(9)]);
    channel.disconnect_producer();
    assert!(matches!(channel.try_recv(), Polled::Block(_)));
    assert!(matches!(channel.try_recv(), Polled::Disconnected));
    assert!(matches!(channel.try_recv(), Polled::Disconnected));
}

#[test]
fn channel_drops_blocks_once_the_consumer_is_gone() {
    let mut channel = CaptureChannel::new();
    assert!(channel.submit_i16(&[1, 2]));
    channel.disconnect_consumer();
    assert!(!channel.send(vec![Sample::from_bits(1)]));
    assert!(!channel.submit_f32(&[7]));
    assert!(!channel.submit_i16(&[7]));
    let mut buffer = Vec::new();
    assert!(!channel.drain_into(&mut buffer));
    assert_eq!(buffer.len(), 2);
}

#[test]
fn draining_appends_everything_and_reports_the_producer() {
    let mut channel = CaptureChannel::new();
    let mut buffer = vec![Sample::from_bits(100)];
    channel.send(vec![Sample::from_bits(1), Sample::from_bits(2)]);
    channel.send(vec![Sample::from_bits(3)]);
    assert!(!channel.drain_into(&mut buffer));
    let got: Vec<u32> = buffer.iter().map(|s| s.to_bits()).collect();
    assert_eq!(got, vec![100, 1, 2, 3]);
    assert!(!channel.drain_into(&mut buffer));
    assert_eq!(buffer.len(), 4);
    channel.send(vec![Sample::from_bits(4)]);
    channel.disconnect_producer();
    assert!(channel.drain_into(&mut buffer));
    assert_eq!(buffer.len(), 5);
}
