use audio_visualizer::binary32::Binary32;
use audio_visualizer::capture::{
    can_take, frame, is_silent, keep_newest, CaptureAction, CaptureEvent, Collector, Phase,
    AUDCLNT_BUFFERFLAGS_SILENT,
};
use audio_visualizer::control::{Control, RefreshRate};
use audio_visualizer::decode::MonoFrame;
use audio_visualizer::format::{Guid, SampleFormat, StreamFormat, WaveFormat};
use audio_visualizer::opening::{open, OpenAction, OpenEvent, Opening};
use audio_visualizer::protocol::{AudioFrame, CompanionFrame, MessageTarget, Payload};
use audio_visualizer::sampler::{run_sampler, Sampler, SamplerAction, SamplerEvent};
use windows::Win32::Media::Audio;

const STEREO: StreamFormat = StreamFormat {
    channels: 2,
    sample_rate: 44_100,
    block_align: 4,
    format: SampleFormat::Pcm16,
};

const WAVE: WaveFormat = WaveFormat {
    format_tag: 1,
    channels: 2,
    samples_per_sec: 44_100,
    block_align: 4,
    bits_per_sample: 16,
    sub_format: Guid { data1: 0, data2: 0, data3: 0, data4: [0; 8] },
};

fn failure(text: &str) -> SamplerEvent {
    SamplerEvent::Failed(text.to_owned())
}

fn observed(running: bool, rate: RefreshRate) -> SamplerEvent {
    SamplerEvent::Observed(Control { running, rate })
}

fn reported(action: SamplerAction) -> String {
    match action {
        SamplerAction::Send(CompanionFrame::Message {
            v: 5,
            target: MessageTarget::Broadcast,
            payload: Payload::Error { message },
        }) => message,
        other => panic!("expected a report, got {other:?}"),
    }
}

fn audio_frame() -> AudioFrame {
    AudioFrame {
        captured_at_unix_ms: 77,
        level: Binary32 { bits: 1 },
        peak: Binary32 { bits: 2 },
        bands: vec![Binary32 { bits: 3 }],
    }
}

#[test]
fn frames_are_captured_and_published_in_rounds() {
    let (state, action) = run_sampler(Sampler::Entering, SamplerEvent::Done);
    assert!(matches!(action, SamplerAction::OpenLoopback));
    let (mut state, action) = run_sampler(state, SamplerEvent::Done);
    assert!(matches!(action, SamplerAction::CaptureFrame));
    for (rate, pause) in [(RefreshRate::Fps30, 33), (RefreshRate::Fps60, 16)] {
        let (next, action) = run_sampler(state, SamplerEvent::Captured(audio_frame()));
        match action {
            SamplerAction::Send(CompanionFrame::Message {
                v: 5,
                target: MessageTarget::Broadcast,
                payload: Payload::Frame(frame),
            }) => assert_eq!(frame.captured_at_unix_ms, 77),
            other => panic!("expected a frame, got {other:?}"),
        }
        let (next, action) = run_sampler(next, SamplerEvent::Done);
        assert!(matches!(action, SamplerAction::ReadControl));
        let (next, action) = run_sampler(next, observed(true, rate));
        match action {
            SamplerAction::Wait { millis } => assert_eq!(millis, pause),
            other => panic!("expected a pause, got {other:?}"),
        }
        let (next, action) = run_sampler(next, observed(true, rate));
        assert!(matches!(action, SamplerAction::CaptureFrame));
        state = next;
    }
    assert_eq!(state, Sampler::Capturing);
}

#[test]
fn a_failed_entry_is_reported_and_ends_the_sampler() {
    let (state, action) = run_sampler(Sampler::Entering, failure("denied"));
    assert_eq!(reported(action), "COM initialization failed: denied");
    for event in [SamplerEvent::Done, failure("gone"), SamplerEvent::Poisoned] {
        let (state, action) = run_sampler(state, event);
        assert_eq!(state, Sampler::Finished);
        assert!(matches!(action, SamplerAction::Return));
    }
}

#[test]
fn a_failed_opening_is_reported_and_retried() {
    let (state, action) = run_sampler(Sampler::Opening, failure("no device"));
    assert_eq!(reported(action), "no device");
    let (state, action) = run_sampler(state, failure("gone"));
    assert_eq!(state, Sampler::Checking { open: false });
    assert!(matches!(action, SamplerAction::ReadControl));
    let (state, _) = run_sampler(state, observed(true, RefreshRate::Fps30));
    let (state, action) = run_sampler(state, observed(true, RefreshRate::Fps30));
    assert_eq!(state, Sampler::Opening);
    assert!(matches!(action, SamplerAction::OpenLoopback));
}

#[test]
fn a_failed_capture_is_reported_and_the_loopback_given_up() {
    let (state, action) = run_sampler(Sampler::Capturing, failure("device lost"));
    assert_eq!(reported(action), "device lost");
    let (state, action) = run_sampler(state, SamplerEvent::Poisoned);
    assert!(matches!(action, SamplerAction::Release));
    let (state, action) = run_sampler(state, SamplerEvent::Done);
    assert!(matches!(action, SamplerAction::ReadControl));
    assert_eq!(state, Sampler::Checking { open: false });
}

#[test]
fn the_sampler_ends_when_it_must() {
    let stopped = || observed(false, RefreshRate::Fps60);
    let cases = [
        (Sampler::Publishing, failure("broken pipe")),
        (Sampler::Publishing, SamplerEvent::Poisoned),
        (Sampler::Checking { open: true }, stopped()),
        (Sampler::Waiting { open: true }, stopped()),
        (Sampler::Checking { open: false }, SamplerEvent::Poisoned),
        (Sampler::Waiting { open: false }, SamplerEvent::Poisoned),
    ];
    for (state, event) in cases {
        let (state, action) = run_sampler(state, event);
        assert_eq!(state, Sampler::Finished);
        assert!(matches!(action, SamplerAction::Return));
    }
    let (state, action) = run_sampler(Sampler::Finished, SamplerEvent::Done);
    assert_eq!(state, Sampler::Finished);
    assert!(matches!(action, SamplerAction::Await));
}

#[test]
fn the_sampler_leaves_other_events_alone() {
    let (state, action) = run_sampler(Sampler::Capturing, SamplerEvent::Done);
    assert_eq!(state, Sampler::Capturing);
    assert!(matches!(action, SamplerAction::Await));
}

fn opened_until_initialized(wave: WaveFormat) -> Opening<String> {
    let (state, action) = open(Opening::Enumerating, OpenEvent::Done);
    assert!(matches!(action, OpenAction::LocateEndpoint));
    let (state, action) = open(state, OpenEvent::Done);
    assert!(matches!(action, OpenAction::ActivateClient));
    let (state, action) = open(state, OpenEvent::Done);
    assert!(matches!(action, OpenAction::QueryMixFormat));
    let (state, action) = open(state, OpenEvent::MixFormat(Some(wave)));
    match action {
        OpenAction::InitializeClient(setup) => {
            assert_eq!(setup.share_mode, Audio::AUDCLNT_SHAREMODE_SHARED.0);
            assert_eq!(setup.stream_flags, Audio::AUDCLNT_STREAMFLAGS_LOOPBACK);
            assert_eq!((setup.buffer_duration, setup.periodicity), (2_000_000, 0));
        }
        other => panic!("expected the initialization, got {other:?}"),
    }
    state
}

fn open_failure(action: OpenAction<String>) -> String {
    match action {
        OpenAction::Fail(message) => message,
        other => panic!("expected a failure, got {other:?}"),
    }
}

#[test]
fn a_loopback_is_opened() {
    let (state, action) = open(opened_until_initialized(WAVE), OpenEvent::Done);
    assert!(matches!(action, OpenAction::FreeMixFormat));
    let (state, action) = open(state, OpenEvent::Done);
    assert!(matches!(action, OpenAction::RequestCapture));
    let (state, action) = open(state, OpenEvent::Done);
    assert!(matches!(action, OpenAction::StartClient));
    let (state, action) = open(state, OpenEvent::Done);
    assert!(matches!(state, Opening::Finished));
    match action {
        OpenAction::Opened(stream) => assert_eq!(stream, STEREO),
        other => panic!("expected an open loopback, got {other:?}"),
    }
}

#[test]
fn an_undecodable_mix_format_is_freed_and_reported() {
    let eight_bits = WaveFormat { bits_per_sample: 8, ..WAVE };
    let (state, action) = open(opened_until_initialized(eight_bits), OpenEvent::Done);
    assert!(matches!(action, OpenAction::FreeMixFormat));
    let (_, action) = open(state, OpenEvent::Done);
    assert_eq!(open_failure(action), "unsupported WASAPI format tag 1 (8 bits)");
}

#[test]
fn a_failed_initialization_counts_first() {
    let eight_bits = WaveFormat { bits_per_sample: 8, ..WAVE };
    let failed = OpenEvent::Failed("busy".to_owned());
    let (state, action) = open(opened_until_initialized(eight_bits), failed);
    assert!(matches!(action, OpenAction::FreeMixFormat));
    let (_, action) = open(state, OpenEvent::Done);
    assert_eq!(open_failure(action), "WASAPI loopback initialization failed: busy");
}

#[test]
fn every_failure_of_opening_is_named() {
    let cases = [
        (Opening::Enumerating, "audio device enumerator failed: x"),
        (Opening::Locating, "default Windows output device is unavailable: x"),
        (Opening::Activating, "WASAPI client activation failed: x"),
        (Opening::Querying, "WASAPI mix format failed: x"),
        (Opening::Servicing { stream: STEREO }, "WASAPI capture service failed: x"),
        (Opening::Starting { stream: STEREO }, "WASAPI loopback start failed: x"),
    ];
    for (state, message) in cases {
        let (state, action) = open(state, OpenEvent::Failed("x".to_owned()));
        assert!(matches!(state, Opening::Finished));
        assert_eq!(open_failure(action), message);
    }
    let (_, action) = open(Opening::Querying, OpenEvent::MixFormat(None));
    assert_eq!(open_failure(action), "WASAPI returned a null mix format");
}

#[test]
fn opening_leaves_other_events_alone() {
    let (state, action) = open(Opening::Enumerating, OpenEvent::MixFormat(None));
    assert!(matches!(state, Opening::Enumerating));
    assert!(matches!(action, OpenAction::Await));
}

fn capture_failure(action: CaptureAction) -> String {
    match action {
        CaptureAction::Fail(message) => message,
        other => panic!("expected a failure, got {other:?}"),
    }
}

fn packet(data: Option<&[u8]>, frames: u32, flags: u32) -> CaptureEvent<'_> {
    CaptureEvent::Packet { data, frames, flags }
}

fn collect(collector: Collector, event: CaptureEvent) -> Collector {
    let (collector, _) = frame(&STEREO, collector, event);
    collector
}

#[test]
fn packets_are_collected_in_order() {
    let (collector, action) = frame(&STEREO, Collector::new(), CaptureEvent::PacketSize(2));
    assert!(matches!(action, CaptureAction::ReadPacket));
    let sound: [u8; 8] = [1, 0, 2, 0, 3, 0, 4, 0];
    let (collector, action) = frame(&STEREO, collector, packet(Some(&sound), 2, 0));
    assert!(matches!(action, CaptureAction::ReleasePacket { frames: 2 }));
    let (collector, action) = frame(&STEREO, collector, CaptureEvent::Done);
    assert!(matches!(action, CaptureAction::QueryPacketSize));
    let collector = collect(collector, CaptureEvent::PacketSize(1));
    let collector = collect(collector, packet(Some(&sound), 1, 3));
    let collector = collect(collector, CaptureEvent::Done);
    let collector = collect(collector, CaptureEvent::PacketSize(3));
    let collector = collect(collector, packet(None, 3, 1));
    let collector = collect(collector, CaptureEvent::Done);
    let (collector, action) = frame(&STEREO, collector, CaptureEvent::PacketSize(0));
    assert_eq!(collector.phase, Phase::Finished);
    match action {
        CaptureAction::Analyze(frames) => {
            let sounding: Vec<bool> =
                frames.iter().map(|frame| matches!(frame, MonoFrame::Mix(_))).collect();
            assert_eq!(sounding, vec![true, true, false, false, false, false]);
        }
        other => panic!("expected frames, got {other:?}"),
    }
}

#[test]
fn flags_other_than_silence_do_not_silence() {
    let collector = collect(Collector::new(), CaptureEvent::PacketSize(1));
    let collector = collect(collector, packet(Some(&[0; 4]), 1, 1 + 4));
    assert!(matches!(collector.samples[0], MonoFrame::Mix(_)));
}

#[test]
fn only_the_newest_frames_are_analysed() {
    let collector = collect(Collector::new(), CaptureEvent::PacketSize(1));
    let collector = collect(collector, packet(Some(&[0; 4]), 1, 0));
    let collector = collect(collector, CaptureEvent::Done);
    let collector = collect(collector, CaptureEvent::PacketSize(2048));
    let collector = collect(collector, packet(None, 2048, 0));
    let collector = collect(collector, CaptureEvent::Done);
    match frame(&STEREO, collector, CaptureEvent::PacketSize(0)).1 {
        CaptureAction::Analyze(frames) => {
            assert_eq!(frames.len(), 2048);
            assert!(frames.iter().all(|frame| matches!(frame, MonoFrame::Silence)));
        }
        other => panic!("expected frames, got {other:?}"),
    }
}

#[test]
fn keeping_the_newest_frames_drops_the_oldest() {
    let mut samples = vec![MonoFrame::Mix(Vec::new())];
    for _ in 0..2047 {
        samples.push(MonoFrame::Silence);
    }
    let mut samples = keep_newest(samples);
    assert_eq!(samples.len(), 2048);
    assert!(matches!(samples[0], MonoFrame::Mix(_)));
    samples.push(MonoFrame::Silence);
    let samples = keep_newest(samples);
    assert_eq!(samples.len(), 2048);
    assert!(matches!(samples[0], MonoFrame::Silence));
}

#[test]
fn every_failure_of_a_capture_is_named() {
    let text = || CaptureEvent::Failed("x".to_owned());
    let in_phase = |phase: Phase| Collector { phase, samples: Vec::new() };
    let cases = [
        (Phase::Sizing, "WASAPI packet query failed: x"),
        (Phase::Reading, "WASAPI packet read failed: x"),
        (Phase::Releasing, "WASAPI packet release failed: x"),
    ];
    for (phase, message) in cases {
        let (collector, action) = frame(&STEREO, in_phase(phase), text());
        assert_eq!(collector.phase, Phase::Finished);
        assert_eq!(capture_failure(action), message);
    }
    let short = packet(Some(&[0; 7]), 2, 0);
    let (collector, action) = frame(&STEREO, in_phase(Phase::Reading), short);
    assert_eq!(collector.phase, Phase::Finished);
    assert_eq!(capture_failure(action), "WASAPI packet length is invalid");
}

#[test]
fn collecting_leaves_other_events_alone() {
    let (collector, action) = frame(&STEREO, Collector::new(), CaptureEvent::Done);
    assert_eq!(collector.phase, Phase::Sizing);
    assert!(matches!(action, CaptureAction::Await));
}

#[test]
fn packets_that_can_be_taken_are_told_apart() {
    let tight = StreamFormat { block_align: 2, channels: 1, format: SampleFormat::Pcm32, ..STEREO };
    assert!(!can_take(&tight, &packet(Some(&[0; 4]), 2, 0)));
    assert!(can_take(&tight, &packet(Some(&[0; 4]), 2, 2)));
    assert!(can_take(&tight, &packet(None, 2, 0)));
    assert!(can_take(&tight, &packet(Some(&[0; 6]), 2, 0)));
    assert!(can_take(&STEREO, &packet(Some(&[0; 8]), 2, 0)));
    assert!(can_take(&tight, &CaptureEvent::Done));
}

#[test]
fn the_silent_flag_is_the_one_of_the_audio_client() {
    let flag = Audio::AUDCLNT_BUFFERFLAGS_SILENT.0 as u32;
    assert_eq!(AUDCLNT_BUFFERFLAGS_SILENT, flag);
    assert!(is_silent(flag));
    assert!(is_silent(flag + 5));
    assert!(!is_silent(0));
    assert!(!is_silent(5));
}

#[test]
fn packets_with_room_to_spare_are_taken() {
    let padded = StreamFormat { block_align: 11, ..STEREO };
    let bytes = [0; 40];
    assert!(can_take(&padded, &packet(Some(&bytes), 3, 0)));
    let collector = Collector { phase: Phase::Reading, samples: Vec::new() };
    let (collector, action) = frame(&padded, collector, packet(Some(&bytes), 3, 0));
    assert!(matches!(action, CaptureAction::ReleasePacket { frames: 3 }));
    assert_eq!(collector.samples.len(), 3);
}

#[test]
fn the_last_packet_is_released_before_the_analysis() {
    let collector = collect(Collector::new(), CaptureEvent::PacketSize(1));
    let collector = collect(collector, packet(None, 1, 0));
    let (collector, action) = frame(&STEREO, collector, CaptureEvent::PacketSize(0));
    assert_eq!(collector.phase, Phase::Releasing);
    assert!(matches!(action, CaptureAction::Await));
    let collector = collect(collector, CaptureEvent::Done);
    let (_, action) = frame(&STEREO, collector, CaptureEvent::PacketSize(0));
    assert!(matches!(action, CaptureAction::Analyze(_)));
}
