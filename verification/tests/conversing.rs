use audio_visualizer::control::{rate_from_name, rate_from_settings, Control, RefreshRate};
use audio_visualizer::protocol::{CompanionFrame, HostFrame, MessageTarget, Payload};
use audio_visualizer::session::{
    converse, judge, obey, Session, SessionAction, SessionEvent, Verdict,
};
use serde_json::Value;

fn settings(text: &str) -> Value {
    serde_json::from_str(text).unwrap()
}

fn rate(text: &str) -> Value {
    settings(&format!("{{\"refreshRate\":\"{text}\"}}"))
}

fn init(v: u32, text: &str) -> HostFrame {
    HostFrame::Init { v, device_settings: rate(text) }
}

fn reading(initialized: bool) -> Session {
    Session::Reading { initialized }
}

fn exit_error(action: SessionAction) -> String {
    match action {
        SessionAction::Exit(Err(message)) => message,
        other => panic!("expected a failing exit, got {other:?}"),
    }
}

fn sent_error(action: SessionAction) -> (String, String) {
    match action {
        SessionAction::Send(CompanionFrame::Error { v: 5, message, code }) => (code, message),
        other => panic!("expected an error frame, got {other:?}"),
    }
}

#[test]
fn rates_are_read_from_settings() {
    assert_eq!(rate_from_settings(&rate("30fps")), Some(RefreshRate::Fps30));
    assert_eq!(rate_from_settings(&rate("60fps")), Some(RefreshRate::Fps60));
    assert_eq!(rate_from_settings(&rate("120fps")), None);
    assert_eq!(rate_from_settings(&settings("{\"refreshRate\":30}")), None);
    assert_eq!(rate_from_settings(&settings("{\"refresh\":\"30fps\"}")), None);
    assert_eq!(rate_from_settings(&settings("[\"30fps\"]")), None);
    assert_eq!(rate_from_settings(&settings("\"30fps\"")), None);
    assert_eq!(rate_from_settings(&Value::Null), None);
    let nested = settings("{\"a\":1,\"refreshRate\":\"60fps\",\"b\":\"30fps\"}");
    assert_eq!(rate_from_settings(&nested), Some(RefreshRate::Fps60));
}

#[test]
fn rates_are_read_from_their_names() {
    assert_eq!(rate_from_name(Some("30fps".to_owned())), Some(RefreshRate::Fps30));
    assert_eq!(rate_from_name(Some("60fps".to_owned())), Some(RefreshRate::Fps60));
    assert_eq!(rate_from_name(Some("30FPS".to_owned())), None);
    assert_eq!(rate_from_name(Some(String::new())), None);
    assert_eq!(rate_from_name(None), None);
}

#[test]
fn intervals_follow_the_rates() {
    assert_eq!(RefreshRate::Fps30.interval_millis(), 33);
    assert_eq!(RefreshRate::Fps60.interval_millis(), 16);
}

#[test]
fn control_starts_running_at_thirty_frames() {
    let mut control = Control::new();
    assert_eq!(control, Control { running: true, rate: RefreshRate::Fps30 });
    control.set_interval(RefreshRate::Fps60);
    assert_eq!(control, Control { running: true, rate: RefreshRate::Fps60 });
    control.stop();
    assert_eq!(control, Control { running: false, rate: RefreshRate::Fps60 });
}

#[test]
fn the_protocol_must_be_named() {
    let named = SessionEvent::Protocol(Some("process-v2".to_owned()));
    let (state, action) = converse(Session::Starting, named);
    assert_eq!(state, reading(false));
    assert!(matches!(action, SessionAction::ReadFrame));
    for name in [None, Some("process-v1".to_owned()), Some("process-v2 ".to_owned())] {
        let (state, action) = converse(Session::Starting, SessionEvent::Protocol(name));
        assert_eq!(state, Session::Finished);
        assert_eq!(exit_error(action), "MYWALLPAPER_PROTOCOL must be process-v2");
    }
}

#[test]
fn a_whole_conversation() {
    let (state, action) = converse(reading(false), SessionEvent::Frame(init(5, "60fps")));
    assert!(matches!(action, SessionAction::ApplyRate(RefreshRate::Fps60)));
    let (state, action) = converse(state, SessionEvent::Done);
    assert!(matches!(action, SessionAction::Send(CompanionFrame::Ready { v: 5 })));
    let (state, action) = converse(state, SessionEvent::Done);
    assert!(matches!(action, SessionAction::SpawnSampler));
    let (state, action) = converse(state, SessionEvent::Done);
    assert!(matches!(action, SessionAction::ReadFrame));
    assert_eq!(state, reading(true));

    let change = HostFrame::Settings { v: 5, device_settings: rate("30fps") };
    let (state, action) = converse(state, SessionEvent::Frame(change));
    assert!(matches!(action, SessionAction::ApplyRate(RefreshRate::Fps30)));
    let (state, action) = converse(state, SessionEvent::Done);
    assert!(matches!(action, SessionAction::ReadFrame));
    let (state, action) = converse(state, SessionEvent::Frame(HostFrame::Message { v: 5 }));
    assert!(matches!(action, SessionAction::ReadFrame));
    assert_eq!(state, reading(true));

    let (state, action) = converse(state, SessionEvent::Frame(HostFrame::Shutdown { v: 5 }));
    assert!(matches!(action, SessionAction::ClearRunning));
    let (state, action) = converse(state, SessionEvent::Done);
    assert!(matches!(action, SessionAction::JoinSampler));
    let (state, action) = converse(state, SessionEvent::Done);
    assert!(matches!(action, SessionAction::Exit(Ok(()))));
    assert_eq!(state, Session::Finished);
}

#[test]
fn other_versions_are_refused() {
    for initialized in [false, true] {
        for frame in [
            init(4, "30fps"),
            HostFrame::Message { v: 4 },
            HostFrame::Shutdown { v: 4 },
            HostFrame::Settings { v: 4, device_settings: Value::Null },
        ] {
            let (state, action) = converse(reading(initialized), SessionEvent::Frame(frame));
            assert_eq!(state, Session::Refusing { initialized });
            assert_eq!(
                sent_error(action),
                ("protocol-version".to_owned(), "unsupported protocol version 4".to_owned())
            );
        }
    }
}

#[test]
fn misplaced_frames_are_refused() {
    let early = HostFrame::Settings { v: 5, device_settings: rate("30fps") };
    let cases = [
        (true, init(5, "30fps")),
        (false, early),
        (false, HostFrame::Message { v: 5 }),
    ];
    for (initialized, frame) in cases {
        let (state, action) = converse(reading(initialized), SessionEvent::Frame(frame));
        assert_eq!(state, Session::Refusing { initialized });
        assert_eq!(
            sent_error(action),
            ("protocol-state".to_owned(), "invalid companion lifecycle frame".to_owned())
        );
        let (state, action) = converse(state, SessionEvent::Done);
        assert_eq!(state, Session::Stopping { initialized });
        assert!(matches!(action, SessionAction::ClearRunning));
    }
}

#[test]
fn unknown_rates_end_the_conversation() {
    let (state, action) = converse(reading(false), SessionEvent::Frame(init(5, "24fps")));
    assert_eq!(state, Session::Finished);
    assert_eq!(exit_error(action), "refreshRate must be 30fps or 60fps");
}

#[test]
fn the_end_of_input_stops_the_sampler() {
    let (state, action) = converse(reading(false), SessionEvent::EndOfInput);
    assert!(matches!(action, SessionAction::ClearRunning));
    let (state, action) = converse(state, SessionEvent::Done);
    assert_eq!(state, Session::Finished);
    assert!(matches!(action, SessionAction::Exit(Ok(()))));
}

#[test]
fn failures_end_the_conversation() {
    let text = || SessionEvent::Failed("broken pipe".to_owned());
    let refusing = Session::Refusing { initialized: true };
    let stopping = Session::Stopping { initialized: true };
    let applying = Session::Applying { initialized: false };
    let cases = [
        (reading(true), text(), "broken pipe"),
        (Session::Greeting, text(), "broken pipe"),
        (refusing, text(), "broken pipe"),
        (Session::Greeting, SessionEvent::Poisoned, "output lock poisoned"),
        (refusing, SessionEvent::Poisoned, "output lock poisoned"),
        (applying, SessionEvent::Poisoned, "control lock poisoned while applying settings"),
        (stopping, SessionEvent::Poisoned, "control lock poisoned"),
        (Session::Joining, SessionEvent::Panicked, "audio sampler thread panicked"),
    ];
    for (state, event, message) in cases {
        let (state, action) = converse(state, event);
        assert_eq!(state, Session::Finished);
        assert_eq!(exit_error(action), message);
    }
}

#[test]
fn events_that_answer_nothing_are_left_alone() {
    let cases = [
        (Session::Starting, SessionEvent::Done),
        (reading(true), SessionEvent::Done),
        (reading(true), SessionEvent::Poisoned),
        (Session::Joining, SessionEvent::EndOfInput),
        (Session::Finished, SessionEvent::Frame(HostFrame::Shutdown { v: 5 })),
    ];
    for (state, event) in cases {
        let (next, action) = converse(state, event);
        assert_eq!(next, state);
        assert!(matches!(action, SessionAction::Await));
    }
}

#[test]
fn frames_are_judged() {
    let unknown = HostFrame::Settings { v: 5, device_settings: Value::Null };
    assert_eq!(judge(false, &init(5, "30fps")), Verdict::Apply(RefreshRate::Fps30));
    assert_eq!(judge(true, &init(5, "30fps")), Verdict::Misplaced);
    assert_eq!(judge(true, &unknown), Verdict::InvalidSettings);
    assert_eq!(judge(false, &unknown), Verdict::Misplaced);
    assert_eq!(judge(true, &HostFrame::Message { v: 5 }), Verdict::Accept);
    assert_eq!(judge(false, &HostFrame::Shutdown { v: 5 }), Verdict::Shutdown);
    assert_eq!(judge(true, &HostFrame::Shutdown { v: 6 }), Verdict::UnsupportedVersion(6));
}

#[test]
fn verdicts_are_obeyed() {
    let (state, action) = obey(true, Verdict::UnsupportedVersion(4_294_967_295));
    assert_eq!(state, Session::Refusing { initialized: true });
    assert_eq!(sent_error(action).1, "unsupported protocol version 4294967295");
    let (state, action) = obey(false, Verdict::Apply(RefreshRate::Fps60));
    assert_eq!(state, Session::Applying { initialized: false });
    assert!(matches!(action, SessionAction::ApplyRate(RefreshRate::Fps60)));
    let (state, action) = obey(true, Verdict::Accept);
    assert_eq!(state, reading(true));
    assert!(matches!(action, SessionAction::ReadFrame));
}

#[test]
fn frames_of_the_companion_carry_the_version() {
    assert!(matches!(CompanionFrame::ready(), CompanionFrame::Ready { v: 5 }));
    let payload = Payload::Error { message: "no device".to_owned() };
    match CompanionFrame::broadcast(payload) {
        CompanionFrame::Message {
            v: 5,
            target: MessageTarget::Broadcast,
            payload: Payload::Error { message },
        } => assert_eq!(message, "no device"),
        other => panic!("unexpected frame {other:?}"),
    }
    match CompanionFrame::error("code", "message".to_owned()) {
        CompanionFrame::Error { v: 5, message, code } => {
            assert_eq!((message.as_str(), code.as_str()), ("message", "code"))
        }
        other => panic!("unexpected frame {other:?}"),
    }
}
