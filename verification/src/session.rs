//! The companion's conversation with its host, from start to exit.
//!
//! The conversation is a machine: it asks for one action at a time, and moves on with
//! the event that tells how the action went.

use crate::control::{rate_from_settings, RefreshRate};
use crate::protocol::{CompanionFrame, HostFrame, PROTOCOL_VERSION};
use crate::text::{decimal, joined, reads};
use vstd::prelude::*;

verus! {

/// Where the conversation stands. `initialized` tells whether the host has introduced
/// itself; the sampler has been started then.
#[derive(Clone, Copy, Debug, PartialEq, Eq, Structural)]
pub enum Session {
    /// Waiting for the name of the protocol in the environment.
    Starting,
    /// Waiting for a frame of the host.
    Reading { initialized: bool },
    /// Waiting for a rate to be applied.
    Applying { initialized: bool },
    /// Waiting for the announcement to be sent.
    Greeting,
    /// Waiting for the sampler to be started.
    Spawning,
    /// Waiting for a refusal to be sent.
    Refusing { initialized: bool },
    /// Waiting for the sampler to be told to end.
    Stopping { initialized: bool },
    /// Waiting for the sampler to end.
    Joining,
    /// Over.
    Finished,
}

/// How the last action went.
#[derive(Debug)]
pub enum SessionEvent {
    /// The protocol that the environment names, if it names one.
    Protocol(Option<String>),
    /// A frame was read.
    Frame(HostFrame),
    /// There are no more frames.
    EndOfInput,
    /// The action is done.
    Done,
    /// Reading or writing failed.
    Failed(String),
    /// A lock was poisoned.
    Poisoned,
    /// The sampler panicked.
    Panicked,
}

/// What is to be done next.
#[derive(Debug)]
pub enum SessionAction {
    ReadFrame,
    ApplyRate(RefreshRate),
    Send(CompanionFrame),
    SpawnSampler,
    ClearRunning,
    JoinSampler,
    Exit(Result<(), String>),
    /// The event did not answer the last action, which still stands.
    Await,
}

/// What a frame calls for.
#[derive(Clone, Copy, Debug, PartialEq, Eq, Structural)]
pub enum Verdict {
    /// It is written in another version.
    UnsupportedVersion(u32),
    /// It sets the rate.
    Apply(RefreshRate),
    /// It sets no rate that is known.
    InvalidSettings,
    /// It calls for nothing.
    Accept,
    /// It ends the conversation.
    Shutdown,
    /// It may not come now.
    Misplaced,
}

/// What the settings of a frame call for.
pub open spec fn settings_verdict(settings: serde_json::Value) -> Verdict {
    match crate::control::rate_requested(settings) {
        Some(rate) => Verdict::Apply(rate),
        None => Verdict::InvalidSettings,
    }
}

/// What a frame calls for: the version comes first; an introduction may come once, at
/// the beginning, settings and messages only after it, a shutdown at any time.
pub open spec fn verdict(initialized: bool, frame: HostFrame) -> Verdict {
    if frame.spoken_version() != PROTOCOL_VERSION {
        Verdict::UnsupportedVersion(frame.spoken_version())
    } else {
        match frame {
            HostFrame::Init { device_settings, .. } => if initialized {
                Verdict::Misplaced
            } else {
                settings_verdict(device_settings)
            },
            HostFrame::Settings { device_settings, .. } => if initialized {
                settings_verdict(device_settings)
            } else {
                Verdict::Misplaced
            },
            HostFrame::Message { .. } => if initialized {
                Verdict::Accept
            } else {
                Verdict::Misplaced
            },
            HostFrame::Shutdown { .. } => Verdict::Shutdown,
        }
    }
}

/// Where a verdict leads.
pub open spec fn after_verdict(initialized: bool, verdict: Verdict) -> Session {
    match verdict {
        Verdict::UnsupportedVersion(_) => Session::Refusing { initialized },
        Verdict::Apply(_) => Session::Applying { initialized },
        Verdict::InvalidSettings => Session::Finished,
        Verdict::Accept => Session::Reading { initialized },
        Verdict::Shutdown => Session::Stopping { initialized },
        Verdict::Misplaced => Session::Refusing { initialized },
    }
}

/// Whether `action` is what a verdict asks for.
pub open spec fn verdict_asks(verdict: Verdict, action: SessionAction) -> bool {
    match verdict {
        Verdict::UnsupportedVersion(version) => action matches SessionAction::Send(frame)
            && frame.reports(
            "protocol-version"@,
            "unsupported protocol version "@ + crate::text::decimal_text(version as nat),
        ),
        Verdict::Apply(rate) => action == SessionAction::ApplyRate(rate),
        Verdict::InvalidSettings => exits_with(action, "refreshRate must be 30fps or 60fps"@),
        Verdict::Accept => action is ReadFrame,
        Verdict::Shutdown => action is ClearRunning,
        Verdict::Misplaced => action matches SessionAction::Send(frame) && frame.reports(
            "protocol-state"@,
            "invalid companion lifecycle frame"@,
        ),
    }
}

/// Whether `action` is to exit with the error `text`.
pub open spec fn exits_with(action: SessionAction, text: Seq<char>) -> bool {
    action matches SessionAction::Exit(Err(message)) && message@ == text
}

/// Whether `action` is to exit in good order.
pub open spec fn exits_well(action: SessionAction) -> bool {
    action == SessionAction::Exit(Ok(()))
}

/// Whether an event answers the action that is awaited in a state.
pub open spec fn answers(state: Session, event: SessionEvent) -> bool {
    match state {
        Session::Starting => event is Protocol,
        Session::Reading { .. } => event is Frame || event is EndOfInput || event is Failed,
        Session::Applying { .. } => event is Done || event is Poisoned,
        Session::Greeting => event is Done || event is Failed || event is Poisoned,
        Session::Spawning => event is Done,
        Session::Refusing { .. } => event is Done || event is Failed || event is Poisoned,
        Session::Stopping { .. } => event is Done || event is Poisoned,
        Session::Joining => event is Done || event is Panicked,
        Session::Finished => false,
    }
}

/// The protocol that the environment must name.
pub open spec fn names_protocol(name: Option<String>) -> bool {
    name matches Some(text) && text@ == "process-v2"@
}

/// Where an event leads.
pub open spec fn next_state(state: Session, event: SessionEvent) -> Session {
    if !answers(state, event) {
        state
    } else {
        match (state, event) {
            (Session::Starting, SessionEvent::Protocol(name)) => if names_protocol(name) {
                Session::Reading { initialized: false }
            } else {
                Session::Finished
            },
            (Session::Reading { initialized }, SessionEvent::Frame(frame)) => after_verdict(
                initialized,
                verdict(initialized, frame),
            ),
            (Session::Reading { initialized }, SessionEvent::EndOfInput) => Session::Stopping {
                initialized,
            },
            (Session::Applying { initialized }, SessionEvent::Done) => if initialized {
                Session::Reading { initialized }
            } else {
                Session::Greeting
            },
            (Session::Greeting, SessionEvent::Done) => Session::Spawning,
            (Session::Spawning, SessionEvent::Done) => Session::Reading { initialized: true },
            (Session::Refusing { initialized }, SessionEvent::Done) => Session::Stopping {
                initialized,
            },
            (Session::Stopping { initialized }, SessionEvent::Done) => if initialized {
                Session::Joining
            } else {
                Session::Finished
            },
            _ => Session::Finished,
        }
    }
}

/// Whether `action` is what an event asks for.
pub open spec fn asks(state: Session, event: SessionEvent, action: SessionAction) -> bool {
    if !answers(state, event) {
        action is Await
    } else {
        match (state, event) {
            (Session::Starting, SessionEvent::Protocol(name)) => if names_protocol(name) {
                action is ReadFrame
            } else {
                exits_with(action, "MYWALLPAPER_PROTOCOL must be process-v2"@)
            },
            (Session::Reading { initialized }, SessionEvent::Frame(frame)) => verdict_asks(
                verdict(initialized, frame),
                action,
            ),
            (Session::Reading { .. }, SessionEvent::EndOfInput) => action is ClearRunning,
            (Session::Applying { initialized }, SessionEvent::Done) => if initialized {
                action is ReadFrame
            } else {
                action == SessionAction::Send(CompanionFrame::Ready { v: PROTOCOL_VERSION })
            },
            (Session::Applying { .. }, SessionEvent::Poisoned) => exits_with(
                action,
                "control lock poisoned while applying settings"@,
            ),
            (Session::Greeting, SessionEvent::Done) => action is SpawnSampler,
            (Session::Spawning, SessionEvent::Done) => action is ReadFrame,
            (Session::Refusing { .. }, SessionEvent::Done) => action is ClearRunning,
            (Session::Stopping { initialized }, SessionEvent::Done) => if initialized {
                action is JoinSampler
            } else {
                exits_well(action)
            },
            (Session::Stopping { .. }, SessionEvent::Poisoned) => exits_with(
                action,
                "control lock poisoned"@,
            ),
            (Session::Joining, SessionEvent::Done) => exits_well(action),
            (Session::Joining, SessionEvent::Panicked) => exits_with(
                action,
                "audio sampler thread panicked"@,
            ),
            // A frame could not be read, or could not be sent.
            (_, SessionEvent::Failed(message)) => exits_with(action, message@),
            // A frame could not be sent for the lock of the output.
            (_, _) => exits_with(action, "output lock poisoned"@),
        }
    }
}

fn judge_settings(settings: &serde_json::Value) -> (judged: Verdict)
    ensures
        judged == settings_verdict(*settings),
{
    match rate_from_settings(settings) {
        Some(rate) => Verdict::Apply(rate),
        None => Verdict::InvalidSettings,
    }
}

/// Judges what a frame calls for.
pub fn judge(initialized: bool, frame: &HostFrame) -> (judged: Verdict)
    ensures
        judged == verdict(initialized, *frame),
{
    let version: u32 = frame.version();
    if version != PROTOCOL_VERSION {
        return Verdict::UnsupportedVersion(version);
    }
    match frame {
        HostFrame::Init { device_settings, .. } => if initialized {
            Verdict::Misplaced
        } else {
            judge_settings(device_settings)
        },
        HostFrame::Settings { device_settings, .. } => if initialized {
            judge_settings(device_settings)
        } else {
            Verdict::Misplaced
        },
        HostFrame::Message { .. } => if initialized {
            Verdict::Accept
        } else {
            Verdict::Misplaced
        },
        HostFrame::Shutdown { .. } => Verdict::Shutdown,
    }
}

/// Acts on a verdict.
pub fn obey(initialized: bool, verdict: Verdict) -> (step: (Session, SessionAction))
    ensures
        step.0 == after_verdict(initialized, verdict),
        verdict_asks(verdict, step.1),
{
    match verdict {
        Verdict::UnsupportedVersion(version) => {
            let message = joined("unsupported protocol version ", decimal(version).as_str());
            let frame = CompanionFrame::error("protocol-version", message);
            (Session::Refusing { initialized }, SessionAction::Send(frame))
        },
        Verdict::Apply(rate) => (Session::Applying { initialized }, SessionAction::ApplyRate(rate)),
        Verdict::InvalidSettings => fail("refreshRate must be 30fps or 60fps"),
        Verdict::Accept => (Session::Reading { initialized }, SessionAction::ReadFrame),
        Verdict::Shutdown => (Session::Stopping { initialized }, SessionAction::ClearRunning),
        Verdict::Misplaced => {
            let message = "invalid companion lifecycle frame".to_owned();
            let frame = CompanionFrame::error("protocol-state", message);
            (Session::Refusing { initialized }, SessionAction::Send(frame))
        },
    }
}

fn fail(text: &str) -> (step: (Session, SessionAction))
    ensures
        step.0 is Finished,
        exits_with(step.1, text@),
{
    (Session::Finished, SessionAction::Exit(Err(text.to_owned())))
}

/// Moves the conversation on.
pub fn converse(state: Session, event: SessionEvent) -> (step: (Session, SessionAction))
    ensures
        step.0 == next_state(state, event),
        asks(state, event, step.1),
{
    match (state, event) {
        (Session::Starting, SessionEvent::Protocol(name)) => {
            let named = match &name {
                Some(text) => reads(text, "process-v2"),
                None => false,
            };
            if named {
                (Session::Reading { initialized: false }, SessionAction::ReadFrame)
            } else {
                fail("MYWALLPAPER_PROTOCOL must be process-v2")
            }
        },
        (Session::Reading { initialized }, SessionEvent::Frame(frame)) => {
            obey(initialized, judge(initialized, &frame))
        },
        (Session::Reading { initialized }, SessionEvent::EndOfInput) => (
            Session::Stopping { initialized },
            SessionAction::ClearRunning,
        ),
        (Session::Reading { .. }, SessionEvent::Failed(message)) => (
            Session::Finished,
            SessionAction::Exit(Err(message)),
        ),
        (Session::Applying { initialized }, SessionEvent::Done) => if initialized {
            (Session::Reading { initialized }, SessionAction::ReadFrame)
        } else {
            (Session::Greeting, SessionAction::Send(CompanionFrame::ready()))
        },
        (Session::Applying { .. }, SessionEvent::Poisoned) => fail(
            "control lock poisoned while applying settings",
        ),
        (Session::Greeting, SessionEvent::Done) => (Session::Spawning, SessionAction::SpawnSampler),
        (Session::Greeting, SessionEvent::Failed(message)) => (
            Session::Finished,
            SessionAction::Exit(Err(message)),
        ),
        (Session::Greeting, SessionEvent::Poisoned) => fail("output lock poisoned"),
        (Session::Spawning, SessionEvent::Done) => (
            Session::Reading { initialized: true },
            SessionAction::ReadFrame,
        ),
        (Session::Refusing { initialized }, SessionEvent::Done) => (
            Session::Stopping { initialized },
            SessionAction::ClearRunning,
        ),
        (Session::Refusing { .. }, SessionEvent::Failed(message)) => (
            Session::Finished,
            SessionAction::Exit(Err(message)),
        ),
        (Session::Refusing { .. }, SessionEvent::Poisoned) => fail("output lock poisoned"),
        (Session::Stopping { initialized }, SessionEvent::Done) => if initialized {
            (Session::Joining, SessionAction::JoinSampler)
        } else {
            (Session::Finished, SessionAction::Exit(Ok(())))
        },
        (Session::Stopping { .. }, SessionEvent::Poisoned) => fail("control lock poisoned"),
        (Session::Joining, SessionEvent::Done) => (
            Session::Finished,
            SessionAction::Exit(Ok(())),
        ),
        (Session::Joining, SessionEvent::Panicked) => fail("audio sampler thread panicked"),
        (state, _) => (state, SessionAction::Await),
    }
}

/// Where a conversation stands after `events`.
pub open spec fn state_after(events: Seq<SessionEvent>) -> Session
    decreases events.len(),
{
    if events.len() == 0 {
        Session::Starting
    } else {
        next_state(state_after(events.drop_last()), events.last())
    }
}

/// The state in which event number `i` comes.
pub open spec fn state_at(events: Seq<SessionEvent>, i: int) -> Session {
    state_after(events.take(i))
}

/// Whether `action` is asked for by event number `i`.
pub open spec fn asked(events: Seq<SessionEvent>, i: int, action: SessionAction) -> bool {
    asks(state_at(events, i), events[i], action)
}

/// Whether event number `i` asks for the announcement to be sent.
pub open spec fn greets(events: Seq<SessionEvent>, i: int) -> bool {
    asked(events, i, SessionAction::Send(CompanionFrame::Ready { v: PROTOCOL_VERSION }))
}

/// Whether event number `i` asks for the sampler to be started.
pub open spec fn spawns(events: Seq<SessionEvent>, i: int) -> bool {
    asked(events, i, SessionAction::SpawnSampler)
}

/// Whether event number `i` asks for the sampler to be told to end.
pub open spec fn clears(events: Seq<SessionEvent>, i: int) -> bool {
    asked(events, i, SessionAction::ClearRunning)
}

/// Whether event number `i` asks to wait for the sampler's end.
pub open spec fn joins(events: Seq<SessionEvent>, i: int) -> bool {
    asked(events, i, SessionAction::JoinSampler)
}

/// Whether event number `i` asks for a frame to be read.
pub open spec fn reads_on(events: Seq<SessionEvent>, i: int) -> bool {
    asked(events, i, SessionAction::ReadFrame)
}

/// How far a conversation has come.
spec fn progress(state: Session) -> int {
    match state {
        Session::Starting => 0,
        Session::Reading { initialized } => if initialized {
            5
        } else {
            1
        },
        Session::Applying { initialized } => if initialized {
            5
        } else {
            2
        },
        Session::Greeting => 3,
        Session::Spawning => 4,
        Session::Refusing { .. } => 6,
        Session::Stopping { .. } => 7,
        Session::Joining => 8,
        Session::Finished => 9,
    }
}

proof fn lemma_state_step(events: Seq<SessionEvent>, i: int)
    requires
        0 <= i < events.len(),
    ensures
        state_at(events, i + 1) == next_state(state_at(events, i), events[i]),
{
    assert(events.take(i + 1).drop_last() =~= events.take(i));
}

proof fn lemma_progress(events: Seq<SessionEvent>, i: int, j: int)
    requires
        0 <= i <= j <= events.len(),
    ensures
        progress(state_at(events, i)) <= progress(state_at(events, j)),
    decreases j - i,
{
    if i < j {
        lemma_progress(events, i, j - 1);
        lemma_state_step(events, j - 1);
    }
}

/// The announcement is sent at most once.
pub proof fn law_ready_is_sent_once(events: Seq<SessionEvent>, i: int, j: int)
    requires
        0 <= i < j < events.len(),
    ensures
        !(greets(events, i) && greets(events, j)),
{
    if greets(events, i) && greets(events, j) {
        lemma_state_step(events, i);
        lemma_progress(events, i + 1, j);
    }
}

/// The sampler is started at most once.
pub proof fn law_sampler_starts_once(events: Seq<SessionEvent>, i: int, j: int)
    requires
        0 <= i < j < events.len(),
    ensures
        !(spawns(events, i) && spawns(events, j)),
{
    if spawns(events, i) && spawns(events, j) {
        lemma_state_step(events, i);
        lemma_progress(events, i + 1, j);
    }
}

proof fn lemma_entered(events: Seq<SessionEvent>, j: int) -> (i: int)
    requires
        0 <= j <= events.len(),
        state_at(events, j) !is Starting,
    ensures
        0 <= i < j,
        state_at(events, i) != state_at(events, j),
        state_at(events, i + 1) == state_at(events, j),
        next_state(state_at(events, i), events[i]) == state_at(events, j),
    decreases j,
{
    assert(events.take(0) =~= Seq::<SessionEvent>::empty());
    assert(j > 0);
    lemma_state_step(events, j - 1);
    if state_at(events, j - 1) == state_at(events, j) {
        lemma_entered(events, j - 1)
    } else {
        j - 1
    }
}

/// The sampler is started only after a rate was asked to be applied and, after that, the
/// announcement was asked to be sent; and only when sending it is done.
pub proof fn law_sampler_starts_after_ready(events: Seq<SessionEvent>, j: int)
    requires
        0 <= j < events.len(),
        spawns(events, j),
    ensures
        events[j] is Done,
        exists|h: int, i: int, rate: RefreshRate|
            #![trigger greets(events, i), asked(events, h, SessionAction::ApplyRate(rate))]
            0 <= h < i < j && greets(events, i) && asked(
                events,
                h,
                SessionAction::ApplyRate(rate),
            ),
{
    let i = lemma_entered(events, j);
    assert(state_at(events, i) == (Session::Applying { initialized: false }));
    let h = lemma_entered(events, i);
    let rate = verdict(false, events[h]->Frame_0)->Apply_0;
    assert(greets(events, i));
    assert(asked(events, h, SessionAction::ApplyRate(rate)));
}

spec fn sampler_started(state: Session) -> bool {
    match state {
        Session::Spawning => true,
        Session::Reading { initialized } => initialized,
        Session::Applying { initialized } => initialized,
        Session::Refusing { initialized } => initialized,
        Session::Stopping { initialized } => initialized,
        Session::Joining => true,
        Session::Finished => true,
        _ => false,
    }
}

proof fn lemma_sampler_stays_started(events: Seq<SessionEvent>, i: int, j: int)
    requires
        0 <= i <= j <= events.len(),
        sampler_started(state_at(events, i)),
    ensures
        sampler_started(state_at(events, j)),
    decreases j - i,
{
    if i < j {
        lemma_sampler_stays_started(events, i, j - 1);
        lemma_state_step(events, j - 1);
    }
}

/// A conversation that exits in good order has told the sampler to end; and if the
/// sampler was ever started, it has asked after that for the sampler's end to be awaited.
pub proof fn law_good_exit_joins_sampler(events: Seq<SessionEvent>, j: int)
    requires
        0 <= j < events.len(),
        asked(events, j, SessionAction::Exit(Ok(()))),
    ensures
        exists|c: int| #![trigger clears(events, c)]
            {
                &&& 0 <= c < j
                &&& clears(events, c)
                &&& forall|i: int| #![trigger spawns(events, i)]
                    0 <= i < j && spawns(events, i) ==> i < c && exists|k: int|
                        #![trigger joins(events, k)]
                        c < k < j && joins(events, k)
            },
{
    let state = state_at(events, j);
    if state is Joining {
        let k = lemma_entered(events, j);
        assert(state_at(events, k) == (Session::Stopping { initialized: true }));
        let c = lemma_entered(events, k);
        assert(joins(events, k));
        assert(clears(events, c));
        assert forall|i: int| 0 <= i < j && spawns(events, i) implies i < c by {
            if i >= c {
                lemma_progress(events, c + 1, j);
                if i > c {
                    lemma_progress(events, c + 1, i);
                }
            }
        }
    } else {
        assert(state == (Session::Stopping { initialized: false }));
        let c = lemma_entered(events, j);
        assert(clears(events, c));
        assert forall|i: int| 0 <= i < j && spawns(events, i) implies false by {
            lemma_state_step(events, i);
            lemma_sampler_stays_started(events, i + 1, j);
        }
    }
}

/// After a refusal has been asked to be sent, or the sampler to be told to end, no
/// further frame is read.
pub proof fn law_no_frame_after_the_end(
    events: Seq<SessionEvent>,
    i: int,
    j: int,
    refusal: CompanionFrame,
)
    requires
        0 <= i < j < events.len(),
        clears(events, i) || refusal is Error && asked(events, i, SessionAction::Send(refusal)),
    ensures
        !reads_on(events, j),
{
    lemma_state_step(events, i);
    assert(progress(state_at(events, i + 1)) >= 6);
    lemma_progress(events, i + 1, j);
}

/// A frame in another version is answered with that version, whatever it holds and
/// whenever it is read.
pub proof fn law_other_versions_are_refused(
    initialized: bool,
    frame: HostFrame,
    action: SessionAction,
)
    requires
        frame.spoken_version() != PROTOCOL_VERSION,
        asks(Session::Reading { initialized }, SessionEvent::Frame(frame), action),
    ensures
        action matches SessionAction::Send(reply) && reply.reports(
            "protocol-version"@,
            "unsupported protocol version "@ + crate::text::decimal_text(
                frame.spoken_version() as nat,
            ),
        ),
        next_state(Session::Reading { initialized }, SessionEvent::Frame(frame))
            == (Session::Refusing { initialized }),
{
}

/// A frame that may not come yet, or not again, is answered as misplaced: a second
/// introduction, or settings or a message before the first.
pub proof fn law_misplaced_frames_are_refused(
    initialized: bool,
    frame: HostFrame,
    action: SessionAction,
)
    requires
        frame.spoken_version() == PROTOCOL_VERSION,
        if initialized {
            frame is Init
        } else {
            frame is Settings || frame is Message
        },
        asks(Session::Reading { initialized }, SessionEvent::Frame(frame), action),
    ensures
        action matches SessionAction::Send(reply) && reply.reports(
            "protocol-state"@,
            "invalid companion lifecycle frame"@,
        ),
        next_state(Session::Reading { initialized }, SessionEvent::Frame(frame))
            == (Session::Refusing { initialized }),
{
}

/// A shutdown, and the end of the input, lead to the sampler being told to end, at any
/// time.
pub proof fn law_shutdown_is_always_heard(initialized: bool, event: SessionEvent)
    requires
        event is EndOfInput || event == SessionEvent::Frame(
            HostFrame::Shutdown { v: PROTOCOL_VERSION },
        ),
    ensures
        next_state(Session::Reading { initialized }, event) == (Session::Stopping { initialized }),
        asks(Session::Reading { initialized }, event, SessionAction::ClearRunning),
{
}

/// An introduction with a known rate, where nothing fails on the way, leaves the
/// companion initialized and reading on.
pub proof fn law_introduction_initializes(name: String, settings: serde_json::Value)
    requires
        name@ == "process-v2"@,
        crate::control::rate_requested(settings) is Some,
    ensures
        state_after(
            seq![
                SessionEvent::Protocol(Some(name)),
                SessionEvent::Frame(
                    HostFrame::Init { v: PROTOCOL_VERSION, device_settings: settings },
                ),
                SessionEvent::Done,
                SessionEvent::Done,
                SessionEvent::Done,
            ],
        ) == (Session::Reading { initialized: true }),
{
    let events = seq![
        SessionEvent::Protocol(Some(name)),
        SessionEvent::Frame(HostFrame::Init { v: PROTOCOL_VERSION, device_settings: settings }),
        SessionEvent::Done,
        SessionEvent::Done,
        SessionEvent::Done,
    ];
    assert(events.take(0) =~= Seq::<SessionEvent>::empty());
    assert(events.take(5) =~= events);
    assert(state_at(events, 0) is Starting);
    lemma_state_step(events, 0);
    lemma_state_step(events, 1);
    lemma_state_step(events, 2);
    lemma_state_step(events, 3);
    lemma_state_step(events, 4);
}

/// A change of settings does what an introduction with the same settings does: the same
/// rate is asked to be applied, or the same error ends the conversation.
pub proof fn law_settings_apply_like_an_introduction(
    settings: serde_json::Value,
    changed: (Session, SessionAction),
    introduced: (Session, SessionAction),
)
    requires
        call_ensures(
            converse,
            (
                Session::Reading { initialized: true },
                SessionEvent::Frame(HostFrame::Settings { v: 5, device_settings: settings }),
            ),
            changed,
        ),
        call_ensures(
            converse,
            (
                Session::Reading { initialized: false },
                SessionEvent::Frame(HostFrame::Init { v: 5, device_settings: settings }),
            ),
            introduced,
        ),
    ensures
        changed.1 matches SessionAction::ApplyRate(rate) ==> introduced.1
            == SessionAction::ApplyRate(rate),
        introduced.1 matches SessionAction::ApplyRate(rate) ==> changed.1
            == SessionAction::ApplyRate(rate),
        changed.1 is ApplyRate <==> changed.0 == (Session::Applying { initialized: true }),
        introduced.1 is ApplyRate <==> introduced.0 == (Session::Applying { initialized: false }),
        changed.1 !is ApplyRate ==> {
            &&& changed.0 is Finished
            &&& introduced.0 is Finished
            &&& changed.1 matches SessionAction::Exit(Err(one)) && one@
                == "refreshRate must be 30fps or 60fps"@
            &&& introduced.1 matches SessionAction::Exit(Err(other)) && other@
                == "refreshRate must be 30fps or 60fps"@
        },
{
}

/// The rate that is asked to be applied is the one that the setting `refreshRate` names,
/// before the introduction and after it.
pub proof fn law_applied_rate_is_the_named_one(
    initialized: bool,
    settings: serde_json::Value,
    step: (Session, SessionAction),
)
    requires
        call_ensures(
            converse,
            (
                Session::Reading { initialized },
                SessionEvent::Frame(
                    if initialized {
                        HostFrame::Settings { v: 5, device_settings: settings }
                    } else {
                        HostFrame::Init { v: 5, device_settings: settings }
                    },
                ),
            ),
            step,
        ),
    ensures
        step.1 == SessionAction::ApplyRate(RefreshRate::Fps60) <==> ({
            let texts = crate::control::text_members(settings);
            texts.dom().contains("refreshRate"@) && texts["refreshRate"@] == "60fps"@
        }),
        step.1 == SessionAction::ApplyRate(RefreshRate::Fps30) <==> ({
            let texts = crate::control::text_members(settings);
            texts.dom().contains("refreshRate"@) && texts["refreshRate"@] == "30fps"@
        }),
{
    reveal_strlit("30fps");
    reveal_strlit("60fps");
    assert("30fps"@[0] != "60fps"@[0]);
}

/// Frames are judged by their version first. In version five an introduction counts once,
/// settings and messages after it, a shutdown always; and settings count for the rate that
/// they name, before the introduction as after it.
pub proof fn law_frames_are_judged(initialized: bool, frame: &HostFrame, judged: Verdict)
    requires
        call_ensures(judge, (initialized, frame), judged),
    ensures
        match *frame {
            HostFrame::Init { v, device_settings } => {
                let texts = crate::control::text_members(device_settings);
                let rate = texts["refreshRate"@];
                &&& v != 5 ==> judged == Verdict::UnsupportedVersion(v)
                &&& v == 5 && initialized ==> judged is Misplaced
                &&& v == 5 && !initialized ==> {
                    &&& judged == Verdict::Apply(RefreshRate::Fps60) <==> texts.dom().contains(
                        "refreshRate"@,
                    ) && rate == "60fps"@
                    &&& judged == Verdict::Apply(RefreshRate::Fps30) <==> texts.dom().contains(
                        "refreshRate"@,
                    ) && rate == "30fps"@
                    &&& judged is Apply || judged is InvalidSettings
                }
            },
            HostFrame::Settings { v, device_settings } => {
                let texts = crate::control::text_members(device_settings);
                let rate = texts["refreshRate"@];
                &&& v != 5 ==> judged == Verdict::UnsupportedVersion(v)
                &&& v == 5 && !initialized ==> judged is Misplaced
                &&& v == 5 && initialized ==> {
                    &&& judged == Verdict::Apply(RefreshRate::Fps60) <==> texts.dom().contains(
                        "refreshRate"@,
                    ) && rate == "60fps"@
                    &&& judged == Verdict::Apply(RefreshRate::Fps30) <==> texts.dom().contains(
                        "refreshRate"@,
                    ) && rate == "30fps"@
                    &&& judged is Apply || judged is InvalidSettings
                }
            },
            HostFrame::Message { v } => {
                &&& v != 5 ==> judged == Verdict::UnsupportedVersion(v)
                &&& v == 5 && initialized ==> judged is Accept
                &&& v == 5 && !initialized ==> judged is Misplaced
            },
            HostFrame::Shutdown { v } => {
                &&& v != 5 ==> judged == Verdict::UnsupportedVersion(v)
                &&& v == 5 ==> judged is Shutdown
            },
        },
{
    reveal_strlit("30fps");
    reveal_strlit("60fps");
    assert("30fps"@[0] != "60fps"@[0]);
}

/// The conversation does with a frame what its verdict calls for.
pub proof fn law_frames_are_treated_as_judged(
    initialized: bool,
    frame: HostFrame,
    judged: Verdict,
    obeyed: (Session, SessionAction),
    step: (Session, SessionAction),
)
    requires
        call_ensures(judge, (initialized, &frame), judged),
        call_ensures(obey, (initialized, judged), obeyed),
        call_ensures(
            converse,
            (Session::Reading { initialized }, SessionEvent::Frame(frame)),
            step,
        ),
    ensures
        step.0 == obeyed.0,
        step.1 is ReadFrame <==> obeyed.1 is ReadFrame,
        step.1 is ClearRunning <==> obeyed.1 is ClearRunning,
        step.1 matches SessionAction::ApplyRate(rate) ==> obeyed.1
            == SessionAction::ApplyRate(rate),
        step.1 matches SessionAction::Send(CompanionFrame::Error { v, message, code }) ==> (
        obeyed.1 matches SessionAction::Send(
            CompanionFrame::Error { v: w, message: text, code: name },
        ) && v == w && message@ == text@ && code@ == name@),
        step.1 matches SessionAction::Exit(Err(message)) ==> (obeyed.1 matches SessionAction::Exit(
            Err(text),
        ) && message@ == text@),
{
}

/// A verdict is obeyed: a rate is applied, what is accepted is read past, a shutdown stops
/// the sampler, and a refusal is sent in version five with its code and its reason. None
/// of this forgets whether the host has introduced itself.
pub proof fn law_verdicts_are_obeyed(
    initialized: bool,
    verdict: Verdict,
    digits: String,
    step: (Session, SessionAction),
)
    requires
        call_ensures(obey, (initialized, verdict), step),
        verdict matches Verdict::UnsupportedVersion(version) ==> call_ensures(
            decimal,
            (version,),
            digits,
        ),
    ensures
        match verdict {
            Verdict::UnsupportedVersion(_) => {
                &&& step.0 == (Session::Refusing { initialized })
                &&& step.1 matches SessionAction::Send(CompanionFrame::Error { v, message, code })
                    && v == 5 && code@ == "protocol-version"@ && message@
                    == "unsupported protocol version "@ + digits@
            },
            Verdict::Apply(rate) => step == (
                Session::Applying { initialized },
                SessionAction::ApplyRate(rate),
            ),
            Verdict::InvalidSettings => {
                &&& step.0 is Finished
                &&& step.1 matches SessionAction::Exit(Err(message)) && message@
                    == "refreshRate must be 30fps or 60fps"@
            },
            Verdict::Accept => step == (Session::Reading { initialized }, SessionAction::ReadFrame),
            Verdict::Shutdown => step == (
                Session::Stopping { initialized },
                SessionAction::ClearRunning,
            ),
            Verdict::Misplaced => {
                &&& step.0 == (Session::Refusing { initialized })
                &&& step.1 matches SessionAction::Send(CompanionFrame::Error { v, message, code })
                    && v == 5 && code@ == "protocol-state"@ && message@
                    == "invalid companion lifecycle frame"@
            },
        },
{
}

/// The conversation begins only where the environment names its protocol.
pub proof fn law_protocol_must_be_named(name: Option<String>, step: (Session, SessionAction))
    requires
        call_ensures(converse, (Session::Starting, SessionEvent::Protocol(name)), step),
    ensures
        name matches Some(text) && text@ == "process-v2"@ ==> step == (
            Session::Reading { initialized: false },
            SessionAction::ReadFrame,
        ),
        !(name matches Some(text) && text@ == "process-v2"@) ==> {
            &&& step.0 is Finished
            &&& step.1 matches SessionAction::Exit(Err(message)) && message@
                == "MYWALLPAPER_PROTOCOL must be process-v2"@
        },
{
}

/// What succeeds leads on: a first rate to the announcement, the announcement to the
/// sampler, the sampler to the next frame; a later rate to the next frame at once; a
/// refusal to the sampler's end, which is awaited where there is a sampler.
pub proof fn law_success_leads_on(
    initialized: bool,
    applied: (Session, SessionAction),
    greeted: (Session, SessionAction),
    spawned: (Session, SessionAction),
    refused: (Session, SessionAction),
    stopped: (Session, SessionAction),
    joined_sampler: (Session, SessionAction),
)
    requires
        call_ensures(converse, (Session::Applying { initialized }, SessionEvent::Done), applied),
        call_ensures(converse, (Session::Greeting, SessionEvent::Done), greeted),
        call_ensures(converse, (Session::Spawning, SessionEvent::Done), spawned),
        call_ensures(converse, (Session::Refusing { initialized }, SessionEvent::Done), refused),
        call_ensures(converse, (Session::Stopping { initialized }, SessionEvent::Done), stopped),
        call_ensures(converse, (Session::Joining, SessionEvent::Done), joined_sampler),
    ensures
        !initialized ==> applied == (
            Session::Greeting,
            SessionAction::Send(CompanionFrame::Ready { v: 5 }),
        ),
        initialized ==> applied == (Session::Reading { initialized }, SessionAction::ReadFrame),
        greeted == (Session::Spawning, SessionAction::SpawnSampler),
        spawned == (Session::Reading { initialized: true }, SessionAction::ReadFrame),
        refused == (Session::Stopping { initialized }, SessionAction::ClearRunning),
        initialized ==> stopped == (Session::Joining, SessionAction::JoinSampler),
        !initialized ==> stopped == (Session::Finished, SessionAction::Exit(Ok(()))),
        joined_sampler == (Session::Finished, SessionAction::Exit(Ok(()))),
{
}

/// The end of the input stops the sampler, before the introduction and after it.
pub proof fn law_end_of_input_stops(initialized: bool, step: (Session, SessionAction))
    requires
        call_ensures(converse, (Session::Reading { initialized }, SessionEvent::EndOfInput), step),
    ensures
        step == (Session::Stopping { initialized }, SessionAction::ClearRunning),
{
}

/// Where reading or sending fails, the conversation exits with the failure's own words.
pub proof fn law_failures_are_passed_on(
    state: Session,
    message: String,
    step: (Session, SessionAction),
)
    requires
        state is Reading || state is Greeting || state is Refusing,
        call_ensures(converse, (state, SessionEvent::Failed(message)), step),
    ensures
        step.0 is Finished,
        step.1 matches SessionAction::Exit(Err(text)) && text@ == message@,
{
}

/// A poisoned lock, and a sampler that panicked, end the conversation with the name of
/// what broke.
pub proof fn law_broken_locks_are_named(
    initialized: bool,
    applying: (Session, SessionAction),
    greeting: (Session, SessionAction),
    refusing: (Session, SessionAction),
    stopping: (Session, SessionAction),
    joining: (Session, SessionAction),
)
    requires
        call_ensures(
            converse,
            (Session::Applying { initialized }, SessionEvent::Poisoned),
            applying,
        ),
        call_ensures(converse, (Session::Greeting, SessionEvent::Poisoned), greeting),
        call_ensures(
            converse,
            (Session::Refusing { initialized }, SessionEvent::Poisoned),
            refusing,
        ),
        call_ensures(
            converse,
            (Session::Stopping { initialized }, SessionEvent::Poisoned),
            stopping,
        ),
        call_ensures(converse, (Session::Joining, SessionEvent::Panicked), joining),
    ensures
        applying.0 is Finished,
        applying.1 matches SessionAction::Exit(Err(text)) && text@
            == "control lock poisoned while applying settings"@,
        greeting.0 is Finished,
        greeting.1 matches SessionAction::Exit(Err(text)) && text@ == "output lock poisoned"@,
        refusing.0 is Finished,
        refusing.1 matches SessionAction::Exit(Err(text)) && text@ == "output lock poisoned"@,
        stopping.0 is Finished,
        stopping.1 matches SessionAction::Exit(Err(text)) && text@ == "control lock poisoned"@,
        joining.0 is Finished,
        joining.1 matches SessionAction::Exit(Err(text)) && text@
            == "audio sampler thread panicked"@,
{
}

/// Only an event that cannot be an answer is passed over, and it leaves the state as it
/// is; a conversation that is over passes over everything.
pub proof fn law_other_events_are_passed_over(
    state: Session,
    event: SessionEvent,
    step: (Session, SessionAction),
)
    requires
        call_ensures(converse, (state, event), step),
    ensures
        step.1 is Await ==> step.0 == state,
        step.1 is Await <==> match state {
            Session::Starting => event !is Protocol,
            Session::Reading { .. } => !(event is Frame || event is EndOfInput || event is Failed),
            Session::Applying { .. } => !(event is Done || event is Poisoned),
            Session::Greeting => !(event is Done || event is Failed || event is Poisoned),
            Session::Spawning => event !is Done,
            Session::Refusing { .. } => !(event is Done || event is Failed || event is Poisoned),
            Session::Stopping { .. } => !(event is Done || event is Poisoned),
            Session::Joining => !(event is Done || event is Panicked),
            Session::Finished => true,
        },
{
}

} // verus!
