//! The sampler: it captures a frame, publishes it, and waits, until it is told to end.
//!
//! The sampler is a machine: it asks for one action at a time, and moves on with the
//! event that tells how the action went. The first action is to enter the apartment.

use crate::control::Control;
use crate::protocol::{AudioFrame, CompanionFrame, MessageTarget, Payload, PROTOCOL_VERSION};
use crate::text::joined;
use vstd::prelude::*;

verus! {

/// Where the sampler stands. `open` tells whether it holds an open loopback.
#[derive(Clone, Copy, Debug, PartialEq, Eq, Structural)]
pub enum Sampler {
    /// Waiting for the apartment to be entered.
    Entering,
    /// Waiting for the report that it could not be entered.
    ReportingEntry,
    /// Waiting for the loopback to be opened.
    Opening,
    /// Waiting for the report that it could not be opened.
    ReportingOpening,
    /// Waiting for a frame to be captured.
    Capturing,
    /// Waiting for the frame to be sent.
    Publishing,
    /// Waiting for the report that no frame could be captured.
    ReportingCapture,
    /// Waiting for the loopback to be given up.
    Releasing,
    /// Waiting for the control to be read.
    Checking { open: bool },
    /// Waiting for the pause to pass.
    Waiting { open: bool },
    /// Over.
    Finished,
}

/// How the last action went.
#[derive(Debug)]
pub enum SamplerEvent {
    /// The action is done.
    Done,
    /// The action failed.
    Failed(String),
    /// A frame was captured.
    Captured(AudioFrame),
    /// The control was read, at once or after the pause.
    Observed(Control),
    /// A lock was poisoned.
    Poisoned,
}

/// What is to be done next.
#[derive(Debug)]
pub enum SamplerAction {
    OpenLoopback,
    CaptureFrame,
    Send(CompanionFrame),
    Release,
    ReadControl,
    /// Pause for so many milliseconds, or until woken, and read the control again.
    Wait { millis: u64 },
    Return,
    /// The event did not answer the last action, which still stands.
    Await,
}

/// Whether an event tells how sending went.
pub open spec fn sending_over(event: SamplerEvent) -> bool {
    event is Done || event is Failed || event is Poisoned
}

/// Whether an event answers the action that is awaited in a state.
pub open spec fn answers(state: Sampler, event: SamplerEvent) -> bool {
    match state {
        Sampler::Entering => event is Done || event is Failed,
        Sampler::ReportingEntry => sending_over(event),
        Sampler::Opening => event is Done || event is Failed,
        Sampler::ReportingOpening => sending_over(event),
        Sampler::Capturing => event is Captured || event is Failed,
        Sampler::Publishing => sending_over(event),
        Sampler::ReportingCapture => sending_over(event),
        Sampler::Releasing => event is Done,
        Sampler::Checking { .. } => event is Observed || event is Poisoned,
        Sampler::Waiting { .. } => event is Observed || event is Poisoned,
        Sampler::Finished => false,
    }
}

/// Whether an event shows that the sampler may go on.
pub open spec fn shows_running(event: SamplerEvent) -> bool {
    event matches SamplerEvent::Observed(control) && control.running
}

/// Where an event leads.
pub open spec fn next_state(state: Sampler, event: SamplerEvent) -> Sampler {
    if !answers(state, event) {
        state
    } else {
        match state {
            Sampler::Entering => if event is Done {
                Sampler::Opening
            } else {
                Sampler::ReportingEntry
            },
            Sampler::ReportingEntry => Sampler::Finished,
            Sampler::Opening => if event is Done {
                Sampler::Capturing
            } else {
                Sampler::ReportingOpening
            },
            Sampler::ReportingOpening => Sampler::Checking { open: false },
            Sampler::Capturing => if event is Captured {
                Sampler::Publishing
            } else {
                Sampler::ReportingCapture
            },
            Sampler::Publishing => if event is Done {
                Sampler::Checking { open: true }
            } else {
                Sampler::Finished
            },
            Sampler::ReportingCapture => Sampler::Releasing,
            Sampler::Releasing => Sampler::Checking { open: false },
            Sampler::Checking { open } => if shows_running(event) {
                Sampler::Waiting { open }
            } else {
                Sampler::Finished
            },
            Sampler::Waiting { open } => if !shows_running(event) {
                Sampler::Finished
            } else if open {
                Sampler::Capturing
            } else {
                Sampler::Opening
            },
            Sampler::Finished => Sampler::Finished,
        }
    }
}

/// Whether `action` is to broadcast the failure `text`.
pub open spec fn reports(action: SamplerAction, text: Seq<char>) -> bool {
    match action {
        SamplerAction::Send(
            CompanionFrame::Message {
                v,
                target: MessageTarget::Broadcast,
                payload: Payload::Error { message },
            },
        ) => v == PROTOCOL_VERSION && message@ == text,
        _ => false,
    }
}

/// What is reported about the failure that `event` tells of.
pub open spec fn failure_text(state: Sampler, event: SamplerEvent) -> Seq<char> {
    if state is Entering {
        "COM initialization failed: "@ + event->Failed_0@
    } else {
        event->Failed_0@
    }
}

/// Whether `action` is to broadcast the frame that `event` brings.
pub open spec fn publishes(event: SamplerEvent, action: SamplerAction) -> bool {
    event matches SamplerEvent::Captured(frame) && action == SamplerAction::Send(
        CompanionFrame::Message {
            v: PROTOCOL_VERSION,
            target: MessageTarget::Broadcast,
            payload: Payload::Frame(frame),
        },
    )
}

/// Whether `action` is what an event asks for: it is given by where the event leads.
pub open spec fn asks(state: Sampler, event: SamplerEvent, action: SamplerAction) -> bool {
    if !answers(state, event) {
        action is Await
    } else {
        match next_state(state, event) {
            Sampler::Entering => false,
            Sampler::ReportingEntry => reports(action, failure_text(state, event)),
            Sampler::Opening => action is OpenLoopback,
            Sampler::ReportingOpening => reports(action, failure_text(state, event)),
            Sampler::Capturing => action is CaptureFrame,
            Sampler::Publishing => publishes(event, action),
            Sampler::ReportingCapture => reports(action, failure_text(state, event)),
            Sampler::Releasing => action is Release,
            Sampler::Checking { .. } => action is ReadControl,
            Sampler::Waiting { .. } => action == (SamplerAction::Wait {
                millis: event->Observed_0.rate.millis(),
            }),
            Sampler::Finished => action is Return,
        }
    }
}

fn report(message: String) -> (action: SamplerAction)
    ensures
        reports(action, message@),
{
    SamplerAction::Send(CompanionFrame::broadcast(Payload::Error { message }))
}

/// Moves the sampler on.
pub fn run_sampler(state: Sampler, event: SamplerEvent) -> (step: (Sampler, SamplerAction))
    ensures
        step.0 == next_state(state, event),
        asks(state, event, step.1),
{
    match (state, event) {
        (Sampler::Entering, SamplerEvent::Done) => (Sampler::Opening, SamplerAction::OpenLoopback),
        (Sampler::Entering, SamplerEvent::Failed(message)) => (
            Sampler::ReportingEntry,
            report(joined("COM initialization failed: ", message.as_str())),
        ),
        (
            Sampler::ReportingEntry,
            SamplerEvent::Done | SamplerEvent::Failed(_) | SamplerEvent::Poisoned,
        ) => (Sampler::Finished, SamplerAction::Return),
        (Sampler::Opening, SamplerEvent::Done) => (Sampler::Capturing, SamplerAction::CaptureFrame),
        (Sampler::Opening, SamplerEvent::Failed(message)) => (
            Sampler::ReportingOpening,
            report(message),
        ),
        (
            Sampler::ReportingOpening,
            SamplerEvent::Done | SamplerEvent::Failed(_) | SamplerEvent::Poisoned,
        ) => (Sampler::Checking { open: false }, SamplerAction::ReadControl),
        (Sampler::Capturing, SamplerEvent::Captured(frame)) => (
            Sampler::Publishing,
            SamplerAction::Send(CompanionFrame::broadcast(Payload::Frame(frame))),
        ),
        (Sampler::Capturing, SamplerEvent::Failed(message)) => (
            Sampler::ReportingCapture,
            report(message),
        ),
        (Sampler::Publishing, SamplerEvent::Done) => (
            Sampler::Checking { open: true },
            SamplerAction::ReadControl,
        ),
        (Sampler::Publishing, SamplerEvent::Failed(_) | SamplerEvent::Poisoned) => (
            Sampler::Finished,
            SamplerAction::Return,
        ),
        (
            Sampler::ReportingCapture,
            SamplerEvent::Done | SamplerEvent::Failed(_) | SamplerEvent::Poisoned,
        ) => (Sampler::Releasing, SamplerAction::Release),
        (Sampler::Releasing, SamplerEvent::Done) => (
            Sampler::Checking { open: false },
            SamplerAction::ReadControl,
        ),
        (Sampler::Checking { open }, SamplerEvent::Observed(control)) => if control.running {
            (
                Sampler::Waiting { open },
                SamplerAction::Wait { millis: control.rate.interval_millis() },
            )
        } else {
            (Sampler::Finished, SamplerAction::Return)
        },
        (Sampler::Waiting { open }, SamplerEvent::Observed(control)) => if !control.running {
            (Sampler::Finished, SamplerAction::Return)
        } else if open {
            (Sampler::Capturing, SamplerAction::CaptureFrame)
        } else {
            (Sampler::Opening, SamplerAction::OpenLoopback)
        },
        (Sampler::Checking { .. }, SamplerEvent::Poisoned) => (
            Sampler::Finished,
            SamplerAction::Return,
        ),
        (Sampler::Waiting { .. }, SamplerEvent::Poisoned) => (
            Sampler::Finished,
            SamplerAction::Return,
        ),
        (state, _) => (state, SamplerAction::Await),
    }
}

/// Where the sampler stands after `events`.
pub open spec fn state_after(events: Seq<SamplerEvent>) -> Sampler
    decreases events.len(),
{
    if events.len() == 0 {
        Sampler::Entering
    } else {
        next_state(state_after(events.drop_last()), events.last())
    }
}

/// The state in which event number `i` comes.
pub open spec fn state_at(events: Seq<SamplerEvent>, i: int) -> Sampler {
    state_after(events.take(i))
}

/// Whether `action` is asked for by event number `i`.
pub open spec fn asked(events: Seq<SamplerEvent>, i: int, action: SamplerAction) -> bool {
    asks(state_at(events, i), events[i], action)
}

/// Whether event number `i` asks for a frame to be captured.
pub open spec fn captures(events: Seq<SamplerEvent>, i: int) -> bool {
    asked(events, i, SamplerAction::CaptureFrame)
}

/// Whether event number `i` tells that the loopback was opened.
pub open spec fn opens(events: Seq<SamplerEvent>, i: int) -> bool {
    state_at(events, i) is Opening && events[i] is Done
}

/// Whether event number `i` asks for the loopback to be given up.
pub open spec fn releases(events: Seq<SamplerEvent>, i: int) -> bool {
    asked(events, i, SamplerAction::Release)
}

/// Whether event number `i` asks for a pause.
pub open spec fn pauses(events: Seq<SamplerEvent>, i: int) -> bool {
    exists|millis: u64| #[trigger] asked(events, i, SamplerAction::Wait { millis })
}

proof fn lemma_state_step(events: Seq<SamplerEvent>, i: int)
    requires
        0 <= i < events.len(),
    ensures
        state_at(events, i + 1) == next_state(state_at(events, i), events[i]),
{
    assert(events.take(i + 1).drop_last() =~= events.take(i));
}

/// Whether the loopback is open in a state, and not being given up.
spec fn holds_loopback(state: Sampler) -> bool {
    match state {
        Sampler::Capturing => true,
        Sampler::Publishing => true,
        Sampler::ReportingCapture => true,
        Sampler::Checking { open } => open,
        Sampler::Waiting { open } => open,
        _ => false,
    }
}

proof fn lemma_opened(events: Seq<SamplerEvent>, j: int) -> (i: int)
    requires
        0 <= j <= events.len(),
        holds_loopback(state_at(events, j)),
    ensures
        0 <= i < j,
        opens(events, i),
        forall|k: int| i < k < j ==> !#[trigger] releases(events, k),
    decreases j,
{
    assert(events.take(0) =~= Seq::<SamplerEvent>::empty());
    assert(j > 0);
    lemma_state_step(events, j - 1);
    if holds_loopback(state_at(events, j - 1)) {
        lemma_opened(events, j - 1)
    } else {
        j - 1
    }
}

/// A frame is captured only from a loopback that was opened and has not been given up
/// since.
pub proof fn law_captures_from_open_loopback(events: Seq<SamplerEvent>, j: int)
    requires
        0 <= j < events.len(),
        captures(events, j),
    ensures
        exists|i: int| #![trigger opens(events, i)]
            {
                &&& 0 <= i <= j
                &&& opens(events, i)
                &&& forall|k: int| i < k <= j ==> !#[trigger] releases(events, k)
            },
{
    lemma_state_step(events, j);
    let i = lemma_opened(events, j + 1);
    assert(opens(events, i));
}

/// How far a round has come; a round ends with the pause.
spec fn round_position(state: Sampler) -> int {
    match state {
        Sampler::Entering => 0,
        Sampler::ReportingEntry => 0,
        Sampler::Opening => 0,
        Sampler::ReportingOpening => 1,
        Sampler::Capturing => 1,
        Sampler::Publishing => 2,
        Sampler::ReportingCapture => 2,
        Sampler::Releasing => 3,
        Sampler::Checking { .. } => 4,
        Sampler::Waiting { .. } => 5,
        Sampler::Finished => 4,
    }
}

proof fn lemma_round(events: Seq<SamplerEvent>, i: int, j: int)
    requires
        0 <= i < j <= events.len(),
        state_at(events, i + 1) is Capturing,
    ensures
        1 <= round_position(state_at(events, j)) <= 4 || exists|k: int|
            i < k < j && #[trigger] pauses(events, k),
    decreases j - i,
{
    if i + 1 < j {
        lemma_round(events, i, j - 1);
        lemma_state_step(events, j - 1);
        if state_at(events, j) is Waiting && state_at(events, j - 1) !is Waiting {
            let millis = events[j - 1]->Observed_0.rate.millis();
            assert(asked(events, j - 1, SamplerAction::Wait { millis }));
            assert(pauses(events, j - 1));
        }
    }
}

/// Between two captures there is a pause.
pub proof fn law_captures_are_paced(events: Seq<SamplerEvent>, i: int, j: int)
    requires
        0 <= i < j < events.len(),
        captures(events, i),
        captures(events, j),
    ensures
        exists|k: int| i < k < j && #[trigger] pauses(events, k),
{
    lemma_state_step(events, i);
    lemma_round(events, i, j);
}

/// The sampler ends for one of four reasons only: the apartment could not be entered, a
/// frame could not be sent, a lock was poisoned, or it was told to end. A loopback that
/// cannot be opened or read does not end it.
pub proof fn law_reasons_to_end(state: Sampler, event: SamplerEvent)
    requires
        state !is Finished,
        next_state(state, event) is Finished,
    ensures
        ({
            ||| state is ReportingEntry
            ||| state is Publishing && event !is Done
            ||| event is Poisoned
            ||| event matches SamplerEvent::Observed(control) && !control.running
        }),
{
}

/// The sampler ends as soon as it learns that it is to end, and stays ended.
pub proof fn law_end_is_final(events: Seq<SamplerEvent>, i: int, j: int)
    requires
        0 <= i < j <= events.len(),
        state_at(events, i) is Checking || state_at(events, i) is Waiting,
        events[i] matches SamplerEvent::Observed(control) && !control.running,
    ensures
        state_at(events, j) is Finished,
    decreases j - i,
{
    lemma_state_step(events, j - 1);
    if i + 1 < j {
        law_end_is_final(events, i, j - 1);
    }
}

/// Where the loopback could not be opened, or no frame could be captured, the failure is
/// reported, and the loopback is opened anew before the next capture, however the report
/// went, as long as the sampler is to run.
pub proof fn law_failures_are_retried(
    state: Sampler,
    failure: SamplerEvent,
    sent: SamplerEvent,
    first: Control,
    second: Control,
    action: SamplerAction,
)
    requires
        state is Opening || state is Capturing,
        failure is Failed,
        asks(state, failure, action),
        sending_over(sent),
        first.running,
        second.running,
    ensures
        reports(action, failure->Failed_0@),
        ({
            let reported = next_state(next_state(state, failure), sent);
            let checking = if state is Capturing {
                next_state(reported, SamplerEvent::Done)
            } else {
                reported
            };
            let waiting = next_state(checking, SamplerEvent::Observed(first));
            &&& state is Capturing ==> reported is Releasing
            &&& waiting == (Sampler::Waiting { open: false })
            &&& next_state(waiting, SamplerEvent::Observed(second)) is Opening
        }),
{
}

/// What is published is what was captured: the frame that is sent has the time, level,
/// peak and bands of the frame that came, is written in version five, and goes to all
/// surfaces.
pub proof fn law_published_as_captured(frame: AudioFrame, step: (Sampler, SamplerAction))
    requires
        call_ensures(run_sampler, (Sampler::Capturing, SamplerEvent::Captured(frame)), step),
    ensures
        step.0 is Publishing,
        step.1 matches SamplerAction::Send(
            CompanionFrame::Message { v, target, payload: Payload::Frame(sent) },
        ) && {
            &&& v == 5
            &&& target is Broadcast
            &&& sent.captured_at_unix_ms == frame.captured_at_unix_ms
            &&& sent.level == frame.level
            &&& sent.peak == frame.peak
            &&& sent.bands@ == frame.bands@
        },
{
}

/// Every failure is told to all surfaces in its own words; only that of entering the
/// apartment is introduced.
pub proof fn law_failures_are_told(
    state: Sampler,
    message: String,
    step: (Sampler, SamplerAction),
)
    requires
        state is Entering || state is Opening || state is Capturing,
        call_ensures(run_sampler, (state, SamplerEvent::Failed(message)), step),
    ensures
        step.1 matches SamplerAction::Send(
            CompanionFrame::Message { v, target, payload: Payload::Error { message: sent } },
        ) && {
            &&& v == 5
            &&& target is Broadcast
            &&& sent@ == if state is Entering {
                "COM initialization failed: "@ + message@
            } else {
                message@
            }
        },
        state is Entering <==> step.0 is ReportingEntry,
        state is Opening <==> step.0 is ReportingOpening,
        state is Capturing <==> step.0 is ReportingCapture,
{
}

/// What is done next leads from one action to the next: the loopback is opened after the
/// apartment was entered, and read after it was opened.
pub proof fn law_beginnings_lead_on(
    entered: (Sampler, SamplerAction),
    opened: (Sampler, SamplerAction),
)
    requires
        call_ensures(run_sampler, (Sampler::Entering, SamplerEvent::Done), entered),
        call_ensures(run_sampler, (Sampler::Opening, SamplerEvent::Done), opened),
    ensures
        entered == (Sampler::Opening, SamplerAction::OpenLoopback),
        opened == (Sampler::Capturing, SamplerAction::CaptureFrame),
{
}

/// However a report went, it changes nothing of what comes next: without an apartment the
/// sampler ends, without a loopback it looks at the control, and after a failed capture it
/// gives the loopback up first.
pub proof fn law_reports_are_not_awaited(
    state: Sampler,
    sent: SamplerEvent,
    step: (Sampler, SamplerAction),
    released: (Sampler, SamplerAction),
)
    requires
        sent is Done || sent is Failed || sent is Poisoned,
        call_ensures(run_sampler, (state, sent), step),
        call_ensures(run_sampler, (Sampler::Releasing, SamplerEvent::Done), released),
    ensures
        state is ReportingEntry ==> step == (Sampler::Finished, SamplerAction::Return),
        state is ReportingOpening ==> step == (
            Sampler::Checking { open: false },
            SamplerAction::ReadControl,
        ),
        state is ReportingCapture ==> step == (Sampler::Releasing, SamplerAction::Release),
        released == (Sampler::Checking { open: false }, SamplerAction::ReadControl),
{
}

/// A frame that was sent is followed by a look at the control, the loopback kept; one
/// that could not be sent ends the sampler.
pub proof fn law_frames_must_be_sent(sent: SamplerEvent, step: (Sampler, SamplerAction))
    requires
        sent is Done || sent is Failed || sent is Poisoned,
        call_ensures(run_sampler, (Sampler::Publishing, sent), step),
    ensures
        sent is Done ==> step == (Sampler::Checking { open: true }, SamplerAction::ReadControl),
        sent !is Done ==> step == (Sampler::Finished, SamplerAction::Return),
{
}

/// The pause is that of the rate seen just before it: 16 milliseconds at sixty frames a
/// second, 33 at thirty. Whoever is told to end does not pause.
pub proof fn law_pause_follows_rate(open: bool, control: Control, step: (Sampler, SamplerAction))
    requires
        call_ensures(
            run_sampler,
            (Sampler::Checking { open }, SamplerEvent::Observed(control)),
            step,
        ),
    ensures
        control.running && control.rate is Fps60 ==> step == (
            Sampler::Waiting { open },
            SamplerAction::Wait { millis: 16 },
        ),
        control.running && control.rate is Fps30 ==> step == (
            Sampler::Waiting { open },
            SamplerAction::Wait { millis: 33 },
        ),
        !control.running ==> step == (Sampler::Finished, SamplerAction::Return),
{
}

/// After the pause the next frame is captured, or the loopback opened first where there is
/// none, at whatever rate; unless the sampler is told to end.
pub proof fn law_rounds_go_on(open: bool, control: Control, step: (Sampler, SamplerAction))
    requires
        call_ensures(
            run_sampler,
            (Sampler::Waiting { open }, SamplerEvent::Observed(control)),
            step,
        ),
    ensures
        control.running && open ==> step == (Sampler::Capturing, SamplerAction::CaptureFrame),
        control.running && !open ==> step == (Sampler::Opening, SamplerAction::OpenLoopback),
        !control.running ==> step == (Sampler::Finished, SamplerAction::Return),
{
}

/// A poisoned control ends the sampler, before the pause or after it.
pub proof fn law_poisoned_control_ends(state: Sampler, step: (Sampler, SamplerAction))
    requires
        state is Checking || state is Waiting,
        call_ensures(run_sampler, (state, SamplerEvent::Poisoned), step),
    ensures
        step == (Sampler::Finished, SamplerAction::Return),
{
}

/// Only an event that cannot be an answer is passed over, and it leaves the state as it
/// is; an ended sampler passes over everything.
pub proof fn law_other_events_are_passed_over(
    state: Sampler,
    event: SamplerEvent,
    step: (Sampler, SamplerAction),
)
    requires
        call_ensures(run_sampler, (state, event), step),
    ensures
        step.1 is Await ==> step.0 == state,
        step.1 is Await <==> match state {
            Sampler::Entering => !(event is Done || event is Failed),
            Sampler::Opening => !(event is Done || event is Failed),
            Sampler::Capturing => !(event is Captured || event is Failed),
            Sampler::Releasing => event !is Done,
            Sampler::Checking { .. } => !(event is Observed || event is Poisoned),
            Sampler::Waiting { .. } => !(event is Observed || event is Poisoned),
            Sampler::Finished => true,
            _ => event is Captured || event is Observed,
        },
{
}

} // verus!
