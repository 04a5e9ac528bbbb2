//! Opening the loopback of the default output device.
//!
//! Opening is a machine: it asks for one action at a time, and moves on with the event
//! that tells how the action went. The first action is to create the device enumerator.

use crate::format::{parse_format, StreamFormat, WaveFormat};
use crate::text::joined;
use vstd::prelude::*;

verus! {

/// How the device is shared: with other clients.
pub const AUDCLNT_SHAREMODE_SHARED: i32 = 0;

/// The flag of a stream that captures what a device plays.
pub const AUDCLNT_STREAMFLAGS_LOOPBACK: u32 = 0x0002_0000;

/// The length of the capture buffer, in units of a hundred nanoseconds.
pub const BUFFER_DURATION: i64 = 2_000_000;

/// How a client is initialized.
#[derive(Clone, Copy, Debug, PartialEq, Eq, Structural)]
pub struct ClientSetup {
    pub share_mode: i32,
    pub stream_flags: u32,
    pub buffer_duration: i64,
    pub periodicity: i64,
}

/// How the client of a loopback is initialized; the device chooses its own period.
pub open spec fn loopback_setup() -> ClientSetup {
    ClientSetup {
        share_mode: AUDCLNT_SHAREMODE_SHARED,
        stream_flags: AUDCLNT_STREAMFLAGS_LOOPBACK,
        buffer_duration: BUFFER_DURATION,
        periodicity: 0,
    }
}

/// Where opening stands. `Text` is `String` in what runs, and a sequence of characters
/// in what is said of it.
#[derive(Debug)]
pub enum Opening<Text> {
    /// Waiting for the device enumerator.
    Enumerating,
    /// Waiting for the default output device.
    Locating,
    /// Waiting for the audio client.
    Activating,
    /// Waiting for the mix format.
    Querying,
    /// Waiting for the client to be initialized with the mix format, which was read as
    /// `parsed`.
    Initializing { parsed: Result<StreamFormat, Text> },
    /// Waiting for the mix format to be freed.
    Freeing { outcome: Result<StreamFormat, Text> },
    /// Waiting for the capture service.
    Servicing { stream: StreamFormat },
    /// Waiting for the client to start.
    Starting { stream: StreamFormat },
    /// Over.
    Finished,
}

/// How the last action went.
#[derive(Debug)]
pub enum OpenEvent<Text> {
    /// The action is done.
    Done,
    /// The action failed.
    Failed(Text),
    /// The mix format, if there is one.
    MixFormat(Option<WaveFormat>),
}

/// What is to be done next.
#[derive(Debug)]
pub enum OpenAction<Text> {
    LocateEndpoint,
    ActivateClient,
    QueryMixFormat,
    /// Initialize the client with the mix format, in this way.
    InitializeClient(ClientSetup),
    FreeMixFormat,
    RequestCapture,
    StartClient,
    /// The loopback is open.
    Opened(StreamFormat),
    /// The loopback cannot be opened.
    Fail(Text),
    /// The event did not answer the last action, which still stands.
    Await,
}

impl View for Opening<String> {
    type V = Opening<Seq<char>>;

    open spec fn view(&self) -> Opening<Seq<char>> {
        match self {
            Opening::Enumerating => Opening::Enumerating,
            Opening::Locating => Opening::Locating,
            Opening::Activating => Opening::Activating,
            Opening::Querying => Opening::Querying,
            Opening::Initializing { parsed } => Opening::Initializing {
                parsed: crate::text::text_of(*parsed),
            },
            Opening::Freeing { outcome } => Opening::Freeing {
                outcome: crate::text::text_of(*outcome),
            },
            Opening::Servicing { stream } => Opening::Servicing { stream: *stream },
            Opening::Starting { stream } => Opening::Starting { stream: *stream },
            Opening::Finished => Opening::Finished,
        }
    }
}

impl View for OpenEvent<String> {
    type V = OpenEvent<Seq<char>>;

    open spec fn view(&self) -> OpenEvent<Seq<char>> {
        match self {
            OpenEvent::Done => OpenEvent::Done,
            OpenEvent::Failed(message) => OpenEvent::Failed(message@),
            OpenEvent::MixFormat(format) => OpenEvent::MixFormat(*format),
        }
    }
}

impl View for OpenAction<String> {
    type V = OpenAction<Seq<char>>;

    open spec fn view(&self) -> OpenAction<Seq<char>> {
        match self {
            OpenAction::LocateEndpoint => OpenAction::LocateEndpoint,
            OpenAction::ActivateClient => OpenAction::ActivateClient,
            OpenAction::QueryMixFormat => OpenAction::QueryMixFormat,
            OpenAction::InitializeClient(setup) => OpenAction::InitializeClient(*setup),
            OpenAction::FreeMixFormat => OpenAction::FreeMixFormat,
            OpenAction::RequestCapture => OpenAction::RequestCapture,
            OpenAction::StartClient => OpenAction::StartClient,
            OpenAction::Opened(stream) => OpenAction::Opened(*stream),
            OpenAction::Fail(message) => OpenAction::Fail(message@),
            OpenAction::Await => OpenAction::Await,
        }
    }
}

/// What the failure of an action is called; nothing where no failure is awaited.
pub open spec fn failure_name(state: Opening<Seq<char>>) -> Seq<char> {
    match state {
        Opening::Enumerating => "audio device enumerator failed: "@,
        Opening::Locating => "default Windows output device is unavailable: "@,
        Opening::Activating => "WASAPI client activation failed: "@,
        Opening::Querying => "WASAPI mix format failed: "@,
        Opening::Initializing { .. } => "WASAPI loopback initialization failed: "@,
        Opening::Servicing { .. } => "WASAPI capture service failed: "@,
        Opening::Starting { .. } => "WASAPI loopback start failed: "@,
        Opening::Freeing { .. } => Seq::empty(),
        Opening::Finished => Seq::empty(),
    }
}

/// Where an event leads, and what it asks for.
///
/// A client that cannot be initialized counts before a mix format that cannot be
/// decoded; the mix format is freed before either is reported.
pub open spec fn open_step(state: Opening<Seq<char>>, event: OpenEvent<Seq<char>>) -> (
    Opening<Seq<char>>,
    OpenAction<Seq<char>>,
) {
    match (state, event) {
        (Opening::Enumerating, OpenEvent::Done) => (Opening::Locating, OpenAction::LocateEndpoint),
        (Opening::Locating, OpenEvent::Done) => (Opening::Activating, OpenAction::ActivateClient),
        (Opening::Activating, OpenEvent::Done) => (Opening::Querying, OpenAction::QueryMixFormat),
        (Opening::Querying, OpenEvent::MixFormat(Some(wave))) => (
            Opening::Initializing { parsed: wave.reading() },
            OpenAction::InitializeClient(loopback_setup()),
        ),
        (Opening::Querying, OpenEvent::MixFormat(None)) => (
            Opening::Finished,
            OpenAction::Fail("WASAPI returned a null mix format"@),
        ),
        (Opening::Initializing { parsed }, OpenEvent::Done) => (
            Opening::Freeing { outcome: parsed },
            OpenAction::FreeMixFormat,
        ),
        (Opening::Initializing { .. }, OpenEvent::Failed(message)) => (
            Opening::Freeing { outcome: Err(failure_name(state) + message) },
            OpenAction::FreeMixFormat,
        ),
        (Opening::Freeing { outcome: Ok(stream) }, OpenEvent::Done) => (
            Opening::Servicing { stream },
            OpenAction::RequestCapture,
        ),
        (Opening::Freeing { outcome: Err(message) }, OpenEvent::Done) => (
            Opening::Finished,
            OpenAction::Fail(message),
        ),
        (Opening::Servicing { stream }, OpenEvent::Done) => (
            Opening::Starting { stream },
            OpenAction::StartClient,
        ),
        (Opening::Starting { stream }, OpenEvent::Done) => (
            Opening::Finished,
            OpenAction::Opened(stream),
        ),
        (Opening::Enumerating, OpenEvent::Failed(message))
        | (Opening::Locating, OpenEvent::Failed(message))
        | (Opening::Activating, OpenEvent::Failed(message))
        | (Opening::Querying, OpenEvent::Failed(message))
        | (Opening::Servicing { .. }, OpenEvent::Failed(message))
        | (Opening::Starting { .. }, OpenEvent::Failed(message)) => (
            Opening::Finished,
            OpenAction::Fail(failure_name(state) + message),
        ),
        (_, _) => (state, OpenAction::Await),
    }
}

fn failed(name: &str, message: String) -> (step: (Opening<String>, OpenAction<String>))
    ensures
        step.0 is Finished,
        step.1@ == OpenAction::Fail(name@ + message@),
{
    (Opening::Finished, OpenAction::Fail(joined(name, message.as_str())))
}

/// Moves the opening on.
pub fn open(state: Opening<String>, event: OpenEvent<String>) -> (step: (
    Opening<String>,
    OpenAction<String>,
))
    ensures
        (step.0@, step.1@) == open_step(state@, event@),
{
    match (state, event) {
        (Opening::Enumerating, OpenEvent::Done) => (Opening::Locating, OpenAction::LocateEndpoint),
        (Opening::Enumerating, OpenEvent::Failed(message)) => failed(
            "audio device enumerator failed: ",
            message,
        ),
        (Opening::Locating, OpenEvent::Done) => (Opening::Activating, OpenAction::ActivateClient),
        (Opening::Locating, OpenEvent::Failed(message)) => failed(
            "default Windows output device is unavailable: ",
            message,
        ),
        (Opening::Activating, OpenEvent::Done) => (Opening::Querying, OpenAction::QueryMixFormat),
        (Opening::Activating, OpenEvent::Failed(message)) => failed(
            "WASAPI client activation failed: ",
            message,
        ),
        (Opening::Querying, OpenEvent::MixFormat(Some(wave))) => (
            Opening::Initializing { parsed: parse_format(&wave) },
            OpenAction::InitializeClient(
                ClientSetup {
                    share_mode: AUDCLNT_SHAREMODE_SHARED,
                    stream_flags: AUDCLNT_STREAMFLAGS_LOOPBACK,
                    buffer_duration: BUFFER_DURATION,
                    periodicity: 0,
                },
            ),
        ),
        (Opening::Querying, OpenEvent::MixFormat(None)) => (
            Opening::Finished,
            OpenAction::Fail("WASAPI returned a null mix format".to_owned()),
        ),
        (Opening::Querying, OpenEvent::Failed(message)) => failed(
            "WASAPI mix format failed: ",
            message,
        ),
        (Opening::Initializing { parsed }, OpenEvent::Done) => (
            Opening::Freeing { outcome: parsed },
            OpenAction::FreeMixFormat,
        ),
        (Opening::Initializing { .. }, OpenEvent::Failed(message)) => (
            Opening::Freeing {
                outcome: Err(
                    joined("WASAPI loopback initialization failed: ", message.as_str()),
                ),
            },
            OpenAction::FreeMixFormat,
        ),
        (Opening::Freeing { outcome: Ok(stream) }, OpenEvent::Done) => (
            Opening::Servicing { stream },
            OpenAction::RequestCapture,
        ),
        (Opening::Freeing { outcome: Err(message) }, OpenEvent::Done) => (
            Opening::Finished,
            OpenAction::Fail(message),
        ),
        (Opening::Servicing { stream }, OpenEvent::Done) => (
            Opening::Starting { stream },
            OpenAction::StartClient,
        ),
        (Opening::Servicing { .. }, OpenEvent::Failed(message)) => failed(
            "WASAPI capture service failed: ",
            message,
        ),
        (Opening::Starting { stream }, OpenEvent::Done) => (
            Opening::Finished,
            OpenAction::Opened(stream),
        ),
        (Opening::Starting { .. }, OpenEvent::Failed(message)) => failed(
            "WASAPI loopback start failed: ",
            message,
        ),
        (state, _) => (state, OpenAction::Await),
    }
}

/// Where opening stands after `events`.
pub open spec fn state_after(events: Seq<OpenEvent<Seq<char>>>) -> Opening<Seq<char>>
    decreases events.len(),
{
    if events.len() == 0 {
        Opening::Enumerating
    } else {
        open_step(state_after(events.drop_last()), events.last()).0
    }
}

/// The state in which event number `i` comes.
pub open spec fn state_at(events: Seq<OpenEvent<Seq<char>>>, i: int) -> Opening<Seq<char>> {
    state_after(events.take(i))
}

/// What event number `i` asks for.
pub open spec fn action_at(events: Seq<OpenEvent<Seq<char>>>, i: int) -> OpenAction<Seq<char>> {
    open_step(state_at(events, i), events[i]).1
}

/// Whether event number `i` brings the mix format `wave`.
pub open spec fn obtains(events: Seq<OpenEvent<Seq<char>>>, i: int, wave: WaveFormat) -> bool {
    state_at(events, i) is Querying && events[i] == OpenEvent::<Seq<char>>::MixFormat(Some(wave))
}

/// Whether event number `i` asks for the mix format to be freed.
pub open spec fn frees(events: Seq<OpenEvent<Seq<char>>>, i: int) -> bool {
    action_at(events, i) is FreeMixFormat
}

spec fn progress(state: Opening<Seq<char>>) -> int {
    match state {
        Opening::Enumerating => 0,
        Opening::Locating => 1,
        Opening::Activating => 2,
        Opening::Querying => 3,
        Opening::Initializing { .. } => 4,
        Opening::Freeing { .. } => 5,
        Opening::Servicing { .. } => 6,
        Opening::Starting { .. } => 7,
        Opening::Finished => 8,
    }
}

proof fn lemma_state_step(events: Seq<OpenEvent<Seq<char>>>, i: int)
    requires
        0 <= i < events.len(),
    ensures
        state_at(events, i + 1) == open_step(state_at(events, i), events[i]).0,
{
    assert(events.take(i + 1).drop_last() =~= events.take(i));
}

proof fn lemma_progress(events: Seq<OpenEvent<Seq<char>>>, i: int, j: int)
    requires
        0 <= i <= j <= events.len(),
    ensures
        progress(state_at(events, i)) <= progress(state_at(events, j)),
    decreases j - i,
{
    if i < j {
        lemma_progress(events, i, j - 1);
        lemma_state_step(events, j - 1);
    }
}

proof fn lemma_entered(events: Seq<OpenEvent<Seq<char>>>, j: int) -> (i: int)
    requires
        0 <= j <= events.len(),
        state_at(events, j) !is Enumerating,
    ensures
        0 <= i < j,
        state_at(events, i) != state_at(events, j),
        open_step(state_at(events, i), events[i]).0 == state_at(events, j),
        state_at(events, i + 1) == state_at(events, j),
    decreases j,
{
    assert(events.take(0) =~= Seq::<OpenEvent<Seq<char>>>::empty());
    assert(j > 0);
    lemma_state_step(events, j - 1);
    if state_at(events, j - 1) == state_at(events, j) {
        lemma_entered(events, j - 1)
    } else {
        j - 1
    }
}

proof fn lemma_freed(events: Seq<OpenEvent<Seq<char>>>, i: int, j: int)
    requires
        0 <= i < j <= events.len(),
        state_at(events, i + 1) is Initializing,
    ensures
        state_at(events, j) is Initializing || exists|k: int|
            i < k < j && #[trigger] frees(events, k),
    decreases j - i,
{
    if i + 1 < j {
        lemma_freed(events, i, j - 1);
        lemma_state_step(events, j - 1);
        if state_at(events, j - 1) is Initializing && state_at(events, j) !is Initializing {
            assert(frees(events, j - 1));
        }
    }
}

/// A mix format that was obtained is freed before opening ends, however it ends.
pub proof fn law_mix_format_is_freed(
    events: Seq<OpenEvent<Seq<char>>>,
    i: int,
    j: int,
    wave: WaveFormat,
)
    requires
        0 <= i < j < events.len(),
        obtains(events, i, wave),
        action_at(events, j) is Opened || action_at(events, j) is Fail,
    ensures
        exists|k: int| i < k < j && #[trigger] frees(events, k),
{
    lemma_state_step(events, i);
    lemma_freed(events, i, j);
}

/// A mix format is freed at most once, and only after it was obtained.
pub proof fn law_mix_format_is_freed_once(events: Seq<OpenEvent<Seq<char>>>, i: int, j: int)
    requires
        0 <= i < j < events.len(),
        frees(events, j),
    ensures
        !frees(events, i),
        exists|k: int, wave: WaveFormat| 0 <= k < j && #[trigger] obtains(events, k, wave),
{
    if frees(events, i) {
        lemma_state_step(events, i);
        lemma_progress(events, i + 1, j);
    }
    let k = lemma_entered(events, j);
    let wave = events[k]->MixFormat_0->0;
    assert(obtains(events, k, wave));
}

/// A loopback is opened only with the stream that its mix format describes.
pub proof fn law_opened_as_described(
    events: Seq<OpenEvent<Seq<char>>>,
    j: int,
    stream: StreamFormat,
)
    requires
        0 <= j < events.len(),
        action_at(events, j) == OpenAction::<Seq<char>>::Opened(stream),
    ensures
        stream.well_formed(),
        exists|i: int, wave: WaveFormat|
            0 <= i < j && #[trigger] obtains(events, i, wave) && wave.reading()
                == Ok::<StreamFormat, Seq<char>>(stream),
{
    let servicing = lemma_entered(events, j);
    let freeing = lemma_entered(events, servicing);
    let initializing = lemma_entered(events, freeing);
    let querying = lemma_entered(events, initializing);
    let wave = events[querying]->MixFormat_0->0;
    assert(obtains(events, querying, wave));
}

/// A loopback that is opened without a failure on the way is opened exactly when its mix
/// format describes a stream; otherwise the reason why it describes none is reported.
pub proof fn law_opening_succeeds(wave: WaveFormat)
    ensures
        ({
            let querying = open_step(
                open_step(
                    open_step(Opening::Enumerating, OpenEvent::Done).0,
                    OpenEvent::Done,
                ).0,
                OpenEvent::Done,
            ).0;
            let freeing = open_step(
                open_step(querying, OpenEvent::MixFormat(Some(wave))).0,
                OpenEvent::Done,
            ).0;
            let (servicing, answer) = open_step(freeing, OpenEvent::Done);
            match wave.reading() {
                Ok(stream) => open_step(open_step(servicing, OpenEvent::Done).0, OpenEvent::Done).1
                    == OpenAction::<Seq<char>>::Opened(stream),
                Err(reason) => answer == OpenAction::Fail(reason),
            }
        }),
{
}

/// A client that cannot be initialized is reported as such, whatever its mix format
/// describes.
pub proof fn law_initialization_failure_comes_first(
    parsed: Result<StreamFormat, Seq<char>>,
    message: Seq<char>,
)
    ensures
        ({
            let initializing = Opening::Initializing { parsed };
            let freeing = open_step(initializing, OpenEvent::Failed(message)).0;
            open_step(freeing, OpenEvent::Done).1 == OpenAction::Fail(
                "WASAPI loopback initialization failed: "@ + message,
            )
        }),
{
}

/// Where nothing fails, opening asks for one step after the other, and the client is
/// initialized shared, for loopback, with a buffer of a fifth of a second and the period
/// of the device.
pub proof fn law_opening_goes_step_by_step(
    wave: WaveFormat,
    parsed: Result<StreamFormat, String>,
    stream: StreamFormat,
    created: (Opening<String>, OpenAction<String>),
    located: (Opening<String>, OpenAction<String>),
    activated: (Opening<String>, OpenAction<String>),
    queried: (Opening<String>, OpenAction<String>),
    initialized: (Opening<String>, OpenAction<String>),
    serviced: (Opening<String>, OpenAction<String>),
    started: (Opening<String>, OpenAction<String>),
)
    requires
        call_ensures(open, (Opening::Enumerating, OpenEvent::Done), created),
        call_ensures(open, (Opening::Locating, OpenEvent::Done), located),
        call_ensures(open, (Opening::Activating, OpenEvent::Done), activated),
        call_ensures(open, (Opening::Querying, OpenEvent::MixFormat(Some(wave))), queried),
        call_ensures(open, (Opening::Initializing { parsed }, OpenEvent::Done), initialized),
        call_ensures(open, (Opening::Servicing { stream }, OpenEvent::Done), serviced),
        call_ensures(open, (Opening::Starting { stream }, OpenEvent::Done), started),
    ensures
        created.0 is Locating && created.1 is LocateEndpoint,
        located.0 is Activating && located.1 is ActivateClient,
        activated.0 is Querying && activated.1 is QueryMixFormat,
        queried.0 is Initializing,
        queried.1 matches OpenAction::InitializeClient(setup) && setup.share_mode == 0
            && setup.stream_flags == 0x20000 && setup.buffer_duration == 2_000_000
            && setup.periodicity == 0,
        initialized.1 is FreeMixFormat,
        initialized.0 matches Opening::Freeing { outcome } && (parsed is Ok <==> outcome is Ok) && (
        parsed is Ok ==> outcome->Ok_0 == parsed->Ok_0) && (parsed is Err ==> outcome->Err_0@
            == parsed->Err_0@),
        serviced.0 matches Opening::Starting { stream: kept } && kept == stream,
        serviced.1 is StartClient,
        started.0 is Finished,
        started.1 matches OpenAction::Opened(opened) && opened == stream,
{
}

/// The mix format is kept as it is read: what opening carries on is what `parse_format`
/// makes of the same format.
pub proof fn law_opening_keeps_what_is_read(
    wave: WaveFormat,
    parsed: Result<StreamFormat, String>,
    step: (Opening<String>, OpenAction<String>),
)
    requires
        call_ensures(parse_format, (&wave,), parsed),
        call_ensures(open, (Opening::Querying, OpenEvent::MixFormat(Some(wave))), step),
    ensures
        step.0 matches Opening::Initializing { parsed: kept } && match parsed {
            Ok(stream) => kept == Ok::<StreamFormat, String>(stream),
            Err(reason) => kept matches Err(text) && text@ == reason@,
        },
{
}

/// Once the mix format is freed, the outcome is acted on: the capture service of a stream
/// is requested, and a reason for failure is reported in its own words.
pub proof fn law_outcome_is_acted_on(
    outcome: Result<StreamFormat, String>,
    step: (Opening<String>, OpenAction<String>),
)
    requires
        call_ensures(open, (Opening::Freeing { outcome }, OpenEvent::Done), step),
    ensures
        match outcome {
            Ok(stream) => {
                &&& step.0 matches Opening::Servicing { stream: kept } && kept == stream
                &&& step.1 is RequestCapture
            },
            Err(reason) => {
                &&& step.0 is Finished
                &&& step.1 matches OpenAction::Fail(text) && text@ == reason@
            },
        },
{
}

/// A failure ends opening with the name of what failed before its own words; that of the
/// initialization is kept until the mix format is freed.
pub proof fn law_failures_are_named(
    state: Opening<String>,
    message: String,
    step: (Opening<String>, OpenAction<String>),
)
    requires
        call_ensures(open, (state, OpenEvent::Failed(message)), step),
    ensures
        state is Enumerating ==> step.0 is Finished && (step.1 matches OpenAction::Fail(text)
            && text@ == "audio device enumerator failed: "@ + message@),
        state is Locating ==> step.0 is Finished && (step.1 matches OpenAction::Fail(text) && text@
            == "default Windows output device is unavailable: "@ + message@),
        state is Activating ==> step.0 is Finished && (step.1 matches OpenAction::Fail(text)
            && text@ == "WASAPI client activation failed: "@ + message@),
        state is Querying ==> step.0 is Finished && (step.1 matches OpenAction::Fail(text) && text@
            == "WASAPI mix format failed: "@ + message@),
        state is Servicing ==> step.0 is Finished && (step.1 matches OpenAction::Fail(text)
            && text@ == "WASAPI capture service failed: "@ + message@),
        state is Starting ==> step.0 is Finished && (step.1 matches OpenAction::Fail(text) && text@
            == "WASAPI loopback start failed: "@ + message@),
        state is Initializing ==> step.1 is FreeMixFormat && (step.0 matches Opening::Freeing {
            outcome: Err(text),
        } && text@ == "WASAPI loopback initialization failed: "@ + message@),
{
}

/// Without a mix format there is nothing to free and nothing to open.
pub proof fn law_missing_mix_format_fails(step: (Opening<String>, OpenAction<String>))
    requires
        call_ensures(open, (Opening::Querying, OpenEvent::MixFormat(None)), step),
    ensures
        step.0 is Finished,
        step.1 matches OpenAction::Fail(text) && text@ == "WASAPI returned a null mix format"@,
{
}

/// Only an event that cannot be an answer is passed over, and it leaves the state as it
/// is; an opening that is over passes over everything.
pub proof fn law_other_events_are_passed_over(
    state: Opening<String>,
    event: OpenEvent<String>,
    step: (Opening<String>, OpenAction<String>),
)
    requires
        call_ensures(open, (state, event), step),
    ensures
        step.1 is Await ==> step.0@ == state@,
        step.1 is Await <==> match state {
            Opening::Querying => event is Done,
            Opening::Freeing { .. } => event !is Done,
            Opening::Finished => true,
            _ => event is MixFormat,
        },
{
}

} // verus!
