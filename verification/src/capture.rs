//! Collecting the packets of one capture.
//!
//! Collecting is a machine: it asks for one action at a time, and moves on with the event
//! that tells how the action went. The first action is to query the size of the next
//! packet.

use crate::analysis::ANALYSIS_SAMPLES;
use crate::decode::{can_read_packet, decode_mono, ChannelSample, MonoFrame};
use crate::format::StreamFormat;
use crate::text::joined;
use vstd::prelude::*;

verus! {

/// The flag of a packet whose bytes are to be taken for silence.
pub const AUDCLNT_BUFFERFLAGS_SILENT: u32 = 2;

/// What is awaited.
#[derive(Clone, Copy, Debug, PartialEq, Eq, Structural)]
pub enum Phase {
    /// The size of the next packet.
    Sizing,
    /// The packet.
    Reading,
    /// The release of the packet.
    Releasing,
    /// Nothing: collecting is over.
    Finished,
}

/// Where collecting stands.
#[derive(Debug)]
pub struct Collector {
    pub phase: Phase,
    pub samples: Vec<MonoFrame>,
}

/// What is said of where collecting stands.
#[verifier::ext_equal]
pub struct Collected {
    pub phase: Phase,
    /// What the frames collected so far are made of.
    pub frames: Seq<Option<Seq<ChannelSample>>>,
}

impl View for Collector {
    type V = Collected;

    open spec fn view(&self) -> Collected {
        Collected { phase: self.phase, frames: crate::decode::contents(self.samples@) }
    }
}

/// How the last action went.
#[derive(Debug)]
pub enum CaptureEvent<'a> {
    /// The next packet has so many frames; with none there is no packet.
    PacketSize(u32),
    /// A packet was read: its bytes, if there are any, its frames and its flags.
    Packet { data: Option<&'a [u8]>, frames: u32, flags: u32 },
    /// The action is done.
    Done,
    /// The action failed.
    Failed(String),
}

/// What is to be done next.
#[derive(Debug)]
pub enum CaptureAction {
    QueryPacketSize,
    ReadPacket,
    ReleasePacket { frames: u32 },
    /// Collecting is over: these frames are to be analysed.
    Analyze(Vec<MonoFrame>),
    /// The capture failed.
    Fail(String),
    /// The event did not answer the last action, which still stands.
    Await,
}

/// Whether a packet is flagged as silent.
pub open spec fn flagged_silent(flags: u32) -> bool {
    flags & AUDCLNT_BUFFERFLAGS_SILENT != 0
}

/// Whether a packet brings sound: it has bytes and is not flagged as silent.
pub open spec fn sounds(data: Option<&[u8]>, flags: u32) -> bool {
    data is Some && !flagged_silent(flags)
}

/// What the frames of a packet are made of.
pub open spec fn packet_frames(
    stream: StreamFormat,
    data: Option<&[u8]>,
    frames: u32,
    flags: u32,
) -> Seq<Option<Seq<ChannelSample>>> {
    if sounds(data, flags) {
        crate::decode::decoded(data->0@, frames as nat, stream)
    } else {
        Seq::new(frames as nat, |i: int| None)
    }
}

/// Whether a packet is refused.
pub open spec fn packet_refused(
    stream: StreamFormat,
    data: Option<&[u8]>,
    frames: u32,
    flags: u32,
) -> bool {
    sounds(data, flags) && crate::decode::packet_invalid(data->0@.len(), frames as nat, stream)
}

/// Whether an event can be taken: a packet that sounds holds all its samples, or is
/// refused.
pub open spec fn acceptable(stream: StreamFormat, event: CaptureEvent) -> bool {
    match event {
        CaptureEvent::Packet { data, frames, flags } => sounds(data, flags)
            ==> crate::decode::packet_readable(data->0@.len(), frames as nat, stream),
        _ => true,
    }
}

/// How many frames are kept for the analysis.
pub open spec fn kept() -> nat {
    (ANALYSIS_SAMPLES * 2) as nat
}

/// Where collecting stands when it is over.
pub open spec fn finished() -> Collected {
    Collected { phase: Phase::Finished, frames: Seq::empty() }
}

/// Where an event leads.
pub open spec fn next_state(
    stream: StreamFormat,
    state: Collected,
    event: CaptureEvent,
) -> Collected {
    match (state.phase, event) {
        (Phase::Sizing, CaptureEvent::PacketSize(size)) => if size == 0 {
            finished()
        } else {
            Collected { phase: Phase::Reading, ..state }
        },
        (Phase::Reading, CaptureEvent::Packet { data, frames, flags }) => if packet_refused(
            stream,
            data,
            frames,
            flags,
        ) {
            finished()
        } else {
            Collected {
                phase: Phase::Releasing,
                frames: state.frames + packet_frames(stream, data, frames, flags),
            }
        },
        (Phase::Releasing, CaptureEvent::Done) => Collected { phase: Phase::Sizing, ..state },
        (Phase::Sizing, CaptureEvent::Failed(_)) => finished(),
        (Phase::Reading, CaptureEvent::Failed(_)) => finished(),
        (Phase::Releasing, CaptureEvent::Failed(_)) => finished(),
        _ => state,
    }
}

/// Whether `action` is to fail with `text`.
pub open spec fn fails_with(action: CaptureAction, text: Seq<char>) -> bool {
    action matches CaptureAction::Fail(message) && message@ == text
}

/// Whether `action` is what an event asks for.
pub open spec fn asks(
    stream: StreamFormat,
    state: Collected,
    event: CaptureEvent,
    action: CaptureAction,
) -> bool {
    match (state.phase, event) {
        (Phase::Sizing, CaptureEvent::PacketSize(size)) => if size == 0 {
            action matches CaptureAction::Analyze(frames) && crate::decode::contents(frames@)
                == crate::analysis::newest(state.frames, kept())
        } else {
            action is ReadPacket
        },
        (Phase::Reading, CaptureEvent::Packet { data, frames, flags }) => if packet_refused(
            stream,
            data,
            frames,
            flags,
        ) {
            fails_with(action, "WASAPI packet length is invalid"@)
        } else {
            action == (CaptureAction::ReleasePacket { frames })
        },
        (Phase::Releasing, CaptureEvent::Done) => action is QueryPacketSize,
        (Phase::Sizing, CaptureEvent::Failed(message)) => fails_with(
            action,
            "WASAPI packet query failed: "@ + message@,
        ),
        (Phase::Reading, CaptureEvent::Failed(message)) => fails_with(
            action,
            "WASAPI packet read failed: "@ + message@,
        ),
        (Phase::Releasing, CaptureEvent::Failed(message)) => fails_with(
            action,
            "WASAPI packet release failed: "@ + message@,
        ),
        _ => action is Await,
    }
}

impl Collector {
    /// Starts collecting: there are no frames yet.
    pub fn new() -> (collector: Collector)
        ensures
            collector@ == (Collected { phase: Phase::Sizing, frames: Seq::empty() }),
    {
        let collector = Collector { phase: Phase::Sizing, samples: Vec::new() };
        assert(collector@.frames =~= Seq::empty());
        collector
    }

    fn over() -> (collector: Collector)
        ensures
            collector@ == finished(),
    {
        let collector = Collector { phase: Phase::Finished, samples: Vec::new() };
        assert(collector@.frames =~= Seq::empty());
        collector
    }
}

fn failed(name: &str, message: String) -> (step: (Collector, CaptureAction))
    ensures
        step.0@ == finished(),
        fails_with(step.1, name@ + message@),
{
    (Collector::over(), CaptureAction::Fail(joined(name, message.as_str())))
}

fn push_silence(samples: &mut Vec<MonoFrame>, frames: u32)
    ensures
        crate::decode::contents(final(samples)@) == crate::decode::contents(old(samples)@)
            + Seq::new(frames as nat, |i: int| None::<Seq<ChannelSample>>),
{
    let ghost before = crate::decode::contents(samples@);
    let ghost silence = Seq::new(frames as nat, |i: int| None::<Seq<ChannelSample>>);
    let mut pushed: u32 = 0;
    assert(crate::decode::contents(samples@) =~= before + silence.take(0));
    while pushed < frames
        invariant
            pushed <= frames,
            silence == Seq::new(frames as nat, |i: int| None::<Seq<ChannelSample>>),
            crate::decode::contents(samples@) == before + silence.take(pushed as int),
        decreases frames - pushed,
    {
        let ghost sofar = samples@;
        samples.push(MonoFrame::Silence);
        pushed = pushed + 1;
        assert(crate::decode::contents(samples@) =~= crate::decode::contents(sofar).push(None));
        assert(silence.take(pushed as int) =~= silence.take(pushed - 1).push(None));
        assert(crate::decode::contents(samples@) =~= before + silence.take(pushed as int));
    }
    assert(silence.take(frames as int) =~= silence);
}

/// Keeps the newest frames, as many as two analyses take.
pub fn keep_newest(samples: Vec<MonoFrame>) -> (newest_samples: Vec<MonoFrame>)
    ensures
        newest_samples@ == crate::analysis::newest(samples@, kept()),
{
    let mut samples = samples;
    if samples.len() > ANALYSIS_SAMPLES * 2 {
        let dropped: usize = samples.len() - ANALYSIS_SAMPLES * 2;
        samples.split_off(dropped)
    } else {
        samples
    }
}

/// Tells whether a packet is flagged as silent.
pub fn is_silent(flags: u32) -> (silent: bool)
    ensures
        silent == flagged_silent(flags),
{
    flags & AUDCLNT_BUFFERFLAGS_SILENT != 0
}

/// Tells whether an event can be taken.
pub fn can_take(stream: &StreamFormat, event: &CaptureEvent) -> (acceptable: bool)
    ensures
        acceptable == self::acceptable(*stream, *event),
{
    match event {
        CaptureEvent::Packet { data: Some(bytes), frames, flags } => is_silent(*flags)
            || can_read_packet(bytes.len(), *frames as usize, stream),
        _ => true,
    }
}

/// Moves the collecting on.
pub fn frame(stream: &StreamFormat, state: Collector, event: CaptureEvent) -> (step: (
    Collector,
    CaptureAction,
))
    requires
        state.phase is Reading ==> acceptable(*stream, event),
    ensures
        step.0@ == next_state(*stream, state@, event),
        asks(*stream, state@, event, step.1),
{
    match (state.phase, event) {
        (Phase::Sizing, CaptureEvent::PacketSize(size)) => if size == 0 {
            let frames = keep_newest(state.samples);
            assert(crate::decode::contents(frames@) =~= crate::analysis::newest(
                state@.frames,
                kept(),
            ));
            (Collector::over(), CaptureAction::Analyze(frames))
        } else {
            (Collector { phase: Phase::Reading, samples: state.samples }, CaptureAction::ReadPacket)
        },
        (Phase::Sizing, CaptureEvent::Failed(message)) => failed(
            "WASAPI packet query failed: ",
            message,
        ),
        (Phase::Reading, CaptureEvent::Packet { data, frames, flags }) => {
            let mut samples = state.samples;
            match data {
                Some(bytes) if !is_silent(flags) => {
                    match decode_mono(bytes, frames as usize, stream, &mut samples) {
                        Ok(_) => {},
                        Err(message) => {
                            return (Collector::over(), CaptureAction::Fail(message));
                        },
                    }
                },
                _ => {
                    push_silence(&mut samples, frames);
                },
            }
            (
                Collector { phase: Phase::Releasing, samples },
                CaptureAction::ReleasePacket { frames },
            )
        },
        (Phase::Reading, CaptureEvent::Failed(message)) => failed(
            "WASAPI packet read failed: ",
            message,
        ),
        (Phase::Releasing, CaptureEvent::Done) => (
            Collector { phase: Phase::Sizing, samples: state.samples },
            CaptureAction::QueryPacketSize,
        ),
        (Phase::Releasing, CaptureEvent::Failed(message)) => failed(
            "WASAPI packet release failed: ",
            message,
        ),
        _ => (state, CaptureAction::Await),
    }
}

/// Where collecting stands after `events`.
pub open spec fn state_after(stream: StreamFormat, events: Seq<CaptureEvent>) -> Collected
    decreases events.len(),
{
    if events.len() == 0 {
        Collected { phase: Phase::Sizing, frames: Seq::empty() }
    } else {
        next_state(stream, state_after(stream, events.drop_last()), events.last())
    }
}

/// The state in which event number `i` comes.
pub open spec fn state_at(stream: StreamFormat, events: Seq<CaptureEvent>, i: int) -> Collected {
    state_after(stream, events.take(i))
}

/// Whether event number `i` brings a packet that is asked for.
pub open spec fn takes(stream: StreamFormat, events: Seq<CaptureEvent>, i: int) -> bool {
    state_at(stream, events, i).phase is Reading && events[i] is Packet
}

/// Whether event number `i` tells that a packet was released.
pub open spec fn released(stream: StreamFormat, events: Seq<CaptureEvent>, i: int) -> bool {
    state_at(stream, events, i).phase is Releasing && events[i] is Done
}

/// The frames of all packets that were taken, in the order in which they were.
pub open spec fn heard(stream: StreamFormat, events: Seq<CaptureEvent>) -> Seq<
    Option<Seq<ChannelSample>>,
>
    decreases events.len(),
{
    if events.len() == 0 {
        Seq::empty()
    } else {
        let before = heard(stream, events.drop_last());
        match events.last() {
            CaptureEvent::Packet { data, frames, flags } => if takes(
                stream,
                events,
                events.len() - 1,
            ) {
                before + packet_frames(stream, data, frames, flags)
            } else {
                before
            },
            _ => before,
        }
    }
}

proof fn lemma_state_step(stream: StreamFormat, events: Seq<CaptureEvent>, i: int)
    requires
        0 <= i < events.len(),
    ensures
        state_at(stream, events, i + 1) == next_state(
            stream,
            state_at(stream, events, i),
            events[i],
        ),
{
    assert(events.take(i + 1).drop_last() =~= events.take(i));
}

proof fn lemma_holds_what_was_heard(stream: StreamFormat, events: Seq<CaptureEvent>)
    ensures
        state_after(stream, events).phase !is Finished ==> state_after(stream, events).frames
            == heard(stream, events),
    decreases events.len(),
{
    if events.len() > 0 {
        lemma_holds_what_was_heard(stream, events.drop_last());
        assert(events.take(events.len() - 1) =~= events.drop_last());
    }
}

/// What is analysed is the newest part of all packets of the capture, in order: no frame
/// is lost, doubled or moved on the way.
pub proof fn law_analyses_what_was_heard(
    stream: StreamFormat,
    events: Seq<CaptureEvent>,
    j: int,
    frames: Vec<MonoFrame>,
)
    requires
        0 <= j < events.len(),
        asks(stream, state_at(stream, events, j), events[j], CaptureAction::Analyze(frames)),
    ensures
        crate::decode::contents(frames@) == crate::analysis::newest(
            heard(stream, events.take(j)),
            kept(),
        ),
{
    lemma_holds_what_was_heard(stream, events.take(j));
}

/// Every packet brings as many frames as it says, silent or not.
pub proof fn law_packet_frame_count(
    stream: StreamFormat,
    data: Option<&[u8]>,
    frames: u32,
    flags: u32,
)
    ensures
        packet_frames(stream, data, frames, flags).len() == frames,
{
}

proof fn lemma_released(stream: StreamFormat, events: Seq<CaptureEvent>, i: int, j: int)
    requires
        0 <= i < j <= events.len(),
        state_at(stream, events, i + 1).phase is Releasing || state_at(
            stream,
            events,
            i + 1,
        ).phase is Finished,
    ensures
        ({
            ||| state_at(stream, events, j).phase is Releasing
            ||| state_at(stream, events, j).phase is Finished
            ||| exists|k: int| i < k < j && #[trigger] released(stream, events, k)
        }),
    decreases j - i,
{
    if i + 1 < j {
        lemma_released(stream, events, i, j - 1);
        lemma_state_step(stream, events, j - 1);
        if state_at(stream, events, j - 1).phase is Releasing && state_at(
            stream,
            events,
            j,
        ).phase is Sizing {
            assert(released(stream, events, j - 1));
        }
    }
}

/// A packet that was taken is released before another one is.
pub proof fn law_packets_are_released(
    stream: StreamFormat,
    events: Seq<CaptureEvent>,
    i: int,
    j: int,
)
    requires
        0 <= i < j < events.len(),
        takes(stream, events, i),
        takes(stream, events, j),
    ensures
        exists|k: int| i < k < j && #[trigger] released(stream, events, k),
{
    lemma_state_step(stream, events, i);
    lemma_released(stream, events, i, j);
}

/// Before a capture is analysed, every packet that was taken has been released, the last
/// one too.
pub proof fn law_packets_are_released_before_analysis(
    stream: StreamFormat,
    events: Seq<CaptureEvent>,
    i: int,
    j: int,
    frames: Vec<MonoFrame>,
)
    requires
        0 <= i < j < events.len(),
        takes(stream, events, i),
        asks(stream, state_at(stream, events, j), events[j], CaptureAction::Analyze(frames)),
    ensures
        exists|k: int| i < k < j && #[trigger] released(stream, events, k),
{
    lemma_state_step(stream, events, i);
    lemma_released(stream, events, i, j);
}

/// A packet of a stream whose blocks give each channel the room of a sample, and that
/// comes with the bytes of its frames, is always taken and never refused.
pub proof fn law_roomy_packets_are_taken(
    stream: StreamFormat,
    bytes: &[u8],
    frames: u32,
    flags: u32,
)
    requires
        stream.channels > 0,
        stream.block_align as int / stream.channels as int >= crate::decode::sample_width(
            stream.format,
        ),
        bytes@.len() >= frames * stream.block_align,
    ensures
        acceptable(stream, CaptureEvent::Packet { data: Some(bytes), frames, flags }),
        !packet_refused(stream, Some(bytes), frames, flags),
{
    crate::decode::law_roomy_packets_decode(bytes@.len(), frames as nat, stream);
}

/// A packet of a packed stream that comes with all its bytes is always taken, and never
/// refused.
pub proof fn law_packed_packets_are_taken(
    stream: StreamFormat,
    bytes: &[u8],
    frames: u32,
    flags: u32,
)
    requires
        stream.channels > 0,
        stream.block_align == stream.channels * crate::decode::sample_width(stream.format),
        bytes@.len() == frames * stream.block_align,
    ensures
        acceptable(stream, CaptureEvent::Packet { data: Some(bytes), frames, flags }),
        !packet_refused(stream, Some(bytes), frames, flags),
{
    crate::decode::law_packed_packets_decode(frames as nat, stream);
}

/// Collecting starts with nothing collected, by asking for the size of a packet.
pub proof fn law_collecting_starts_empty(collector: Collector)
    requires
        call_ensures(Collector::new, (), collector),
    ensures
        collector.phase is Sizing,
        collector.samples@.len() == 0,
{
    assert(crate::decode::contents(collector.samples@).len() == 0);
}

/// The silent flag is the second lowest bit of the flags; no other bit counts.
pub proof fn law_silence_is_one_bit(flags: u32, silent: bool)
    requires
        call_ensures(is_silent, (flags,), silent),
    ensures
        silent <==> flags / 2 % 2 == 1,
{
    assert(flags & 2 != 0 <==> flags / 2 % 2 == 1) by (bit_vector);
}

/// A packet is released with exactly as many frames as it brought, which is also by how many
/// the collected frames grow, whether it sounds or is silent, unless it is refused; it is
/// refused exactly where it sounds and either its frames have no byte for each channel or
/// its bytes are too few for its frames.
pub proof fn law_released_as_brought(
    stream: &StreamFormat,
    state: Collector,
    data: Option<&[u8]>,
    frames: u32,
    flags: u32,
    step: (Collector, CaptureAction),
)
    requires
        state.phase is Reading,
        call_ensures(frame, (stream, state, CaptureEvent::Packet { data, frames, flags }), step),
    ensures
        step.1 is Fail <==> flags / 2 % 2 == 0 && (data matches Some(bytes) && (stream.block_align
            < stream.channels || bytes@.len() < frames * stream.block_align && bytes@.len()
            < usize::MAX)),
        step.1 matches CaptureAction::Fail(message) ==> message@
            == "WASAPI packet length is invalid"@ && step.0.phase is Finished,
        step.1 !is Fail ==> ({
            &&& step.1 matches CaptureAction::ReleasePacket { frames: count } && count == frames
            &&& step.0.phase is Releasing
            &&& step.0.samples@.len() == state.samples@.len() + frames
        }),
{
    assert(flags & 2 != 0 <==> flags / 2 % 2 == 1) by (bit_vector);
    assert(step.0@.frames.len() == step.0.samples@.len());
}

/// Taking a packet leaves what was collected before it where it was.
pub proof fn law_packets_add_at_the_end(
    stream: &StreamFormat,
    state: Collector,
    data: Option<&[u8]>,
    frames: u32,
    flags: u32,
    step: (Collector, CaptureAction),
    i: int,
)
    requires
        state.phase is Reading,
        call_ensures(frame, (stream, state, CaptureEvent::Packet { data, frames, flags }), step),
        step.1 is ReleasePacket,
        0 <= i < state.samples@.len(),
    ensures
        step.0.samples@[i]@ == state.samples@[i]@,
{
    assert(step.0@.frames.len() == step.0.samples@.len());
    assert(step.0@.frames[i] == state@.frames[i]);
}

/// A packet without bytes, or with the silent flag, brings silence, whatever its bytes are.
pub proof fn law_silent_packets_bring_silence(
    stream: &StreamFormat,
    state: Collector,
    data: Option<&[u8]>,
    frames: u32,
    flags: u32,
    step: (Collector, CaptureAction),
    i: int,
)
    requires
        state.phase is Reading,
        data is None || flags / 2 % 2 == 1,
        call_ensures(frame, (stream, state, CaptureEvent::Packet { data, frames, flags }), step),
        state.samples@.len() <= i < state.samples@.len() + frames,
    ensures
        step.0.samples@[i] is Silence,
{
    assert(flags & 2 != 0 <==> flags / 2 % 2 == 1) by (bit_vector);
    assert(step.0@.frames.len() == step.0.samples@.len());
    assert(step.0@.frames[i] is None);
}

/// A packet that sounds brings every channel of every frame: what its bytes hold at the
/// place of the channel in the frame is what that channel of the frame is collected as.
pub proof fn law_sounding_packets_bring_every_channel(
    stream: &StreamFormat,
    state: Collector,
    bytes: &[u8],
    frames: u32,
    flags: u32,
    step: (Collector, CaptureAction),
    i: int,
    channel: int,
    place: usize,
    sample: ChannelSample,
)
    requires
        state.phase is Reading,
        flags / 2 % 2 == 0,
        call_ensures(
            frame,
            (stream, state, CaptureEvent::Packet { data: Some(bytes), frames, flags }),
            step,
        ),
        step.1 is ReleasePacket,
        0 <= i < frames,
        0 <= channel < stream.channels,
        place == i * stream.block_align + channel * (stream.block_align as int
            / stream.channels as int),
        call_ensures(crate::decode::decode_sample, (bytes, place, stream.format), sample),
    ensures
        step.0.samples@[state.samples@.len() + i] matches MonoFrame::Mix(samples) && samples@.len()
            == stream.channels && samples@[channel] == sample,
{
    assert(flags & 2 != 0 <==> flags / 2 % 2 == 1) by (bit_vector);
    let at = state.samples@.len() + i;
    assert(step.0@.frames.len() == step.0.samples@.len());
    assert(step.0@.frames[at] == crate::decode::decoded(bytes@, frames as nat, *stream)[i]);
    assert(step.0.samples@[at]@ == step.0@.frames[at]);
}

/// A packet is read exactly where there is one; where there is none, the last two thousand
/// and forty-eight collected frames are analysed, or all where there are fewer.
pub proof fn law_reads_until_there_is_no_packet(
    stream: &StreamFormat,
    state: Collector,
    size: u32,
    step: (Collector, CaptureAction),
)
    requires
        state.phase is Sizing,
        call_ensures(frame, (stream, state, CaptureEvent::PacketSize(size)), step),
    ensures
        size > 0 ==> ({
            &&& step.1 is ReadPacket
            &&& step.0.phase is Reading
            &&& step.0.samples@.len() == state.samples@.len()
            &&& forall|i: int|
                0 <= i < state.samples@.len() ==> (#[trigger] step.0.samples@[i])@
                    == state.samples@[i]@
        }),
        size == 0 ==> step.0.phase is Finished && (step.1 matches CaptureAction::Analyze(analysed)
            && ({
            &&& analysed@.len() == if state.samples@.len() < 2048 {
                state.samples@.len()
            } else {
                2048
            }
            &&& forall|i: int|
                0 <= i < analysed@.len() ==> (#[trigger] analysed@[i])@
                    == state.samples@[state.samples@.len() - analysed@.len() + i]@
        })),
{
    let before = state.samples@;
    if size > 0 {
        assert(step.0@.frames.len() == step.0.samples@.len());
        assert(state@.frames.len() == before.len());
        assert forall|i: int| 0 <= i < before.len() implies (#[trigger] step.0.samples@[i])@
            == before[i]@ by {
            assert(step.0@.frames[i] == state@.frames[i]);
        }
    } else {
        let analysed = step.1->Analyze_0@;
        assert(crate::decode::contents(analysed).len() == analysed.len());
        assert(state@.frames.len() == before.len());
        assert forall|i: int| 0 <= i < analysed.len() implies (#[trigger] analysed[i])@
            == before[before.len() - analysed.len() + i]@ by {
            assert(crate::decode::contents(analysed)[i] == state@.frames[before.len()
                - analysed.len() + i]);
        }
    }
}

/// After a release the next packet is asked for, and what was collected is kept.
pub proof fn law_release_leads_to_the_next_packet(
    stream: &StreamFormat,
    state: Collector,
    step: (Collector, CaptureAction),
)
    requires
        state.phase is Releasing,
        call_ensures(frame, (stream, state, CaptureEvent::Done), step),
    ensures
        step.1 is QueryPacketSize,
        step.0.phase is Sizing,
        step.0.samples@.len() == state.samples@.len(),
        forall|i: int|
            0 <= i < state.samples@.len() ==> (#[trigger] step.0.samples@[i])@
                == state.samples@[i]@,
{
    assert(step.0@.frames.len() == step.0.samples@.len());
    assert(state@.frames.len() == state.samples@.len());
    assert forall|i: int| 0 <= i < state.samples@.len() implies (#[trigger] step.0.samples@[i])@
        == state.samples@[i]@ by {
        assert(step.0@.frames[i] == state@.frames[i]);
    }
}

/// A failure ends the collecting, with nothing left over, and is named after what failed.
pub proof fn law_failures_are_named(
    stream: &StreamFormat,
    state: Collector,
    message: String,
    step: (Collector, CaptureAction),
)
    requires
        state.phase !is Finished,
        call_ensures(frame, (stream, state, CaptureEvent::Failed(message)), step),
    ensures
        step.0.phase is Finished,
        step.0.samples@.len() == 0,
        step.1 matches CaptureAction::Fail(text) && ({
            &&& state.phase is Sizing ==> text@ == "WASAPI packet query failed: "@ + message@
            &&& state.phase is Reading ==> text@ == "WASAPI packet read failed: "@ + message@
            &&& state.phase is Releasing ==> text@ == "WASAPI packet release failed: "@ + message@
        }),
{
    assert(step.0@.frames.len() == step.0.samples@.len());
}

/// An event that does not answer the last action changes nothing, and exactly such an event
/// is answered with waiting.
pub proof fn law_other_events_are_passed_over(
    stream: &StreamFormat,
    state: Collector,
    event: CaptureEvent,
    step: (Collector, CaptureAction),
)
    requires
        call_ensures(frame, (stream, state, event), step),
    ensures
        step.1 is Await <==> !(event is Failed && state.phase !is Finished || event is PacketSize
            && state.phase is Sizing || event is Packet && state.phase is Reading || event is Done
            && state.phase is Releasing),
        step.1 is Await ==> step.0.phase == state.phase && step.0.samples@.len()
            == state.samples@.len() && forall|i: int|
            0 <= i < state.samples@.len() ==> (#[trigger] step.0.samples@[i])@
                == state.samples@[i]@,
{
    assert(step.0@.frames.len() == step.0.samples@.len());
    assert(state@.frames.len() == state.samples@.len());
    if step.1 is Await {
        assert forall|i: int| 0 <= i < state.samples@.len() implies (
        #[trigger] step.0.samples@[i])@ == state.samples@[i]@ by {
            assert(step.0@.frames[i] == state@.frames[i]);
        }
    }
}

/// What is kept is the end of what there is: two thousand and forty-eight frames, or all.
pub proof fn law_the_newest_are_kept(samples: Vec<MonoFrame>, newest_samples: Vec<MonoFrame>)
    requires
        call_ensures(keep_newest, (samples,), newest_samples),
    ensures
        newest_samples@.len() == if samples@.len() < 2048 {
            samples@.len()
        } else {
            2048
        },
        forall|i: int|
            0 <= i < newest_samples@.len() ==> #[trigger] newest_samples@[i]
                == samples@[samples@.len() - newest_samples@.len() + i],
{
}

/// Every event but a sounding packet can be taken, and a sounding packet exactly where it
/// can be read.
pub proof fn law_what_can_be_taken(
    stream: &StreamFormat,
    event: &CaptureEvent,
    readable: bool,
    acceptable: bool,
)
    requires
        call_ensures(can_take, (stream, event), acceptable),
        *event matches CaptureEvent::Packet { data: Some(bytes), frames, .. } ==> call_ensures(
            can_read_packet,
            (bytes.len() as usize, frames as usize, stream),
            readable,
        ),
    ensures
        acceptable == (*event matches CaptureEvent::Packet { data: Some(_), flags, .. } ==> flags
            / 2 % 2 == 1 || readable),
{
    if let CaptureEvent::Packet { data: Some(bytes), frames, flags } = *event {
        assert(flags & 2 != 0 <==> flags / 2 % 2 == 1) by (bit_vector);
    }
}

} // verus!
