//! From the bytes of a packet to the channel samples of its frames.

use crate::binary32::Binary32;
use crate::format::{SampleFormat, StreamFormat};
use vstd::prelude::*;

verus! {

/// One sample of one channel, within full scale.
#[derive(Clone, Copy, Debug, PartialEq, Eq, Structural)]
pub enum ChannelSample {
    /// A single-precision number.
    Float(Binary32),
    /// The quotient of `raw` and `full_scale`.
    Scaled { raw: i32, full_scale: i32 },
}

/// One frame of a stream that is mixed down to one channel.
#[derive(Debug)]
pub enum MonoFrame {
    /// A frame without sound: zero.
    Silence,
    /// The mean of the samples, one of each channel, in channel order.
    Mix(Vec<ChannelSample>),
}

impl View for MonoFrame {
    type V = Option<Seq<ChannelSample>>;

    /// The samples that are mixed; none for a silent frame.
    open spec fn view(&self) -> Option<Seq<ChannelSample>> {
        match self {
            MonoFrame::Silence => None,
            MonoFrame::Mix(samples) => Some(samples@),
        }
    }
}

/// What each frame of `frames` is made of.
pub open spec fn contents(frames: Seq<MonoFrame>) -> Seq<Option<Seq<ChannelSample>>> {
    frames.map_values(|frame: MonoFrame| frame@)
}

/// How many bytes one sample takes.
pub open spec fn sample_width(format: SampleFormat) -> nat {
    match format {
        SampleFormat::Float32 => 4,
        SampleFormat::Pcm16 => 2,
        SampleFormat::Pcm24 => 3,
        SampleFormat::Pcm32 => 4,
    }
}

/// The number that `width` bytes from `offset` on hold, the lowest byte first.
pub open spec fn little_endian(bytes: Seq<u8>, offset: int, width: nat) -> nat
    decreases width,
{
    if width == 0 {
        0
    } else {
        bytes[offset] as nat + 256 * little_endian(bytes, offset + 1, (width - 1) as nat)
    }
}

/// The two's complement reading of `number` where the sign weighs `sign`.
pub open spec fn signed(number: nat, sign: nat) -> int {
    if number < sign {
        number as int
    } else {
        number - 2 * sign
    }
}

/// `raw` against `full_scale`, clamped to minus one.
pub open spec fn scaled(raw: int, full_scale: i32) -> ChannelSample {
    ChannelSample::Scaled {
        raw: (if raw < -full_scale {
            -full_scale
        } else {
            raw
        }) as i32,
        full_scale,
    }
}

/// The sample that starts at `offset`.
pub open spec fn sample_at(bytes: Seq<u8>, offset: int, format: SampleFormat) -> ChannelSample {
    let number = little_endian(bytes, offset, sample_width(format));
    match format {
        SampleFormat::Float32 => ChannelSample::Float(
            Binary32 { bits: number as u32 }.as_sample(),
        ),
        SampleFormat::Pcm16 => scaled(signed(number, 0x8000), 0x7fff),
        SampleFormat::Pcm24 => scaled(signed(number, 0x80_0000), 0x7f_ffff),
        SampleFormat::Pcm32 => scaled(signed(number, 0x8000_0000), 0x7fff_ffff),
    }
}

/// Where the sample of a channel starts in a packet.
pub open spec fn sample_offset(frame: int, channel: int, stream: StreamFormat) -> int {
    frame * stream.block_align + channel * (stream.block_align as int / stream.channels as int)
}

/// The samples of one frame of a packet, in channel order.
pub open spec fn frame_samples(bytes: Seq<u8>, frame: int, stream: StreamFormat) -> Seq<
    ChannelSample,
> {
    Seq::new(
        stream.channels as nat,
        |channel: int| sample_at(bytes, sample_offset(frame, channel, stream), stream.format),
    )
}

/// What a packet of `frames` frames is decoded to.
pub open spec fn decoded(bytes: Seq<u8>, frames: nat, stream: StreamFormat) -> Seq<
    Option<Seq<ChannelSample>>,
> {
    Seq::new(frames, |frame: int| Some(frame_samples(bytes, frame, stream)))
}

/// Whether a packet is refused: a channel has no whole byte, or bytes are missing.
pub open spec fn packet_invalid(length: nat, frames: nat, stream: StreamFormat) -> bool {
    ||| stream.block_align < stream.channels
    ||| length < frames * stream.block_align && length < usize::MAX
}

/// Whether the last sample of the last frame ends within the packet.
pub open spec fn last_sample_fits(length: nat, frames: nat, stream: StreamFormat) -> bool {
    frames > 0 ==> sample_offset(frames - 1, stream.channels - 1, stream) + sample_width(
        stream.format,
    ) <= length
}

/// Whether a packet can be taken: it is refused, or all its samples lie within it.
pub open spec fn packet_readable(length: nat, frames: nat, stream: StreamFormat) -> bool {
    &&& stream.channels > 0
    &&& packet_invalid(length, frames, stream) || last_sample_fits(length, frames, stream)
}

/// How many bytes one sample takes.
pub fn sample_size(format: SampleFormat) -> (size: usize)
    ensures
        size == sample_width(format),
{
    match format {
        SampleFormat::Float32 => 4,
        SampleFormat::Pcm16 => 2,
        SampleFormat::Pcm24 => 3,
        SampleFormat::Pcm32 => 4,
    }
}

fn scale(raw: i32, full_scale: i32) -> (sample: ChannelSample)
    requires
        full_scale > 0,
    ensures
        sample == scaled(raw as int, full_scale),
{
    if raw < -full_scale {
        ChannelSample::Scaled { raw: -full_scale, full_scale }
    } else {
        ChannelSample::Scaled { raw, full_scale }
    }
}

/// Reads the sample that starts at `offset`.
pub fn decode_sample(bytes: &[u8], offset: usize, format: SampleFormat) -> (sample: ChannelSample)
    requires
        offset + sample_width(format) <= bytes@.len(),
    ensures
        sample == sample_at(bytes@, offset as int, format),
{
    proof {
        reveal_with_fuel(little_endian, 5);
    }
    let low: u32 = bytes[offset] as u32 + 256 * (bytes[offset + 1] as u32);
    match format {
        SampleFormat::Float32 => {
            let bits: u32 = low + 65_536 * (bytes[offset + 2] as u32) + 16_777_216 * (bytes[offset
                + 3] as u32);
            ChannelSample::Float(Binary32 { bits }.to_sample())
        },
        SampleFormat::Pcm16 => {
            let raw: i32 = if low < 0x8000 {
                low as i32
            } else {
                low as i32 - 0x1_0000
            };
            scale(raw, 0x7fff)
        },
        SampleFormat::Pcm24 => {
            let number: u32 = low + 65_536 * (bytes[offset + 2] as u32);
            let raw: i32 = if number < 0x80_0000 {
                number as i32
            } else {
                number as i32 - 0x100_0000
            };
            scale(raw, 0x7f_ffff)
        },
        SampleFormat::Pcm32 => {
            let number: u32 = low + 65_536 * (bytes[offset + 2] as u32) + 16_777_216 * (
            bytes[offset + 3] as u32);
            let raw: i32 = if number < 0x8000_0000 {
                number as i32
            } else {
                (number as i64 - 0x1_0000_0000) as i32
            };
            scale(raw, 0x7fff_ffff)
        },
    }
}

proof fn lemma_sample_fits(
    length: nat,
    frame: int,
    channel: int,
    frames: nat,
    stream: StreamFormat,
)
    requires
        stream.channels > 0,
        0 <= frame < frames,
        0 <= channel < stream.channels,
        last_sample_fits(length, frames, stream),
    ensures
        0 <= frame * stream.block_align <= length,
        0 <= channel * (stream.block_align as int / stream.channels as int) <= length,
        sample_offset(frame, channel, stream) + sample_width(stream.format) <= length,
{
    let share = stream.block_align as int / stream.channels as int;
    let align = stream.block_align as int;
    let last = stream.channels - 1;
    assert(0 <= share) by (nonlinear_arith)
        requires
            share == stream.block_align as int / stream.channels as int,
            stream.channels > 0,
            stream.block_align >= 0,
    ;
    assert(0 <= frame * align <= (frames - 1) * align) by (nonlinear_arith)
        requires
            0 <= frame <= frames - 1,
            0 <= align,
    ;
    assert(0 <= channel * share <= last * share) by (nonlinear_arith)
        requires
            0 <= channel <= last,
            0 <= share,
    ;
}

fn decode_frame(bytes: &[u8], frame: usize, frames: usize, stream: &StreamFormat) -> (samples: Vec<
    ChannelSample,
>)
    requires
        stream.channels > 0,
        frame < frames,
        last_sample_fits(bytes@.len(), frames as nat, *stream),
    ensures
        samples@ == frame_samples(bytes@, frame as int, *stream),
{
    let share: usize = stream.block_align / stream.channels;
    let mut samples: Vec<ChannelSample> = Vec::new();
    proof {
        lemma_sample_fits(bytes.len() as nat, frame as int, 0, frames as nat, *stream);
    }
    let start: usize = frame * stream.block_align;
    let mut channel: usize = 0;
    while channel < stream.channels
        invariant
            stream.channels > 0,
            frame < frames,
            last_sample_fits(bytes@.len(), frames as nat, *stream),
            share == stream.block_align as int / stream.channels as int,
            start == frame * stream.block_align,
            channel <= stream.channels,
            samples@ == frame_samples(bytes@, frame as int, *stream).take(channel as int),
        decreases stream.channels - channel,
    {
        proof {
            lemma_sample_fits(
                bytes.len() as nat,
                frame as int,
                channel as int,
                frames as nat,
                *stream,
            );
        }
        let offset: usize = start + channel * share;
        samples.push(decode_sample(bytes, offset, stream.format));
        channel = channel + 1;
        assert(samples@ =~= frame_samples(bytes@, frame as int, *stream).take(channel as int));
    }
    assert(samples@ =~= frame_samples(bytes@, frame as int, *stream));
    samples
}

fn is_packet_invalid(length: usize, frames: usize, stream: &StreamFormat) -> (invalid: bool)
    ensures
        invalid == packet_invalid(length as nat, frames as nat, *stream),
{
    let needed: usize = match frames.checked_mul(stream.block_align) {
        Some(product) => product,
        None => usize::MAX,
    };
    stream.block_align < stream.channels || length < needed
}

/// Decodes a packet of `frames` frames and appends its frames to `output`.
///
/// A refused packet leaves `output` as it was.
pub fn decode_mono(
    bytes: &[u8],
    frames: usize,
    stream: &StreamFormat,
    output: &mut Vec<MonoFrame>,
) -> (result: Result<(), String>)
    requires
        packet_readable(bytes@.len(), frames as nat, *stream),
    ensures
        result is Err <==> packet_invalid(bytes@.len(), frames as nat, *stream),
        result matches Err(message) ==> {
            &&& message@ == "WASAPI packet length is invalid"@
            &&& *final(output) == *old(output)
        },
        result is Ok ==> contents(final(output)@) == contents(old(output)@) + decoded(
            bytes@,
            frames as nat,
            *stream,
        ),
        result is Ok ==> final(output)@.len() == old(output)@.len() + frames,
        result is Ok ==> forall|i: int|
            0 <= i < old(output)@.len() ==> #[trigger] final(output)@[i] == old(output)@[i],
        result is Ok ==> forall|i: int|
            old(output)@.len() <= i < final(output)@.len() ==> (#[trigger] final(output)@[i])@
                == Some(
                Seq::new(
                    stream.channels as nat,
                    |c: int|
                        sample_at(
                            bytes@,
                            (i - old(output)@.len()) * stream.block_align + c * (
                            stream.block_align as int / stream.channels as int),
                            stream.format,
                        ),
                ),
            ),
{
    if is_packet_invalid(bytes.len(), frames, stream) {
        return Err("WASAPI packet length is invalid".to_owned());
    }
    let ghost before = contents(output@);
    let ghost whole = decoded(bytes@, frames as nat, *stream);
    let mut frame: usize = 0;
    assert(contents(output@) =~= before + whole.take(0));
    while frame < frames
        invariant
            stream.channels > 0,
            last_sample_fits(bytes@.len(), frames as nat, *stream),
            frame <= frames,
            whole == decoded(bytes@, frames as nat, *stream),
            contents(output@) == before + whole.take(frame as int),
            output@.len() == old(output)@.len() + frame,
            before == contents(old(output)@),
            forall|i: int|
                0 <= i < old(output)@.len() ==> #[trigger] output@[i] == old(output)@[i],
        decreases frames - frame,
    {
        let samples = decode_frame(bytes, frame, frames, stream);
        let ghost sofar = output@;
        output.push(MonoFrame::Mix(samples));
        frame = frame + 1;
        assert(contents(output@) =~= contents(sofar).push(Some(samples@)));
        assert(whole.take(frame as int) =~= whole.take(frame - 1).push(Some(samples@)));
        assert(contents(output@) =~= before + whole.take(frame as int));
    }
    assert(whole.take(frames as int) =~= whole);
    proof {
        let start = old(output)@.len();
        assert forall|i: int| start <= i < output@.len() implies (#[trigger] output@[i])@ == Some(
            Seq::new(
                stream.channels as nat,
                |c: int|
                    sample_at(
                        bytes@,
                        (i - start) * stream.block_align + c * (stream.block_align as int
                            / stream.channels as int),
                        stream.format,
                    ),
            ),
        ) by {
            assert(contents(output@)[i] == whole[i - start]);
            assert(frame_samples(bytes@, i - start, *stream) =~= Seq::new(
                stream.channels as nat,
                |c: int|
                    sample_at(
                        bytes@,
                        (i - start) * stream.block_align + c * (stream.block_align as int
                            / stream.channels as int),
                        stream.format,
                    ),
            ));
        }
    }
    Ok(())
}

/// Tells whether a packet can be taken by `decode_mono`.
pub fn can_read_packet(length: usize, frames: usize, stream: &StreamFormat) -> (readable: bool)
    ensures
        readable == packet_readable(length as nat, frames as nat, *stream),
{
    if stream.channels == 0 {
        return false;
    }
    if is_packet_invalid(length, frames, stream) {
        return true;
    }
    if frames == 0 {
        return true;
    }
    let share: usize = stream.block_align / stream.channels;
    proof {
        let align = stream.block_align as int;
        let channels = stream.channels as int;
        assert((frames - 1) * align <= 0xffff_ffff_ffff_fffe * 0xffff_ffff_ffff_ffff)
            by (nonlinear_arith)
            requires
                0 <= frames - 1 <= 0xffff_ffff_ffff_fffe,
                0 <= align <= 0xffff_ffff_ffff_ffff,
        ;
        assert(0 <= (frames - 1) * align) by (nonlinear_arith)
            requires
                0 <= frames - 1,
                0 <= align,
        ;
        assert(0 <= (channels - 1) * share <= align) by (nonlinear_arith)
            requires
                share == align / channels,
                channels > 0,
                align >= 0,
        ;
    }
    let last_frame: u128 = (frames as u128 - 1) * stream.block_align as u128;
    let last_channel: u128 = (stream.channels as u128 - 1) * share as u128;
    last_frame + last_channel + sample_size(stream.format) as u128 <= length as u128
}

/// Every decoded sample lies within full scale: a number from minus one to one, or a
/// quotient whose numerator is no larger than its denominator.
pub proof fn law_samples_within_full_scale(bytes: Seq<u8>, offset: int, format: SampleFormat)
    ensures
        match sample_at(bytes, offset, format) {
            ChannelSample::Float(number) => number.finite() && crate::binary32::minus_one().units()
                <= number.units() <= crate::binary32::one().units(),
            ChannelSample::Scaled { raw, full_scale } => 0 < full_scale && -full_scale <= raw
                <= full_scale,
        },
{
    reveal_with_fuel(little_endian, 5);
    let number = little_endian(bytes, offset, sample_width(format));
    crate::binary32::law_sample_in_range(Binary32 { bits: number as u32 });
}

/// A stream whose blocks give each channel the room of a sample is always decodable: a
/// packet with at least the bytes of its frames is readable and is not refused.
pub proof fn law_roomy_packets_decode(length: nat, frames: nat, stream: StreamFormat)
    requires
        stream.channels > 0,
        stream.block_align as int / stream.channels as int >= sample_width(stream.format),
        length >= frames * stream.block_align,
    ensures
        packet_readable(length, frames, stream),
        !packet_invalid(length, frames, stream),
{
    let channels = stream.channels as int;
    let align = stream.block_align as int;
    let share = align / channels;
    assert(channels * share <= align) by (nonlinear_arith)
        requires
            share == align / channels,
            channels > 0,
    ;
    assert(channels <= channels * share) by (nonlinear_arith)
        requires
            channels > 0,
            share >= 1,
    ;
    if frames > 0 {
        assert((frames - 1) * align + (channels - 1) * share + share == frames * align - align
            + channels * share) by (nonlinear_arith);
    }
}

/// A packed stream, whose blocks hold one sample of each channel and nothing else, is
/// always decodable: a packet with all the bytes of its frames is readable and is not
/// refused.
pub proof fn law_packed_packets_decode(frames: nat, stream: StreamFormat)
    requires
        stream.channels > 0,
        stream.block_align == stream.channels * sample_width(stream.format),
    ensures
        packet_readable(frames * stream.block_align as nat, frames, stream),
        !packet_invalid(frames * stream.block_align as nat, frames, stream),
{
    let width = sample_width(stream.format) as int;
    let channels = stream.channels as int;
    let align = stream.block_align as int;
    assert(align / channels == width) by (nonlinear_arith)
        requires
            align == channels * width,
            channels > 0,
    ;
    law_roomy_packets_decode(frames * stream.block_align as nat, frames, stream);
}

proof fn lemma_little_endian_agrees(a: Seq<u8>, i: int, b: Seq<u8>, j: int, width: nat)
    requires
        forall|p: int| i <= p < i + width ==> #[trigger] a[p] == b[p - i + j],
    ensures
        little_endian(a, i, width) == little_endian(b, j, width),
    decreases width,
{
    if width > 0 {
        assert(a[i] == b[i - i + j]);
        lemma_little_endian_agrees(a, i + 1, b, j + 1, (width - 1) as nat);
    }
}

/// How a capture is cut into packets makes no difference: two packets decode to what
/// their bytes, put together, decode to.
pub proof fn law_packets_concatenate(
    first: Seq<u8>,
    first_frames: nat,
    second: Seq<u8>,
    second_frames: nat,
    stream: StreamFormat,
)
    requires
        stream.channels > 0,
        first.len() == first_frames * stream.block_align,
        last_sample_fits(first.len(), first_frames, stream),
        last_sample_fits(second.len(), second_frames, stream),
    ensures
        decoded(first + second, first_frames + second_frames, stream) == decoded(
            first,
            first_frames,
            stream,
        ) + decoded(second, second_frames, stream),
{
    let both = first + second;
    let joint = decoded(both, first_frames + second_frames, stream);
    let parts = decoded(first, first_frames, stream) + decoded(second, second_frames, stream);
    assert forall|frame: int| 0 <= frame < first_frames + second_frames implies joint[frame]
        == parts[frame] by {
        assert forall|channel: int| 0 <= channel < stream.channels implies frame_samples(
            both,
            frame,
            stream,
        )[channel] == (if frame < first_frames {
            frame_samples(first, frame, stream)[channel]
        } else {
            frame_samples(second, frame - first_frames, stream)[channel]
        }) by {
            let width = sample_width(stream.format);
            let offset = sample_offset(frame, channel, stream);
            if frame < first_frames {
                lemma_sample_fits(first.len(), frame, channel, first_frames, stream);
                lemma_little_endian_agrees(both, offset, first, offset, width);
            } else {
                let inner = sample_offset(frame - first_frames, channel, stream);
                assert(frame * stream.block_align == first_frames * stream.block_align + (frame
                    - first_frames) * stream.block_align) by (nonlinear_arith);
                assert(offset == first.len() + inner);
                lemma_sample_fits(
                    second.len(),
                    frame - first_frames,
                    channel,
                    second_frames,
                    stream,
                );
                lemma_little_endian_agrees(both, offset, second, inner, width);
            }
        }
        if frame < first_frames {
            assert(frame_samples(both, frame, stream) =~= frame_samples(first, frame, stream));
        } else {
            assert(frame_samples(both, frame, stream) =~= frame_samples(
                second,
                frame - first_frames,
                stream,
            ));
        }
    }
    assert(joint =~= parts);
}

/// Samples take four bytes as single-precision numbers, and as many as their bits as
/// integers.
pub proof fn law_sample_sizes(format: SampleFormat, size: usize)
    requires
        call_ensures(sample_size, (format,), size),
    ensures
        format is Float32 ==> size == 4,
        format is Pcm16 ==> 8 * size == 16,
        format is Pcm24 ==> 8 * size == 24,
        format is Pcm32 ==> 8 * size == 32,
{
}

/// An integer sample that was written in little-endian two's complement reads back as the
/// integer over the largest one of its size; only the smallest integer, which lies beyond
/// full scale, reads as minus full scale.
pub proof fn law_integers_read_back(
    bytes: &[u8],
    offset: usize,
    format: SampleFormat,
    raw: int,
    sample: ChannelSample,
)
    requires
        format !is Float32,
        call_ensures(decode_sample, (bytes, offset, format), sample),
        format is Pcm16 ==> -0x8000 <= raw < 0x8000 && bytes@[offset as int] + 0x100 * bytes@[offset
            + 1] == if raw < 0 {
            0x1_0000 + raw
        } else {
            raw
        },
        format is Pcm24 ==> -0x80_0000 <= raw < 0x80_0000 && bytes@[offset as int] + 0x100
            * bytes@[offset + 1] + 0x1_0000 * bytes@[offset + 2] == if raw < 0 {
            0x100_0000 + raw
        } else {
            raw
        },
        format is Pcm32 ==> -0x8000_0000 <= raw < 0x8000_0000 && bytes@[offset as int] + 0x100
            * bytes@[offset + 1] + 0x1_0000 * bytes@[offset + 2] + 0x100_0000 * bytes@[offset + 3]
            == if raw < 0 {
            0x1_0000_0000 + raw
        } else {
            raw
        },
    ensures
        sample matches ChannelSample::Scaled { raw: read, full_scale } && {
            &&& format is Pcm16 ==> full_scale == 32_767
            &&& format is Pcm24 ==> full_scale == 8_388_607
            &&& format is Pcm32 ==> full_scale == 2_147_483_647
            &&& raw >= -full_scale ==> read == raw
            &&& raw < -full_scale ==> read == -full_scale
        },
{
    reveal_with_fuel(little_endian, 5);
}

/// A number that was written in little-endian order reads back as itself where it is no
/// larger than one in magnitude; beyond that it reads as one with its sign, and where it is
/// not finite as zero.
pub proof fn law_numbers_read_back(bytes: &[u8], offset: usize, number: u32, sample: ChannelSample)
    requires
        call_ensures(decode_sample, (bytes, offset, SampleFormat::Float32), sample),
        bytes@[offset as int] == number as int % 0x100,
        bytes@[offset + 1] == number as int / 0x100 % 0x100,
        bytes@[offset + 2] == number as int / 0x1_0000 % 0x100,
        bytes@[offset + 3] == number as int / 0x100_0000 % 0x100,
    ensures
        sample matches ChannelSample::Float(read) && read.bits == if number % 0x8000_0000
            >= 0x7f80_0000 {
            0
        } else if number % 0x8000_0000 <= 0x3f80_0000 {
            number
        } else if number < 0x8000_0000 {
            0x3f80_0000
        } else {
            0xbf80_0000u32
        },
{
    reveal_with_fuel(little_endian, 5);
}

/// Every channel is heard, in every encoding: what a packet of a packed stream holds at the
/// place of a channel in a frame is what that channel of that frame is decoded to.
pub proof fn law_every_channel_is_heard(
    bytes: &[u8],
    frames: nat,
    stream: StreamFormat,
    size: usize,
    frame: int,
    channel: int,
    place: usize,
    sample: ChannelSample,
)
    requires
        call_ensures(sample_size, (stream.format,), size),
        stream.channels > 0,
        stream.block_align == stream.channels * size,
        0 <= frame < frames,
        0 <= channel < stream.channels,
        place == (frame * stream.channels + channel) * size,
        call_ensures(decode_sample, (bytes, place, stream.format), sample),
    ensures
        decoded(bytes@, frames, stream).len() == frames,
        decoded(bytes@, frames, stream)[frame] matches Some(samples) && samples.len()
            == stream.channels && samples[channel] == sample,
{
    let channels = stream.channels as int;
    let width = size as int;
    let align = stream.block_align as int;
    assert(align / channels == width) by (nonlinear_arith)
        requires
            align == channels * width,
            channels > 0,
    ;
    assert((frame * channels + channel) * width == frame * align + channel * width)
        by (nonlinear_arith)
        requires
            align == channels * width,
    ;
}

/// Channels do not mix before they are mixed: two packets that differ only in the bytes of
/// one channel of one frame are decoded alike but for that channel of that frame, and to
/// what each of them holds there.
pub proof fn law_channels_are_independent(
    first: &[u8],
    second: &[u8],
    frames: nat,
    stream: StreamFormat,
    size: usize,
    frame: int,
    channel: int,
    place: usize,
    one: ChannelSample,
    other: ChannelSample,
)
    requires
        call_ensures(sample_size, (stream.format,), size),
        stream.channels > 0,
        stream.block_align as int / stream.channels as int >= size,
        first@.len() == second@.len(),
        first@.len() >= frames * stream.block_align,
        0 <= frame < frames,
        0 <= channel < stream.channels,
        place == frame * stream.block_align + channel * (stream.block_align as int
            / stream.channels as int),
        forall|p: int|
            0 <= p < first@.len() && !(place <= p < place + size) ==> #[trigger] first@[p]
                == second@[p],
        call_ensures(decode_sample, (first, place, stream.format), one),
        call_ensures(decode_sample, (second, place, stream.format), other),
    ensures
        decoded(first@, frames, stream)[frame]->0[channel] == one,
        decoded(second@, frames, stream)[frame]->0[channel] == other,
        forall|f: int, c: int|
            0 <= f < frames && 0 <= c < stream.channels && (f != frame || c != channel)
                ==> #[trigger] decoded(first@, frames, stream)[f]->0[c] == decoded(
                second@,
                frames,
                stream,
            )[f]->0[c],
{
    let channels = stream.channels as int;
    let align = stream.block_align as int;
    let share = align / channels;
    law_roomy_packets_decode(first@.len(), frames, stream);
    assert(channels * share <= align) by (nonlinear_arith)
        requires
            share == align / channels,
            channels > 0,
    ;
    assert forall|f: int, c: int|
        0 <= f < frames && 0 <= c < stream.channels && (f != frame || c
            != channel) implies #[trigger] decoded(first@, frames, stream)[f]->0[c] == decoded(
        second@,
        frames,
        stream,
    )[f]->0[c] by {
        let at = sample_offset(f, c, stream);
        lemma_sample_fits(first@.len(), f, c, frames, stream);
        assert(at + share <= place || place + share <= at) by (nonlinear_arith)
            requires
                at == f * align + c * share,
                place == frame * align + channel * share,
                0 <= c < channels,
                0 <= channel < channels,
                channels * share <= align,
                share >= 0,
                f != frame || c != channel,
        ;
        lemma_little_endian_agrees(first@, at, second@, at, sample_width(stream.format));
    }
}

/// A packet can be read exactly where there are channels and where either it is refused, or
/// has no frames, or its last sample ends within it.
pub proof fn law_readable_packets(
    length: usize,
    frames: usize,
    stream: &StreamFormat,
    size: usize,
    readable: bool,
)
    requires
        call_ensures(sample_size, (stream.format,), size),
        call_ensures(can_read_packet, (length, frames, stream), readable),
    ensures
        readable <==> stream.channels > 0 && ({
            ||| stream.block_align < stream.channels
            ||| length < frames * stream.block_align && length < usize::MAX
            ||| frames == 0
            ||| (frames - 1) * stream.block_align + (stream.channels - 1) * (
            stream.block_align as int / stream.channels as int) + size <= length
        }),
{
}

/// Decoding a packet adds its frames behind those that are there, which stay as they are:
/// every channel of every frame is what the packet holds at its place. A packet is refused
/// exactly where its frames have no byte for each channel or its bytes are too few for its
/// frames, and then adds nothing.
pub proof fn law_decoding_adds_every_channel(
    bytes: &[u8],
    frames: usize,
    stream: &StreamFormat,
    output: &mut Vec<MonoFrame>,
    result: Result<(), String>,
    frame: int,
    channel: int,
    place: usize,
    sample: ChannelSample,
)
    requires
        call_ensures(decode_mono, (bytes, frames, stream, output), result),
        0 <= frame < frames,
        0 <= channel < stream.channels,
        place == frame * stream.block_align + channel * (stream.block_align as int
            / stream.channels as int),
        call_ensures(decode_sample, (bytes, place, stream.format), sample),
    ensures
        result is Err <==> stream.block_align < stream.channels || bytes@.len() < frames
            * stream.block_align && bytes@.len() < usize::MAX,
        result matches Err(message) ==> message@ == "WASAPI packet length is invalid"@
            && final(output)@ == old(output)@,
        result is Ok ==> ({
            &&& final(output)@.len() == old(output)@.len() + frames
            &&& forall|i: int|
                0 <= i < old(output)@.len() ==> #[trigger] final(output)@[i] == old(output)@[i]
            &&& final(output)@[old(output)@.len() + frame] matches MonoFrame::Mix(samples)
                && samples@.len() == stream.channels && samples@[channel] == sample
        }),
{
    if result is Ok {
        let at = old(output)@.len() + frame;
        assert(final(output)@[at]@ is Some);
    }
}

/// What was written is decoded: where a packed stream holds an integer at the place of a
/// channel in a frame, that channel of that frame is the integer over full scale, and where
/// it holds a number no larger than one, that number.
pub proof fn law_what_is_written_is_decoded(
    bytes: Seq<u8>,
    frames: nat,
    stream: StreamFormat,
    frame: int,
    channel: int,
    place: int,
    written: u32,
)
    requires
        stream.channels > 0,
        0 <= frame < frames,
        0 <= channel < stream.channels,
        stream.format is Float32 ==> stream.block_align == stream.channels * 4 && place == (frame
            * stream.channels + channel) * 4 && written == bytes[place] + 0x100 * bytes[place + 1]
            + 0x1_0000 * bytes[place + 2] + 0x100_0000 * bytes[place + 3],
        stream.format is Pcm16 ==> stream.block_align == stream.channels * 2 && place == (frame
            * stream.channels + channel) * 2 && written == bytes[place] + 0x100 * bytes[place + 1],
        stream.format is Pcm24 ==> stream.block_align == stream.channels * 3 && place == (frame
            * stream.channels + channel) * 3 && written == bytes[place] + 0x100 * bytes[place + 1]
            + 0x1_0000 * bytes[place + 2],
        stream.format is Pcm32 ==> stream.block_align == stream.channels * 4 && place == (frame
            * stream.channels + channel) * 4 && written == bytes[place] + 0x100 * bytes[place + 1]
            + 0x1_0000 * bytes[place + 2] + 0x100_0000 * bytes[place + 3],
    ensures
        decoded(bytes, frames, stream)[frame] matches Some(samples) && ({
            let sample = samples[channel];
            &&& stream.format is Float32 && written % 0x8000_0000 <= 0x3f80_0000 ==> (sample matches
                ChannelSample::Float(read) && read.bits == written)
            &&& stream.format is Pcm16 && written != 0x8000 ==> (sample matches
                ChannelSample::Scaled { raw, full_scale } && full_scale == 0x7fff && raw == written
                - if written > 0x8000 {
                    0x1_0000
                } else {
                    0int
                })
            &&& stream.format is Pcm24 && written != 0x80_0000 ==> (sample matches
                ChannelSample::Scaled { raw, full_scale } && full_scale == 0x7f_ffff && raw
                == written - if written > 0x80_0000 {
                    0x100_0000
                } else {
                    0int
                })
            &&& stream.format is Pcm32 && written != 0x8000_0000 ==> (sample matches
                ChannelSample::Scaled { raw, full_scale } && full_scale == 0x7fff_ffff && raw
                == written - if written > 0x8000_0000 {
                    0x1_0000_0000
                } else {
                    0int
                })
        }),
{
    reveal_with_fuel(little_endian, 5);
    let channels = stream.channels as int;
    let width = sample_width(stream.format) as int;
    let align = stream.block_align as int;
    assert(align / channels == width) by (nonlinear_arith)
        requires
            align == channels * width,
            channels > 0,
    ;
    assert((frame * channels + channel) * width == frame * align + channel * width)
        by (nonlinear_arith)
        requires
            align == channels * width,
    ;
    assert(place == sample_offset(frame, channel, stream));
}

} // verus!
