//! What a mix format says about the bytes of a stream.

use crate::text::{decimal, joined};
use vstd::prelude::*;

verus! {

/// The tag of a format whose samples are integers.
pub const WAVE_FORMAT_PCM: u16 = 1;

/// The tag of a format whose samples are single-precision numbers.
pub const WAVE_FORMAT_IEEE_FLOAT: u16 = 3;

/// The tag of a format that names its encoding by a sub-format.
pub const WAVE_FORMAT_EXTENSIBLE: u16 = 65_534;

/// The sub-format of integer samples.
pub const KSDATAFORMAT_SUBTYPE_PCM: u128 = 0x00000001_0000_0010_8000_00aa00389b71;

/// The sub-format of single-precision samples.
pub const KSDATAFORMAT_SUBTYPE_IEEE_FLOAT: u128 = 0x00000003_0000_0010_8000_00aa00389b71;

/// A globally unique identifier, in the fields in which a format holds it.
#[derive(Clone, Copy, Debug, PartialEq, Eq)]
pub struct Guid {
    pub data1: u32,
    pub data2: u16,
    pub data3: u16,
    pub data4: [u8; 8],
}

/// The number that `bytes` are, the highest byte first.
pub open spec fn big_endian(bytes: Seq<u8>) -> nat
    decreases bytes.len(),
{
    if bytes.len() == 0 {
        0
    } else {
        256 * big_endian(bytes.drop_last()) + bytes.last() as nat
    }
}

impl Guid {
    /// The identifier as one number: its fields one behind the other.
    pub open spec fn as_number(self) -> nat {
        (self.data1 as nat) * 0x1_0000_0000_0000_0000_0000_0000 + (self.data2 as nat)
            * 0x1_0000_0000_0000_0000_0000 + (self.data3 as nat) * 0x1_0000_0000_0000_0000
            + big_endian(self.data4@)
    }

    /// The identifier as one number.
    pub fn number(&self) -> (number: u128)
        ensures
            number == self.as_number(),
    {
        let high: u128 = 0x100_0000 * (self.data4[0] as u128) + 0x1_0000 * (self.data4[1] as u128)
            + 0x100 * (self.data4[2] as u128) + self.data4[3] as u128;
        let low: u128 = 0x100_0000 * (self.data4[4] as u128) + 0x1_0000 * (self.data4[5] as u128)
            + 0x100 * (self.data4[6] as u128) + self.data4[7] as u128;
        let tail: u128 = 0x1_0000_0000 * high + low;
        assert(tail == big_endian(self.data4@)) by {
            reveal_with_fuel(big_endian, 9);
        }
        (self.data1 as u128) * 0x1_0000_0000_0000_0000_0000_0000 + (self.data2 as u128)
            * 0x1_0000_0000_0000_0000_0000 + (self.data3 as u128) * 0x1_0000_0000_0000_0000 + tail
    }
}

/// How one sample of one channel is encoded; all encodings are little-endian.
#[derive(Clone, Copy, Debug, PartialEq, Eq, Structural)]
pub enum SampleFormat {
    Float32,
    Pcm16,
    Pcm24,
    Pcm32,
}

/// The fields of a mix format that decide how its stream is read.
///
/// `sub_format` counts only where the tag is `WAVE_FORMAT_EXTENSIBLE`.
#[derive(Clone, Copy, Debug, PartialEq, Eq)]
pub struct WaveFormat {
    pub format_tag: u16,
    pub channels: u16,
    pub samples_per_sec: u32,
    pub block_align: u16,
    pub bits_per_sample: u16,
    pub sub_format: Guid,
}

/// A stream that can be decoded.
#[derive(Clone, Copy, Debug, PartialEq, Eq, Structural)]
pub struct StreamFormat {
    pub channels: usize,
    pub sample_rate: u32,
    pub block_align: usize,
    pub format: SampleFormat,
}

impl StreamFormat {
    /// What every parsed format keeps: nothing is counted in zeros.
    pub open spec fn well_formed(self) -> bool {
        &&& self.channels > 0
        &&& self.sample_rate > 0
        &&& self.block_align > 0
    }
}

impl WaveFormat {
    /// Whether a count that must be positive is missing.
    pub open spec fn incomplete(self) -> bool {
        self.channels == 0 || self.block_align == 0 || self.samples_per_sec == 0
    }

    /// Tells whether a count that must be positive is missing.
    pub fn is_incomplete(&self) -> (incomplete: bool)
        ensures
            incomplete == self.incomplete(),
    {
        self.channels == 0 || self.block_align == 0 || self.samples_per_sec == 0
    }

    /// Whether the samples are single-precision numbers, by tag or by sub-format.
    pub open spec fn holds_floats(self) -> bool {
        ||| self.format_tag == WAVE_FORMAT_IEEE_FLOAT
        ||| self.format_tag == WAVE_FORMAT_EXTENSIBLE && self.sub_format.as_number()
            == KSDATAFORMAT_SUBTYPE_IEEE_FLOAT
    }

    /// Whether the samples are integers, by tag or by sub-format.
    pub open spec fn holds_integers(self) -> bool {
        ||| self.format_tag == WAVE_FORMAT_PCM
        ||| self.format_tag == WAVE_FORMAT_EXTENSIBLE && self.sub_format.as_number()
            == KSDATAFORMAT_SUBTYPE_PCM
    }

    /// The encoding of one sample, if it is one that can be decoded.
    pub open spec fn encoding(self) -> Option<SampleFormat> {
        if self.holds_floats() && self.bits_per_sample == 32 {
            Some(SampleFormat::Float32)
        } else if self.holds_integers() && self.bits_per_sample == 16 {
            Some(SampleFormat::Pcm16)
        } else if self.holds_integers() && self.bits_per_sample == 24 {
            Some(SampleFormat::Pcm24)
        } else if self.holds_integers() && self.bits_per_sample == 32 {
            Some(SampleFormat::Pcm32)
        } else {
            None
        }
    }

    /// What is reported about a complete format without a known encoding.
    pub open spec fn unsupported_text(self) -> Seq<char> {
        if self.format_tag == WAVE_FORMAT_EXTENSIBLE {
            "unsupported extensible WASAPI format ("@ + decimal_bits(self)
        } else {
            "unsupported WASAPI format tag "@ + crate::text::decimal_text(self.format_tag as nat)
                + " ("@ + decimal_bits(self)
        }
    }

    /// The stream that a complete format with encoding `format` describes.
    pub open spec fn stream(self, format: SampleFormat) -> StreamFormat {
        StreamFormat {
            channels: self.channels as usize,
            sample_rate: self.samples_per_sec,
            block_align: self.block_align as usize,
            format,
        }
    }

    /// What the format is read as: a stream, or the reason why there is none.
    pub open spec fn reading(self) -> Result<StreamFormat, Seq<char>> {
        if self.incomplete() {
            Err("WASAPI mix format is incomplete"@)
        } else {
            match self.encoding() {
                Some(format) => Ok(self.stream(format)),
                None => Err(self.unsupported_text()),
            }
        }
    }
}

/// The part of a message that gives the sample size.
pub open spec fn decimal_bits(wave: WaveFormat) -> Seq<char> {
    crate::text::decimal_text(wave.bits_per_sample as nat) + " bits)"@
}

/// Reads how the stream of a mix format is encoded.
pub fn parse_format(wave: &WaveFormat) -> (parsed: Result<StreamFormat, String>)
    ensures
        crate::text::text_of(parsed) == wave.reading(),
        parsed matches Ok(stream) ==> stream.well_formed(),
{
    if wave.is_incomplete() {
        return Err("WASAPI mix format is incomplete".to_owned());
    }
    let extensible = wave.format_tag == WAVE_FORMAT_EXTENSIBLE;
    let sub_format: u128 = wave.sub_format.number();
    let floats = wave.format_tag == WAVE_FORMAT_IEEE_FLOAT || (extensible && sub_format
        == KSDATAFORMAT_SUBTYPE_IEEE_FLOAT);
    let integers = wave.format_tag == WAVE_FORMAT_PCM || (extensible && sub_format
        == KSDATAFORMAT_SUBTYPE_PCM);
    let format = if floats && wave.bits_per_sample == 32 {
        SampleFormat::Float32
    } else if integers && wave.bits_per_sample == 16 {
        SampleFormat::Pcm16
    } else if integers && wave.bits_per_sample == 24 {
        SampleFormat::Pcm24
    } else if integers && wave.bits_per_sample == 32 {
        SampleFormat::Pcm32
    } else {
        return Err(unsupported_message(wave));
    };
    Ok(
        StreamFormat {
            channels: wave.channels as usize,
            sample_rate: wave.samples_per_sec,
            block_align: wave.block_align as usize,
            format,
        },
    )
}

fn unsupported_message(wave: &WaveFormat) -> (message: String)
    ensures
        message@ == wave.unsupported_text(),
{
    let bits = decimal(wave.bits_per_sample as u32).concat(" bits)");
    if wave.format_tag == WAVE_FORMAT_EXTENSIBLE {
        joined("unsupported extensible WASAPI format (", bits.as_str())
    } else {
        let tag = joined(
            "unsupported WASAPI format tag ",
            decimal(wave.format_tag as u32).as_str(),
        );
        let message = tag.concat(" (").concat(bits.as_str());
        assert(message@ =~= wave.unsupported_text());
        message
    }
}

/// A tag and the sub-format that means the same are read alike: replacing a plain tag by
/// the extensible tag with the matching sub-format leaves the stream, or that there is
/// none, as it is.
pub proof fn law_extensible_agrees_with_plain(plain: WaveFormat, extensible: WaveFormat)
    requires
        extensible.format_tag == WAVE_FORMAT_EXTENSIBLE,
        plain.format_tag == WAVE_FORMAT_PCM && extensible.sub_format.as_number()
            == KSDATAFORMAT_SUBTYPE_PCM
            || plain.format_tag == WAVE_FORMAT_IEEE_FLOAT && extensible.sub_format.as_number()
            == KSDATAFORMAT_SUBTYPE_IEEE_FLOAT,
        extensible.channels == plain.channels,
        extensible.samples_per_sec == plain.samples_per_sec,
        extensible.block_align == plain.block_align,
        extensible.bits_per_sample == plain.bits_per_sample,
    ensures
        plain.reading() is Ok <==> extensible.reading() is Ok,
        plain.reading() is Ok ==> extensible.reading() == plain.reading(),
{
}

proof fn lemma_big_endian_injective(a: Seq<u8>, b: Seq<u8>)
    requires
        a.len() == b.len(),
        big_endian(a) == big_endian(b),
    ensures
        a == b,
    decreases a.len(),
{
    if a.len() > 0 {
        lemma_big_endian_injective(a.drop_last(), b.drop_last());
        assert(a =~= a.drop_last().push(a.last()));
        assert(b =~= b.drop_last().push(b.last()));
    } else {
        assert(a =~= b);
    }
}

proof fn lemma_big_endian_bound(bytes: Seq<u8>)
    requires
        bytes.len() == 8,
    ensures
        big_endian(bytes) < 0x1_0000_0000_0000_0000,
{
    reveal_with_fuel(big_endian, 9);
}

/// Two identifiers are the same exactly when their numbers are.
pub proof fn law_guid_number_identifies(a: Guid, b: Guid)
    ensures
        a.as_number() == b.as_number() <==> {
            &&& a.data1 == b.data1
            &&& a.data2 == b.data2
            &&& a.data3 == b.data3
            &&& a.data4@ == b.data4@
        },
{
    lemma_big_endian_bound(a.data4@);
    lemma_big_endian_bound(b.data4@);
    if a.as_number() == b.as_number() {
        assert(big_endian(a.data4@) == big_endian(b.data4@));
        lemma_big_endian_injective(a.data4@, b.data4@);
    }
}

/// The number of an identifier holds its fields one behind the other, each at its place:
/// the first field on top, the eight bytes at the bottom, the first of them on top.
pub proof fn law_guid_number_holds_the_fields(guid: &Guid, number: u128)
    requires
        call_ensures(Guid::number, (guid,), number),
    ensures
        number == guid.data1 * 0x1_0000_0000_0000_0000_0000_0000 + guid.data2
            * 0x1_0000_0000_0000_0000_0000 + guid.data3 * 0x1_0000_0000_0000_0000 + guid.data4@[0]
            * 0x100_0000_0000_0000 + guid.data4@[1] * 0x1_0000_0000_0000 + guid.data4@[2]
            * 0x100_0000_0000 + guid.data4@[3] * 0x1_0000_0000 + guid.data4@[4] * 0x100_0000
            + guid.data4@[5] * 0x1_0000 + guid.data4@[6] * 0x100 + guid.data4@[7],
{
    reveal_with_fuel(big_endian, 9);
}

/// A format is read exactly where it is complete and one of four encodings: numbers of 32
/// bits, or integers of 16, 24 or 32, each named by its tag or by its sub-format. The
/// stream has the counts of the format.
pub proof fn law_formats_are_read(
    wave: &WaveFormat,
    sub_format: u128,
    parsed: Result<StreamFormat, String>,
)
    requires
        call_ensures(Guid::number, (&wave.sub_format,), sub_format),
        call_ensures(parse_format, (wave,), parsed),
    ensures
        ({
            let floats = wave.format_tag == 3 || wave.format_tag == 65534 && sub_format
                == 0x00000003_0000_0010_8000_00aa00389b71;
            let integers = wave.format_tag == 1 || wave.format_tag == 65534 && sub_format
                == 0x00000001_0000_0010_8000_00aa00389b71;
            let bits = wave.bits_per_sample;
            &&& parsed is Ok <==> {
                &&& wave.channels != 0 && wave.block_align != 0 && wave.samples_per_sec != 0
                &&& floats && bits == 32 || integers && (bits == 16 || bits == 24 || bits == 32)
            }
            &&& parsed matches Ok(stream) ==> {
                &&& stream.channels == wave.channels
                &&& stream.sample_rate == wave.samples_per_sec
                &&& stream.block_align == wave.block_align
                &&& stream.format is Float32 <==> floats
                &&& stream.format is Pcm16 <==> integers && bits == 16
                &&& stream.format is Pcm24 <==> integers && bits == 24
                &&& stream.format is Pcm32 <==> integers && bits == 32
            }
        }),
{
}

/// A format that is not read is refused for its counts first; then its sample size is
/// given, and its tag where it has no sub-format.
pub proof fn law_unreadable_formats_are_described(
    wave: &WaveFormat,
    parsed: Result<StreamFormat, String>,
    tag: String,
    bits: String,
    incomplete: bool,
)
    requires
        call_ensures(parse_format, (wave,), parsed),
        call_ensures(decimal, (wave.format_tag as u32,), tag),
        call_ensures(decimal, (wave.bits_per_sample as u32,), bits),
        call_ensures(WaveFormat::is_incomplete, (wave,), incomplete),
    ensures
        incomplete <==> wave.channels == 0 || wave.block_align == 0 || wave.samples_per_sec == 0,
        incomplete ==> (parsed matches Err(text) && text@ == "WASAPI mix format is incomplete"@),
        parsed matches Err(text) ==> {
            ||| incomplete
            ||| wave.format_tag == 65534 && text@ == "unsupported extensible WASAPI format ("@
                + bits@ + " bits)"@
            ||| wave.format_tag != 65534 && text@ == "unsupported WASAPI format tag "@ + tag@
                + " ("@ + bits@ + " bits)"@
        },
{
    if parsed is Err && !incomplete {
        let text = parsed->Err_0;
        if wave.format_tag == 65534 {
            assert(text@ =~= "unsupported extensible WASAPI format ("@ + bits@ + " bits)"@);
        } else {
            assert(text@ =~= "unsupported WASAPI format tag "@ + tag@ + " ("@ + bits@
                + " bits)"@);
        }
    }
}

} // verus!
