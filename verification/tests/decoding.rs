use audio_visualizer::binary32::Binary32;
use audio_visualizer::decode::{
    can_read_packet, decode_mono, decode_sample, sample_size, ChannelSample, MonoFrame,
};
use audio_visualizer::format::{
    parse_format, Guid, SampleFormat, StreamFormat, WaveFormat, KSDATAFORMAT_SUBTYPE_IEEE_FLOAT,
    KSDATAFORMAT_SUBTYPE_PCM,
};
use audio_visualizer::text::decimal;

fn wave(format_tag: u16, bits_per_sample: u16, sub_format: u128) -> WaveFormat {
    WaveFormat {
        format_tag,
        channels: 2,
        samples_per_sec: 48_000,
        block_align: 8,
        bits_per_sample,
        sub_format: guid(sub_format),
    }
}

fn guid(number: u128) -> Guid {
    let guid = windows::core::GUID::from_u128(number);
    Guid { data1: guid.data1, data2: guid.data2, data3: guid.data3, data4: guid.data4 }
}

#[test]
fn identifiers_are_numbered_by_their_fields() {
    let listed = 0x0123_4567_89ab_cdef_fedc_ba98_7654_3210;
    for number in [0, 1, u128::MAX, listed, KSDATAFORMAT_SUBTYPE_PCM] {
        assert_eq!(guid(number).number(), number);
    }
    let known = Guid {
        data1: 3,
        data2: 0,
        data3: 16,
        data4: [0x80, 0, 0, 0xaa, 0, 0x38, 0x9b, 0x71],
    };
    assert_eq!(known.number(), KSDATAFORMAT_SUBTYPE_IEEE_FLOAT);
}

fn stream(channels: usize, block_align: usize, format: SampleFormat) -> StreamFormat {
    StreamFormat { channels, sample_rate: 48_000, block_align, format }
}

fn samples(frame: &MonoFrame) -> Vec<ChannelSample> {
    match frame {
        MonoFrame::Silence => Vec::new(),
        MonoFrame::Mix(samples) => samples.clone(),
    }
}

fn scaled(raw: i32, full_scale: i32) -> ChannelSample {
    ChannelSample::Scaled { raw, full_scale }
}

fn float(value: f32) -> ChannelSample {
    ChannelSample::Float(Binary32 { bits: value.to_bits() })
}

#[test]
fn plain_formats_are_read() {
    assert_eq!(parse_format(&wave(3, 32, 0)).unwrap().format, SampleFormat::Float32);
    assert_eq!(parse_format(&wave(1, 16, 0)).unwrap().format, SampleFormat::Pcm16);
    assert_eq!(parse_format(&wave(1, 24, 0)).unwrap().format, SampleFormat::Pcm24);
    assert_eq!(
        parse_format(&wave(1, 32, 0)).unwrap(),
        stream(2, 8, SampleFormat::Pcm32)
    );
}

#[test]
fn extensible_formats_are_read_like_plain_ones() {
    for bits in [8, 16, 24, 32, 64] {
        let pcm = parse_format(&wave(65_534, bits, KSDATAFORMAT_SUBTYPE_PCM));
        assert_eq!(pcm.ok(), parse_format(&wave(1, bits, 0)).ok());
        let float = parse_format(&wave(65_534, bits, KSDATAFORMAT_SUBTYPE_IEEE_FLOAT));
        assert_eq!(float.ok(), parse_format(&wave(3, bits, 0)).ok());
    }
}

#[test]
fn incomplete_formats_are_refused() {
    let incomplete = "WASAPI mix format is incomplete";
    let complete = wave(3, 32, 0);
    let no_channels = WaveFormat { channels: 0, ..complete };
    let no_blocks = WaveFormat { block_align: 0, ..complete };
    let no_rate = WaveFormat { samples_per_sec: 0, ..complete };
    assert_eq!(parse_format(&no_channels).unwrap_err(), incomplete);
    assert_eq!(parse_format(&no_blocks).unwrap_err(), incomplete);
    assert_eq!(parse_format(&no_rate).unwrap_err(), incomplete);
    assert!(no_channels.is_incomplete() && no_blocks.is_incomplete() && no_rate.is_incomplete());
    assert!(!complete.is_incomplete());
}

#[test]
fn unsupported_formats_are_named() {
    assert_eq!(
        parse_format(&wave(3, 64, 0)).unwrap_err(),
        "unsupported WASAPI format tag 3 (64 bits)"
    );
    assert_eq!(
        parse_format(&wave(65_533, 16, 0)).unwrap_err(),
        "unsupported WASAPI format tag 65533 (16 bits)"
    );
    assert_eq!(
        parse_format(&wave(65_534, 8, KSDATAFORMAT_SUBTYPE_PCM)).unwrap_err(),
        "unsupported extensible WASAPI format (8 bits)"
    );
    assert_eq!(
        parse_format(&wave(65_534, 32, 7)).unwrap_err(),
        "unsupported extensible WASAPI format (32 bits)"
    );
}

#[test]
fn numbers_are_written_in_decimal() {
    for n in [0, 7, 9, 10, 42, 100, 65_534, u32::MAX] {
        assert_eq!(decimal(n), n.to_string());
    }
}

#[test]
fn sixteen_bit_samples_are_scaled() {
    let bytes = [0x34, 0x12, 0x00, 0x80, 0xff, 0xff, 0xff, 0x7f];
    assert_eq!(decode_sample(&bytes, 0, SampleFormat::Pcm16), scaled(0x1234, 32_767));
    assert_eq!(decode_sample(&bytes, 2, SampleFormat::Pcm16), scaled(-32_767, 32_767));
    assert_eq!(decode_sample(&bytes, 4, SampleFormat::Pcm16), scaled(-1, 32_767));
    assert_eq!(decode_sample(&bytes, 6, SampleFormat::Pcm16), scaled(32_767, 32_767));
}

#[test]
fn twenty_four_bit_samples_are_sign_extended() {
    let bytes = [0x56, 0x34, 0x12, 0x00, 0x00, 0x80, 0xff, 0xff, 0xff, 0xff, 0xff, 0x7f];
    assert_eq!(decode_sample(&bytes, 0, SampleFormat::Pcm24), scaled(0x12_3456, 8_388_607));
    assert_eq!(decode_sample(&bytes, 3, SampleFormat::Pcm24), scaled(-8_388_607, 8_388_607));
    assert_eq!(decode_sample(&bytes, 6, SampleFormat::Pcm24), scaled(-1, 8_388_607));
    assert_eq!(decode_sample(&bytes, 9, SampleFormat::Pcm24), scaled(8_388_607, 8_388_607));
}

#[test]
fn thirty_two_bit_samples_are_scaled() {
    let mut bytes = Vec::new();
    for raw in [0x1234_5678, i32::MIN, -1, i32::MAX] {
        bytes.extend_from_slice(&i32::to_le_bytes(raw));
    }
    let read = |index: usize| decode_sample(&bytes, index * 4, SampleFormat::Pcm32);
    assert_eq!(read(0), scaled(0x1234_5678, i32::MAX));
    assert_eq!(read(1), scaled(-i32::MAX, i32::MAX));
    assert_eq!(read(2), scaled(-1, i32::MAX));
    assert_eq!(read(3), scaled(i32::MAX, i32::MAX));
}

#[test]
fn scaled_samples_divide_to_the_clamped_quotient() {
    for raw in [i16::MIN, -32_767, -1, 0, 1, 12_345, i16::MAX] {
        let clamped = (raw as f32 / i16::MAX as f32).clamp(-1.0, 1.0);
        match decode_sample(&raw.to_le_bytes(), 0, SampleFormat::Pcm16) {
            ChannelSample::Scaled { raw, full_scale } => {
                assert_eq!(raw as f32 / full_scale as f32, clamped)
            }
            ChannelSample::Float(_) => panic!("an integer sample was read as a float"),
        }
    }
    for raw in [i32::MIN, -i32::MAX, -1, 0, 1, 123_456_789, i32::MAX] {
        let clamped = (raw as f32 / i32::MAX as f32).clamp(-1.0, 1.0);
        match decode_sample(&raw.to_le_bytes(), 0, SampleFormat::Pcm32) {
            ChannelSample::Scaled { raw, full_scale } => {
                assert_eq!(raw as f32 / full_scale as f32, clamped)
            }
            ChannelSample::Float(_) => panic!("an integer sample was read as a float"),
        }
    }
    for raw in [-8_388_608, -8_388_607, -1, 0, 1, 1_234_567, 8_388_607] {
        let clamped = (raw as f32 / 8_388_607.0).clamp(-1.0, 1.0);
        match decode_sample(&i32::to_le_bytes(raw), 0, SampleFormat::Pcm24) {
            ChannelSample::Scaled { raw, full_scale } => {
                assert_eq!(raw as f32 / full_scale as f32, clamped)
            }
            ChannelSample::Float(_) => panic!("an integer sample was read as a float"),
        }
    }
}

#[test]
fn float_samples_are_clamped_and_made_finite() {
    for value in [0.0, -0.0, 0.5, -0.25, 1.0, -1.0, 1.5, -7.0, f32::MAX, f32::MIN, 1e-40] {
        let read = decode_sample(&f32::to_le_bytes(value), 0, SampleFormat::Float32);
        assert_eq!(read, float(value.clamp(-1.0, 1.0)));
    }
    for value in [f32::NAN, f32::INFINITY, f32::NEG_INFINITY] {
        let read = decode_sample(&f32::to_le_bytes(value), 0, SampleFormat::Float32);
        assert_eq!(read, float(0.0));
    }
}

#[test]
fn packets_are_decoded_frame_by_frame() {
    let bytes = [1, 0, 2, 0, 3, 0, 4, 0, 5, 0, 6, 0];
    let mut output = vec![MonoFrame::Silence];
    decode_mono(&bytes, 3, &stream(2, 4, SampleFormat::Pcm16), &mut output).unwrap();
    assert_eq!(output.len(), 4);
    assert!(matches!(output[0], MonoFrame::Silence));
    assert_eq!(samples(&output[1]), vec![scaled(1, 32_767), scaled(2, 32_767)]);
    assert_eq!(samples(&output[2]), vec![scaled(3, 32_767), scaled(4, 32_767)]);
    assert_eq!(samples(&output[3]), vec![scaled(5, 32_767), scaled(6, 32_767)]);
}

#[test]
fn padding_between_blocks_is_skipped() {
    let bytes = [1, 0, 9, 9, 2, 0, 9, 9];
    let mut output = Vec::new();
    decode_mono(&bytes, 2, &stream(1, 4, SampleFormat::Pcm16), &mut output).unwrap();
    assert_eq!(samples(&output[0]), vec![scaled(1, 32_767)]);
    assert_eq!(samples(&output[1]), vec![scaled(2, 32_767)]);
}

#[test]
fn two_packets_decode_like_their_bytes_together() {
    let bytes: Vec<u8> = (0..24).collect();
    let stereo = stream(2, 4, SampleFormat::Pcm16);
    let mut apart = Vec::new();
    decode_mono(&bytes[..8], 2, &stereo, &mut apart).unwrap();
    decode_mono(&bytes[8..], 4, &stereo, &mut apart).unwrap();
    let mut together = Vec::new();
    decode_mono(&bytes, 6, &stereo, &mut together).unwrap();
    let apart: Vec<_> = apart.iter().map(samples).collect();
    let together: Vec<_> = together.iter().map(samples).collect();
    assert_eq!(apart, together);
}

#[test]
fn short_packets_are_refused_and_change_nothing() {
    let mut output = vec![MonoFrame::Silence];
    let stereo = stream(2, 4, SampleFormat::Pcm16);
    let invalid = "WASAPI packet length is invalid";
    assert_eq!(decode_mono(&[0; 7], 2, &stereo, &mut output).unwrap_err(), invalid);
    assert_eq!(decode_mono(&[0; 7], usize::MAX, &stereo, &mut output).unwrap_err(), invalid);
    let no_share = stream(4, 3, SampleFormat::Pcm16);
    assert_eq!(decode_mono(&[0; 64], 1, &no_share, &mut output).unwrap_err(), invalid);
    assert_eq!(output.len(), 1);
}

#[test]
fn readable_packets_are_told_apart() {
    let packed = stream(2, 4, SampleFormat::Pcm16);
    assert!(can_read_packet(40, 10, &packed));
    assert!(can_read_packet(39, 10, &packed));
    let tight = stream(1, 2, SampleFormat::Float32);
    assert!(!can_read_packet(4, 2, &tight));
    assert!(can_read_packet(6, 2, &tight));
    assert!(can_read_packet(0, 0, &tight));
    assert!(!can_read_packet(0, 0, &stream(0, 4, SampleFormat::Pcm16)));
}

#[test]
fn sample_sizes_are_those_of_the_encodings() {
    assert_eq!(sample_size(SampleFormat::Float32), 4);
    assert_eq!(sample_size(SampleFormat::Pcm16), 2);
    assert_eq!(sample_size(SampleFormat::Pcm24), 3);
    assert_eq!(sample_size(SampleFormat::Pcm32), 4);
}
