use audio_visualizer::analysis::{analysis_window, analyze, has_spectrum, peak_of};
use audio_visualizer::binary32::Binary32;

fn number(value: f32) -> Binary32 {
    Binary32 { bits: value.to_bits() }
}

fn numbers(values: &[f32]) -> Vec<Binary32> {
    values.iter().map(|value| number(*value)).collect()
}

fn value(number: Binary32) -> f32 {
    f32::from_bits(number.bits)
}

#[test]
fn patterns_order_like_numbers() {
    let values = [f32::NEG_INFINITY, -3.5, -1.0, -1e-42, 0.0, 1e-42, 0.5, 1.0, 2.0, f32::INFINITY];
    for low in values {
        for high in values {
            if low <= high {
                for x in values {
                    let clamped = number(x).clamp(number(low), number(high));
                    assert_eq!(value(clamped), x.clamp(low, high));
                }
                assert!(number(f32::NAN).clamp(number(low), number(high)).is_nan());
            }
        }
    }
}

#[test]
fn patterns_are_classified() {
    assert!(number(f32::MAX).is_finite());
    assert!(number(-0.0).is_finite());
    assert!(!number(f32::INFINITY).is_finite());
    assert!(!number(f32::INFINITY).is_nan());
    assert!(!number(f32::NAN).is_finite());
    assert!(number(f32::NAN).is_nan());
    assert_eq!(number(-2.5).magnitude_bits(), 2.5_f32.to_bits());
}

#[test]
fn samples_are_made_mixable() {
    assert_eq!(value(number(0.75).to_sample()), 0.75);
    assert_eq!(value(number(-3.0).to_sample()), -1.0);
    assert_eq!(value(number(3.0).to_sample()), 1.0);
    assert_eq!(number(f32::NAN).to_sample().bits, 0);
    assert_eq!(number(f32::NEG_INFINITY).to_sample().bits, 0);
}

#[test]
fn the_window_is_the_newest_samples() {
    let samples: Vec<Binary32> = (0..1500).map(|i| number(i as f32)).collect();
    let window = analysis_window(&samples);
    assert_eq!(window.len(), 1024);
    assert_eq!(value(window[0]), 476.0);
    assert_eq!(value(window[1023]), 1499.0);
    assert_eq!(analysis_window(&samples[..1024]).len(), 1024);
    assert_eq!(analysis_window(&samples[..3]).len(), 3);
    assert!(analysis_window(&[]).is_empty());
}

#[test]
fn dropping_old_samples_keeps_the_window() {
    let samples: Vec<Binary32> = (0..5000).map(|i| number(i as f32)).collect();
    let kept = &samples[5000 - 2048..];
    assert_eq!(analysis_window(kept), analysis_window(&samples));
}

#[test]
fn the_peak_is_the_largest_magnitude() {
    assert_eq!(value(peak_of(&numbers(&[0.25, -0.75, 0.5]))), 0.75);
    assert_eq!(value(peak_of(&numbers(&[0.25, f32::NAN, -0.5]))), 0.5);
    assert_eq!(value(peak_of(&numbers(&[-0.0, 0.0]))), 0.0);
    assert_eq!(value(peak_of(&[])), 0.0);
}

#[test]
fn a_frame_is_put_together() {
    let samples = numbers(&[0.5; 40]);
    let mut magnitudes = [number(0.25); 64];
    magnitudes[0] = number(1.5);
    magnitudes[63] = number(-0.5);
    let frame = analyze(&samples, number(0.5), &magnitudes, Some(1_700_000_000_000));
    assert_eq!(frame.captured_at_unix_ms, 1_700_000_000_000);
    assert_eq!(value(frame.level), 0.5);
    assert_eq!(value(frame.peak), 0.5);
    assert_eq!(frame.bands.len(), 64);
    assert_eq!(value(frame.bands[0]), 1.0);
    assert_eq!(value(frame.bands[1]), 0.25);
    assert_eq!(value(frame.bands[63]), 0.0);
}

#[test]
fn a_short_window_has_no_spectrum() {
    let samples = numbers(&[0.5; 31]);
    assert!(!has_spectrum(&samples));
    assert!(has_spectrum(&numbers(&[0.5; 32])));
    let frame = analyze(&samples, number(7.0), &[number(0.25); 64], None);
    assert_eq!(frame.captured_at_unix_ms, 0);
    assert_eq!(value(frame.level), 1.0);
    assert_eq!(frame.bands, vec![number(0.0); 64]);
}

#[test]
fn no_samples_make_a_silent_frame() {
    let frame = analyze(&[], number(f32::NAN), &[number(1.0); 64], Some(5));
    assert_eq!(frame.level.bits, 0);
    assert_eq!(frame.peak.bits, 0);
    assert_eq!(frame.bands, vec![number(0.0); 64]);
}

#[test]
fn the_frame_looks_at_the_window_only() {
    let mut samples = numbers(&[0.25; 2048]);
    samples[0] = number(0.9);
    samples[1500] = number(-0.5);
    let frame = analyze(&samples, number(0.25), &[number(0.0); 64], None);
    assert_eq!(value(frame.peak), 0.5);
}

#[test]
fn polarity_does_not_change_the_frame() {
    let samples: Vec<Binary32> = (0..1500).map(|i| number((i % 7) as f32 / 8.0)).collect();
    let turned: Vec<Binary32> = (0..1500).map(|i| number(-((i % 7) as f32 / 8.0))).collect();
    let magnitudes = [number(0.5); 64];
    let frame = analyze(&samples, number(0.25), &magnitudes, None);
    let other = analyze(&turned, number(0.25), &magnitudes, None);
    assert_eq!(value(frame.peak), 0.75);
    assert_eq!(frame.peak, other.peak);
    assert_eq!(frame.level, other.level);
    assert_eq!(frame.bands, other.bands);
}
