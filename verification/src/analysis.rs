//! From samples to an audio frame.
//!
//! The measurements that take arithmetic on single-precision numbers (the root of the
//! mean square, the magnitude of each band) come from outside; what is measured, and
//! what becomes of the measurements, is decided here.

use crate::binary32::{Binary32, ONE_BITS};
use crate::protocol::AudioFrame;
use vstd::prelude::*;
use vstd::slice::slice_subrange;

verus! {

/// How many samples one analysis looks at.
pub const ANALYSIS_SAMPLES: usize = 1024;

/// How many bands a spectrum has.
pub const SPECTRUM_BANDS: usize = 64;

/// How many samples a spectrum takes at least.
pub const SPECTRUM_SAMPLES: usize = 32;

/// The last `count` items of `items`, or all of them where there are fewer.
pub open spec fn newest<T>(items: Seq<T>, count: nat) -> Seq<T> {
    if items.len() > count {
        items.skip(items.len() - count)
    } else {
        items
    }
}

/// The samples that an analysis of `samples` looks at.
pub open spec fn window(samples: Seq<Binary32>) -> Seq<Binary32> {
    newest(samples, ANALYSIS_SAMPLES as nat)
}

/// Whether `peak` is the largest magnitude in a window, leaving out what is not a number.
/// An empty window has the peak zero.
pub open spec fn is_peak(peak: Binary32, window: Seq<Binary32>) -> bool {
    &&& peak.bits == peak.magnitude()
    &&& forall|i: int|
        0 <= i < window.len() && !(#[trigger] window[i]).nan() ==> window[i].magnitude()
            <= peak.bits
    &&& peak.bits == 0 || exists|i: int|
        0 <= i < window.len() && !(#[trigger] window[i]).nan() && window[i].magnitude()
            == peak.bits
}

/// A measurement, clamped to `0.0..=1.0`.
pub open spec fn unit(measured: Binary32) -> Binary32 {
    measured.clamped(crate::binary32::zero(), crate::binary32::one())
}

/// The bands of a spectrum whose magnitudes were measured as `measured`; all zero where
/// the window is too short for a spectrum.
pub open spec fn spectrum(window: Seq<Binary32>, measured: Seq<Binary32>) -> Seq<Binary32> {
    Seq::new(
        SPECTRUM_BANDS as nat,
        |band: int|
            if window.len() >= SPECTRUM_SAMPLES {
                unit(measured[band])
            } else {
                crate::binary32::zero()
            },
    )
}

/// The samples that an analysis of `samples` looks at.
pub fn analysis_window(samples: &[Binary32]) -> (kept: &[Binary32])
    ensures
        kept@ == window(samples@),
{
    if samples.len() > ANALYSIS_SAMPLES {
        slice_subrange(samples, samples.len() - ANALYSIS_SAMPLES, samples.len())
    } else {
        samples
    }
}

/// Tells whether a window is long enough for a spectrum.
pub fn has_spectrum(window: &[Binary32]) -> (long_enough: bool)
    ensures
        long_enough == (window@.len() >= SPECTRUM_SAMPLES),
{
    window.len() >= SPECTRUM_SAMPLES
}

/// Finds the largest magnitude in a window.
pub fn peak_of(window: &[Binary32]) -> (peak: Binary32)
    ensures
        is_peak(peak, window@),
{
    let mut largest: u32 = 0;
    let mut i: usize = 0;
    while i < window.len()
        invariant
            i <= window@.len(),
            is_peak(Binary32 { bits: largest }, window@.take(i as int)),
        decreases window@.len() - i,
    {
        let ghost seen = window@.take(i as int);
        let ghost before = largest;
        let sample = window[i];
        if !sample.is_nan() && sample.magnitude_bits() > largest {
            largest = sample.magnitude_bits();
        }
        i = i + 1;
        proof {
            let now = window@.take(i as int);
            assert(now =~= seen.push(sample));
            if largest == before && before != 0 {
                let k = choose|k: int|
                    0 <= k < seen.len() && !(#[trigger] seen[k]).nan() && seen[k].magnitude()
                        == before;
                assert(now[k] == seen[k]);
            } else if largest != 0 {
                assert(now[i - 1] == sample);
            }
            assert forall|k: int|
                0 <= k < now.len() && !(#[trigger] now[k]).nan() implies now[k].magnitude()
                <= largest by {
                if k < i - 1 {
                    assert(now[k] == seen[k]);
                }
            }
        }
    }
    assert(window@.take(i as int) =~= window@);
    Binary32 { bits: largest }
}

fn to_unit(measured: Binary32) -> (clamped: Binary32)
    ensures
        clamped == unit(measured),
{
    measured.clamp(Binary32 { bits: 0 }, Binary32 { bits: ONE_BITS })
}

/// Puts an audio frame together from the samples, from what was measured in their window
/// (`level` the root of the mean square, `magnitudes` those of the bands), and from the
/// time, if the clock gives one.
pub fn analyze(
    samples: &[Binary32],
    level: Binary32,
    magnitudes: &[Binary32; 64],
    captured_at_unix_ms: Option<u128>,
) -> (frame: AudioFrame)
    ensures
        frame.captured_at_unix_ms == match captured_at_unix_ms {
            Some(millis) => millis,
            None => 0,
        },
        frame.level == if samples@.len() == 0 {
            crate::binary32::zero()
        } else {
            unit(level)
        },
        is_peak(frame.peak, window(samples@)),
        frame.bands@ == spectrum(window(samples@), magnitudes@),
{
    let window = analysis_window(samples);
    let measurable = has_spectrum(window);
    let mut bands: Vec<Binary32> = Vec::new();
    let mut band: usize = 0;
    while band < SPECTRUM_BANDS
        invariant
            band <= SPECTRUM_BANDS,
            measurable == (window@.len() >= SPECTRUM_SAMPLES),
            bands@ == spectrum(window@, magnitudes@).take(band as int),
        decreases SPECTRUM_BANDS - band,
    {
        if measurable {
            bands.push(to_unit(magnitudes[band]));
        } else {
            bands.push(Binary32 { bits: 0 });
        }
        band = band + 1;
        assert(bands@ =~= spectrum(window@, magnitudes@).take(band as int));
    }
    assert(bands@ =~= spectrum(window@, magnitudes@));
    AudioFrame {
        captured_at_unix_ms: match captured_at_unix_ms {
            Some(millis) => millis,
            None => 0,
        },
        level: if window.len() == 0 {
            Binary32 { bits: 0 }
        } else {
            to_unit(level)
        },
        peak: peak_of(window),
        bands,
    }
}

/// Dropping all but the newest items changes nothing for an analysis that looks at fewer:
/// what was dropped is outside its window.
pub proof fn law_window_ignores_old_samples<T>(items: Seq<T>, kept: nat, looked_at: nat)
    requires
        looked_at <= kept,
    ensures
        newest(newest(items, kept), looked_at) == newest(items, looked_at),
{
    assert(newest(newest(items, kept), looked_at) =~= newest(items, looked_at));
}

/// A measurement that is a number is published as a number from zero to one, and one that
/// is in that range already is published unchanged.
pub proof fn law_measurements_within_unit(measured: Binary32)
    requires
        !measured.nan(),
    ensures
        unit(measured).finite(),
        0 <= unit(measured).units() <= crate::binary32::one().units(),
        measured.finite() && 0 <= measured.units() <= crate::binary32::one().units()
            ==> unit(measured) == measured,
{
    crate::binary32::law_rank_orders_values(crate::binary32::zero(), unit(measured));
    crate::binary32::law_rank_orders_values(unit(measured), crate::binary32::one());
    if measured.finite() {
        crate::binary32::law_rank_orders_values(crate::binary32::zero(), measured);
        crate::binary32::law_rank_orders_values(measured, crate::binary32::one());
    }
}

/// A window has one peak only; it is zero for a window of zeros, and no more than one
/// where every sample is a number from minus one to one.
pub proof fn law_peak(peak: Binary32, other: Binary32, window: Seq<Binary32>)
    requires
        is_peak(peak, window),
    ensures
        is_peak(other, window) ==> other == peak,
        (forall|i: int| 0 <= i < window.len() ==> (#[trigger] window[i]).magnitude() == 0)
            ==> peak == crate::binary32::zero(),
        (forall|i: int|
            0 <= i < window.len() ==> (#[trigger] window[i]).finite()
                && crate::binary32::minus_one().units() <= window[i].units()
                <= crate::binary32::one().units()) ==> 0 <= peak.units()
            <= crate::binary32::one().units(),
{
    if peak.bits != 0 {
        let i = choose|i: int|
            0 <= i < window.len() && !(#[trigger] window[i]).nan() && window[i].magnitude()
                == peak.bits;
        if window[i].finite() {
            crate::binary32::law_rank_orders_values(crate::binary32::minus_one(), window[i]);
            crate::binary32::law_rank_orders_values(window[i], crate::binary32::one());
            crate::binary32::law_rank_orders_values(peak, crate::binary32::one());
            crate::binary32::law_rank_orders_values(crate::binary32::zero(), peak);
        }
        if is_peak(other, window) {
            assert(window[i].magnitude() <= other.bits);
        }
    } else {
        crate::binary32::law_rank_orders_values(peak, crate::binary32::one());
    }
    if is_peak(other, window) && other.bits != 0 {
        let i = choose|i: int|
            0 <= i < window.len() && !(#[trigger] window[i]).nan() && window[i].magnitude()
                == other.bits;
        assert(window[i].magnitude() <= peak.bits);
    }
}

/// The samples with the other sign.
pub open spec fn negated(samples: Seq<Binary32>) -> Seq<Binary32> {
    samples.map_values(|sample: Binary32| sample.negated())
}

/// Polarity does not matter for what is decided here: samples with the other sign have a
/// window of the same length with the same peak, and the same measurements make the same
/// spectrum of it.
pub proof fn law_polarity_keeps_peak_and_gates(
    samples: Seq<Binary32>,
    peak: Binary32,
    measured: Seq<Binary32>,
)
    ensures
        window(negated(samples)) == negated(window(samples)),
        negated(samples).len() == samples.len(),
        is_peak(peak, window(negated(samples))) <==> is_peak(peak, window(samples)),
        spectrum(window(negated(samples)), measured) == spectrum(window(samples), measured),
{
    let there = window(samples);
    let back = window(negated(samples));
    assert(back =~= negated(there));
    assert forall|i: int| 0 <= i < there.len() implies (#[trigger] back[i]).magnitude()
        == there[i].magnitude() by {}
    if is_peak(peak, there) {
        lemma_peak_of_magnitudes(peak, there, back);
    }
    if is_peak(peak, back) {
        lemma_peak_of_magnitudes(peak, back, there);
    }
    assert(spectrum(back, measured) =~= spectrum(there, measured));
}

proof fn lemma_peak_of_magnitudes(peak: Binary32, a: Seq<Binary32>, b: Seq<Binary32>)
    requires
        a.len() == b.len(),
        forall|i: int|
            #![trigger a[i]]
            #![trigger b[i]]
            0 <= i < a.len() ==> a[i].magnitude() == b[i].magnitude(),
        is_peak(peak, a),
    ensures
        is_peak(peak, b),
{
    if peak.bits != 0 {
        let i = choose|i: int|
            0 <= i < a.len() && !(#[trigger] a[i]).nan() && a[i].magnitude() == peak.bits;
        assert(!b[i].nan() && b[i].magnitude() == peak.bits);
    }
}

/// The spectrum shows what was measured: from 32 samples on, however many there are, each
/// of the 64 bands is its measurement where that is a number from zero to one, one where it
/// is larger and zero where it is negative; with fewer samples every band is zero.
pub proof fn law_bands_show_the_measurements(
    samples: &[Binary32],
    level: Binary32,
    magnitudes: &[Binary32; 64],
    time: Option<u128>,
    frame: AudioFrame,
    band: int,
)
    requires
        call_ensures(analyze, (samples, level, magnitudes, time), frame),
        0 <= band < 64,
    ensures
        frame.bands@.len() == 64,
        samples@.len() < 32 ==> frame.bands@[band].bits == 0,
        samples@.len() >= 32 ==> ({
            let measured = magnitudes@[band].bits;
            let shown = frame.bands@[band].bits;
            &&& measured <= 0x3f80_0000 ==> shown == measured
            &&& 0x3f80_0000 < measured <= 0x7f80_0000 ==> shown == 0x3f80_0000
            &&& 0x8000_0000 < measured <= 0xff80_0000 ==> shown == 0
            &&& measured == 0x8000_0000 ==> shown == measured
            &&& measured % 0x8000_0000 > 0x7f80_0000 ==> shown == measured
        }),
{
}

/// The level is the measured one where that is a number from zero to one, one where it is
/// larger and zero where it is negative, for any samples at all; without samples it is
/// zero.
pub proof fn law_level_shows_the_measurement(
    samples: &[Binary32],
    level: Binary32,
    magnitudes: &[Binary32; 64],
    time: Option<u128>,
    frame: AudioFrame,
)
    requires
        call_ensures(analyze, (samples, level, magnitudes, time), frame),
    ensures
        samples@.len() == 0 ==> frame.level.bits == 0,
        samples@.len() > 0 ==> ({
            let measured = level.bits;
            let shown = frame.level.bits;
            &&& measured <= 0x3f80_0000 ==> shown == measured
            &&& 0x3f80_0000 < measured <= 0x7f80_0000 ==> shown == 0x3f80_0000
            &&& 0x8000_0000 < measured <= 0xff80_0000 ==> shown == 0
            &&& measured == 0x8000_0000 ==> shown == measured
            &&& measured % 0x8000_0000 > 0x7f80_0000 ==> shown == measured
        }),
{
}

/// The peak is no less than any of the newest 1024 samples in magnitude, and is the
/// magnitude of one of them, or zero; what is not a number is left out, and so is any
/// older sample.
pub proof fn law_peak_is_the_largest(
    samples: &[Binary32],
    level: Binary32,
    magnitudes: &[Binary32; 64],
    time: Option<u128>,
    frame: AudioFrame,
)
    requires
        call_ensures(analyze, (samples, level, magnitudes, time), frame),
    ensures
        frame.peak.bits <= 0x7f80_0000,
        forall|i: int|
            0 <= i < samples@.len() && i >= samples@.len() - 1024 && (#[trigger] samples@[i]).bits
                % 0x8000_0000 <= 0x7f80_0000 ==> samples@[i].bits % 0x8000_0000
                <= frame.peak.bits,
        frame.peak.bits == 0 || exists|i: int|
            0 <= i < samples@.len() && i >= samples@.len() - 1024 && (#[trigger] samples@[i]).bits
                % 0x8000_0000 == frame.peak.bits,
{
    let looked_at = window(samples@);
    let start = if samples@.len() > 1024 {
        samples@.len() - 1024
    } else {
        0
    };
    assert forall|i: int| start <= i < samples@.len() implies #[trigger] samples@[i]
        == looked_at[i - start] by {}
    assert forall|i: int|
        0 <= i < samples@.len() && i >= samples@.len() - 1024 && (#[trigger] samples@[i]).bits
            % 0x8000_0000 <= 0x7f80_0000 implies samples@[i].bits % 0x8000_0000
        <= frame.peak.bits by {
        assert(samples@[i] == looked_at[i - start]);
        assert(!looked_at[i - start].nan());
    }
    if frame.peak.bits != 0 {
        let k = choose|k: int|
            0 <= k < looked_at.len() && !(#[trigger] looked_at[k]).nan() && looked_at[k].magnitude()
                == frame.peak.bits;
        assert(samples@[k + start] == looked_at[k]);
    }
}

/// The time is the clock's, and zero without a clock.
pub proof fn law_time_is_the_clocks(
    samples: &[Binary32],
    level: Binary32,
    magnitudes: &[Binary32; 64],
    time: Option<u128>,
    frame: AudioFrame,
)
    requires
        call_ensures(analyze, (samples, level, magnitudes, time), frame),
    ensures
        time matches Some(millis) ==> frame.captured_at_unix_ms == millis,
        time is None ==> frame.captured_at_unix_ms == 0,
{
}

/// An analysis looks at the end of the samples: at all of them up to 1024, and at exactly
/// the last 1024 beyond; 32 of them are enough for a spectrum.
pub proof fn law_window_is_the_end(samples: &[Binary32], kept: &[Binary32], measurable: bool)
    requires
        call_ensures(analysis_window, (samples,), kept),
        call_ensures(has_spectrum, (kept,), measurable),
    ensures
        samples@.len() <= 1024 ==> kept@ == samples@,
        samples@.len() > 1024 ==> kept@.len() == 1024,
        forall|i: int|
            0 <= i < kept@.len() ==> #[trigger] kept@[i] == samples@[samples@.len() - kept@.len()
                + i],
        measurable <==> samples@.len() >= 32,
{
}

/// The peak that is found is no less than any magnitude in the window, and is one of them,
/// or zero; what is not a number is left out.
pub proof fn law_found_peak_is_the_largest(window: &[Binary32], peak: Binary32)
    requires
        call_ensures(peak_of, (window,), peak),
    ensures
        peak.bits <= 0x7f80_0000,
        forall|i: int|
            0 <= i < window@.len() && (#[trigger] window@[i]).bits % 0x8000_0000 <= 0x7f80_0000
                ==> window@[i].bits % 0x8000_0000 <= peak.bits,
        peak.bits == 0 || exists|i: int|
            0 <= i < window@.len() && (#[trigger] window@[i]).bits % 0x8000_0000 == peak.bits,
{
    assert forall|i: int|
        0 <= i < window@.len() && (#[trigger] window@[i]).bits % 0x8000_0000
            <= 0x7f80_0000 implies window@[i].bits % 0x8000_0000 <= peak.bits by {
        assert(!window@[i].nan());
    }
    if peak.bits != 0 {
        let k = choose|k: int|
            0 <= k < window@.len() && !(#[trigger] window@[k]).nan() && window@[k].magnitude()
                == peak.bits;
        assert(window@[k].bits % 0x8000_0000 == peak.bits);
    }
}

} // verus!
