//! Single-precision numbers as bit patterns.
//!
//! The library decides on single-precision numbers (is it finite, is it larger, is it
//! out of range) without computing with them: a pattern orders like the number that it
//! encodes, which `law_rank_orders_values` states.

use vstd::arithmetic::power2::{lemma2_to64, lemma_pow2_pos, lemma_pow2_unfold, pow2};
use vstd::prelude::*;

verus! {

/// The sign bit: patterns from here on are negative.
pub const SIGN_BIT: u32 = 0x8000_0000;

/// The magnitude of infinity; larger magnitudes are not numbers.
pub const INFINITY_BITS: u32 = 0x7f80_0000;

/// The pattern of `1.0`.
pub const ONE_BITS: u32 = 0x3f80_0000;

/// The pattern of `-1.0`.
pub const MINUS_ONE_BITS: u32 = 0xbf80_0000;

/// A single-precision number, as its bit pattern.
#[derive(Clone, Copy, Debug, PartialEq, Eq, Structural)]
pub struct Binary32 {
    pub bits: u32,
}

/// What a magnitude is worth, in units of the smallest positive number (two to the
/// power -149). It is the number's value for every finite pattern.
pub open spec fn magnitude_units(magnitude: nat) -> nat {
    let exponent = magnitude / 0x80_0000;
    let fraction = magnitude % 0x80_0000;
    if exponent == 0 {
        fraction
    } else {
        (0x80_0000 + fraction) * pow2((exponent - 1) as nat)
    }
}

/// The pattern of zero.
pub open spec fn zero() -> Binary32 {
    Binary32 { bits: 0 }
}

/// The pattern of `1.0`, as a number.
pub open spec fn one() -> Binary32 {
    Binary32 { bits: ONE_BITS }
}

/// The pattern of `-1.0`, as a number.
pub open spec fn minus_one() -> Binary32 {
    Binary32 { bits: MINUS_ONE_BITS }
}

impl Binary32 {
    /// The pattern without its sign.
    pub open spec fn magnitude(self) -> nat {
        if self.bits < SIGN_BIT {
            self.bits as nat
        } else {
            (self.bits - SIGN_BIT) as nat
        }
    }

    /// Whether the pattern is not a number.
    pub open spec fn nan(self) -> bool {
        self.magnitude() > INFINITY_BITS
    }

    /// Whether the pattern is a number other than an infinity.
    pub open spec fn finite(self) -> bool {
        self.magnitude() < INFINITY_BITS
    }

    /// The pattern's place in the order of numbers; both zeros have rank zero.
    pub open spec fn rank(self) -> int {
        if self.bits < SIGN_BIT {
            self.magnitude() as int
        } else {
            -(self.magnitude() as int)
        }
    }

    /// The value of a finite number, in units of two to the power -149.
    pub open spec fn units(self) -> int {
        if self.bits < SIGN_BIT {
            magnitude_units(self.magnitude()) as int
        } else {
            -(magnitude_units(self.magnitude()) as int)
        }
    }

    /// The pattern with the other sign.
    pub open spec fn negated(self) -> Binary32 {
        if self.bits < SIGN_BIT {
            Binary32 { bits: (self.bits + SIGN_BIT) as u32 }
        } else {
            Binary32 { bits: (self.bits - SIGN_BIT) as u32 }
        }
    }

    /// What clamping to `low..=high` gives; what is not a number stays as it is.
    pub open spec fn clamped(self, low: Binary32, high: Binary32) -> Binary32 {
        if self.nan() {
            self
        } else if self.rank() < low.rank() {
            low
        } else if self.rank() > high.rank() {
            high
        } else {
            self
        }
    }

    /// A sample that is safe to mix: within `-1.0..=1.0`, and zero where it is not finite.
    pub open spec fn as_sample(self) -> Binary32 {
        if self.finite() {
            self.clamped(minus_one(), one())
        } else {
            zero()
        }
    }

    /// Drops the sign.
    pub fn magnitude_bits(self) -> (magnitude: u32)
        ensures
            magnitude == self.magnitude(),
    {
        if self.bits < SIGN_BIT {
            self.bits
        } else {
            self.bits - SIGN_BIT
        }
    }

    fn rank_number(self) -> (rank: i64)
        ensures
            rank == self.rank(),
    {
        let magnitude: i64 = self.magnitude_bits() as i64;
        if self.bits < SIGN_BIT {
            magnitude
        } else {
            -magnitude
        }
    }

    /// Tells whether the pattern is not a number.
    pub fn is_nan(self) -> (nan: bool)
        ensures
            nan == self.nan(),
    {
        self.magnitude_bits() > INFINITY_BITS
    }

    /// Tells whether the pattern is a number other than an infinity.
    pub fn is_finite(self) -> (finite: bool)
        ensures
            finite == self.finite(),
    {
        self.magnitude_bits() < INFINITY_BITS
    }

    /// Clamps to `low..=high`.
    pub fn clamp(self, low: Binary32, high: Binary32) -> (clamped: Binary32)
        requires
            !low.nan(),
            !high.nan(),
            low.rank() <= high.rank(),
        ensures
            clamped == self.clamped(low, high),
    {
        if self.is_nan() {
            self
        } else if self.rank_number() < low.rank_number() {
            low
        } else if self.rank_number() > high.rank_number() {
            high
        } else {
            self
        }
    }

    /// Makes a sample safe to mix.
    pub fn to_sample(self) -> (sample: Binary32)
        ensures
            sample == self.as_sample(),
    {
        if self.is_finite() {
            self.clamp(Binary32 { bits: MINUS_ONE_BITS }, Binary32 { bits: ONE_BITS })
        } else {
            Binary32 { bits: 0 }
        }
    }
}

proof fn lemma_magnitude_units_step(m: nat)
    ensures
        magnitude_units(m) < magnitude_units(m + 1),
{
    let e = m / 0x80_0000;
    let f = m % 0x80_0000;
    lemma2_to64();
    if f + 1 < 0x80_0000 {
        assert((m + 1) / 0x80_0000 == e);
        assert((m + 1) % 0x80_0000 == f + 1);
        if e > 0 {
            let p = pow2((e - 1) as nat);
            lemma_pow2_pos((e - 1) as nat);
            assert((0x80_0000 + f) * p < (0x80_0000 + (f + 1)) * p) by (nonlinear_arith)
                requires
                    p > 0,
            ;
        }
    } else {
        assert((m + 1) / 0x80_0000 == e + 1);
        assert((m + 1) % 0x80_0000 == 0);
        assert(((e + 1) - 1) as nat == e);
        assert(magnitude_units(m + 1) == 0x80_0000 * pow2(e));
        if e > 0 {
            let p = pow2((e - 1) as nat);
            lemma_pow2_pos((e - 1) as nat);
            lemma_pow2_unfold(e);
            assert((0x80_0000 + f) * p < 0x80_0000 * (2 * p)) by (nonlinear_arith)
                requires
                    p > 0,
                    f < 0x80_0000,
            ;
            assert(magnitude_units(m) == (0x80_0000 + f) * p);
        }
    }
}

proof fn lemma_magnitude_units_increases(a: nat, b: nat)
    requires
        a < b,
    ensures
        magnitude_units(a) < magnitude_units(b),
    decreases b - a,
{
    lemma_magnitude_units_step((b - 1) as nat);
    if a < b - 1 {
        lemma_magnitude_units_increases(a, (b - 1) as nat);
    }
}

/// Finite patterns order like the numbers that they encode.
pub proof fn law_rank_orders_values(a: Binary32, b: Binary32)
    requires
        a.finite(),
        b.finite(),
    ensures
        a.rank() < b.rank() <==> a.units() < b.units(),
        a.rank() == b.rank() <==> a.units() == b.units(),
{
    let ma = a.magnitude();
    let mb = b.magnitude();
    assert(magnitude_units(0) == 0);
    if ma > 0 {
        lemma_magnitude_units_increases(0, ma);
    }
    if mb > 0 {
        lemma_magnitude_units_increases(0, mb);
    }
    if ma < mb {
        lemma_magnitude_units_increases(ma, mb);
    } else if mb < ma {
        lemma_magnitude_units_increases(mb, ma);
    }
}

/// A mixed sample is always a number from minus one to one, and a number that is in
/// that range already is kept unchanged.
pub proof fn law_sample_in_range(x: Binary32)
    ensures
        x.as_sample().finite(),
        minus_one().units() <= x.as_sample().units() <= one().units(),
        x.finite() && minus_one().units() <= x.units() <= one().units() ==> x.as_sample() == x,
        one().units() == pow2(149),
        minus_one().units() == -pow2(149),
{
    law_rank_orders_values(minus_one(), x.as_sample());
    law_rank_orders_values(x.as_sample(), one());
    if x.finite() {
        law_rank_orders_values(minus_one(), x);
        law_rank_orders_values(x, one());
    }
    vstd::arithmetic::power2::lemma_pow2_adds(23, 126);
    lemma2_to64();
}

/// Patterns are told apart as the encoding of numbers has it: the exponent of all ones is
/// kept for infinities and for what is not a number, on either side of the sign bit.
pub proof fn law_patterns_are_classified(x: Binary32, magnitude: u32, nan: bool, finite: bool)
    requires
        call_ensures(Binary32::magnitude_bits, (x,), magnitude),
        call_ensures(Binary32::is_nan, (x,), nan),
        call_ensures(Binary32::is_finite, (x,), finite),
    ensures
        magnitude == x.bits % 0x8000_0000,
        nan <==> x.bits % 0x8000_0000 > 0x7f80_0000,
        finite <==> x.bits % 0x8000_0000 < 0x7f80_0000,
{
}

/// Clamping gives the bound that a number lies beyond, and the number itself where it lies
/// beyond none; infinities lie beyond any finite bound, and what is not a number stays.
pub proof fn law_clamp_gives_the_nearest(
    x: Binary32,
    low: Binary32,
    high: Binary32,
    clamped: Binary32,
)
    requires
        low.bits % 0x8000_0000 < 0x7f80_0000,
        high.bits % 0x8000_0000 < 0x7f80_0000,
        low.units() <= high.units(),
        call_ensures(Binary32::clamp, (x, low, high), clamped),
    ensures
        x.bits % 0x8000_0000 > 0x7f80_0000 ==> clamped == x,
        x.bits == 0x7f80_0000 ==> clamped == high,
        x.bits == 0xff80_0000 ==> clamped == low,
        x.bits % 0x8000_0000 < 0x7f80_0000 ==> clamped == if x.units() < low.units() {
            low
        } else if x.units() > high.units() {
            high
        } else {
            x
        },
{
    law_rank_orders_values(low, high);
    if x.finite() {
        law_rank_orders_values(x, low);
        law_rank_orders_values(x, high);
        law_rank_orders_values(low, x);
        law_rank_orders_values(high, x);
    }
}

/// What is not finite is mixed as zero; a number beyond one keeps its sign and becomes one;
/// any other number is mixed as it is.
pub proof fn law_samples_are_made_mixable(x: Binary32, sample: Binary32)
    requires
        call_ensures(Binary32::to_sample, (x,), sample),
    ensures
        sample.bits == if x.bits % 0x8000_0000 >= 0x7f80_0000 {
            0
        } else if x.bits % 0x8000_0000 <= 0x3f80_0000 {
            x.bits
        } else if x.bits < 0x8000_0000 {
            0x3f80_0000
        } else {
            0xbf80_0000u32
        },
{
}

/// The value of a number is that of its encoding: for a normal number, its fraction with
/// the hidden bit, doubled as often as its exponent says; turning the sign turns the
/// value.
pub proof fn law_values_follow_the_encoding(exponent: nat, fraction: nat, x: Binary32)
    requires
        1 <= exponent < 255,
        fraction < 0x80_0000,
        x.bits == exponent * 0x80_0000 + fraction,
    ensures
        x.units() == (0x80_0000 + fraction) * pow2((exponent - 1) as nat),
        x.negated().units() == -x.units(),
{
    let magnitude = (exponent * 0x80_0000 + fraction) as nat;
    assert(magnitude / 0x80_0000 == exponent);
    assert(magnitude % 0x80_0000 == fraction);
}

} // verus!
