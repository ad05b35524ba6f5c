use vstd::prelude::*;

verus! {

/// A raw FFmpeg rational (`AVRational`): the denominator may be zero.
#[derive(Clone, Copy, Debug, PartialEq, Eq, Structural)]
pub struct AVRational {
    /// The numerator.
    pub num: i32,
    /// The denominator.
    pub den: i32,
}

/// A rational number whose denominator is never zero.
#[derive(Clone, Copy, Debug, PartialEq, Eq, Structural)]
pub struct Rational {
    /// The numerator.
    pub numerator: i32,
    /// The denominator, never zero for values built by this library.
    pub denominator: i32,
}

impl Rational {
    /// The rational `0/1`.
    pub open spec fn spec_zero() -> Rational {
        Rational { numerator: 0, denominator: 1 }
    }

    /// The rational `1/1`.
    pub open spec fn spec_one() -> Rational {
        Rational { numerator: 1, denominator: 1 }
    }

    /// The rational a raw `AVRational` stands for: `0/1` when its denominator is zero.
    pub open spec fn spec_from_av(r: AVRational) -> Rational {
        if r.den == 0 {
            Self::spec_zero()
        } else {
            Rational { numerator: r.num, denominator: r.den }
        }
    }

    /// The raw `AVRational` with the same numerator and denominator.
    pub open spec fn spec_to_av(self) -> AVRational {
        AVRational { num: self.numerator, den: self.denominator }
    }

    /// Creates `numerator / denominator`.
    pub fn new(numerator: i32, denominator: i32) -> (r: Rational)
        requires
            denominator != 0,
        ensures
            r.numerator == numerator,
            r.denominator == denominator,
    {
        Rational { numerator, denominator }
    }

    /// Returns `0/1`.
    pub fn zero() -> (r: Rational)
        ensures
            r == Self::spec_zero(),
    {
        Rational { numerator: 0, denominator: 1 }
    }

    /// Returns `1/1`.
    pub fn one() -> (r: Rational)
        ensures
            r == Self::spec_one(),
    {
        Rational { numerator: 1, denominator: 1 }
    }

    /// Returns the integer `value` as the rational `value/1`.
    pub fn from_integer(value: i32) -> (r: Rational)
        ensures
            r == (Rational { numerator: value, denominator: 1 }),
    {
        Rational { numerator: value, denominator: 1 }
    }

    /// Converts a raw `AVRational`; a zero denominator gives `0/1`.
    pub fn from_av(r: AVRational) -> (out: Rational)
        ensures
            out == Self::spec_from_av(r),
            out.denominator != 0,
    {
        if r.den == 0 {
            Rational { numerator: 0, denominator: 1 }
        } else {
            Rational { numerator: r.num, denominator: r.den }
        }
    }

    /// Converts to a raw `AVRational`.
    pub fn to_av(self) -> (out: AVRational)
        ensures
            out == self.spec_to_av(),
    {
        AVRational { num: self.numerator, den: self.denominator }
    }
}

/// Converting a rational with a non-zero denominator to a raw `AVRational` and back
/// gives the same rational.
pub proof fn lemma_rational_av_round_trip(r: Rational)
    requires
        r.denominator != 0,
    ensures
        Rational::spec_from_av(r.spec_to_av()) == r,
{
}

/// Converting a raw `AVRational` with a non-zero denominator to a rational and back
/// gives the same raw value.
pub proof fn lemma_av_rational_round_trip(r: AVRational)
    requires
        r.den != 0,
    ensures
        Rational::spec_from_av(r).spec_to_av() == r,
{
}

/// `a * b / c` rounded to the nearest integer, halves away from zero, as FFmpeg
/// rescales (`av_rescale_rnd` with `AV_ROUND_NEAR_INF`): `i64::MIN` for a
/// non-positive `c`, a negative `b`, or a result past the `i64` range; `i64::MIN`
/// itself counts as `-i64::MAX`.
pub open spec fn spec_rescale(a: int, b: int, c: int) -> int {
    if c <= 0 || b < 0 {
        i64::MIN as int
    } else {
        let m = if a < -(i64::MAX as int) {
            i64::MAX as int
        } else if a < 0 {
            -a
        } else {
            a
        };
        let q = (m * b + c / 2) / c;
        if q > i64::MAX {
            i64::MIN as int
        } else if a < 0 {
            -q
        } else {
            q
        }
    }
}

/// `a` in time base `from` converted to time base `to` (`av_rescale_q`).
pub open spec fn spec_rescale_q(a: i64, from: AVRational, to: AVRational) -> i64 {
    spec_rescale(a as int, from.num * to.den, to.num * from.den) as i64
}

/// Converts `a` from time base `from` to time base `to`, rounding to the nearest
/// value, halves away from zero (see [`spec_rescale`]).
pub fn rescale_q(a: i64, from: AVRational, to: AVRational) -> (r: i64)
    ensures
        r == spec_rescale_q(a, from, to),
        r as int == spec_rescale(a as int, from.num * to.den, to.num * from.den),
{
    proof {
        assert(-0x8000_0000_0000_0000 <= from.num * to.den <= 0x4000_0000_0000_0000) by (nonlinear_arith)
            requires
                -0x8000_0000 <= from.num < 0x8000_0000,
                -0x8000_0000 <= to.den < 0x8000_0000,
        ;
        assert(-0x8000_0000_0000_0000 <= to.num * from.den <= 0x4000_0000_0000_0000) by (nonlinear_arith)
            requires
                -0x8000_0000 <= to.num < 0x8000_0000,
                -0x8000_0000 <= from.den < 0x8000_0000,
        ;
    }
    let b: i64 = (from.num as i64) * (to.den as i64);
    let c: i64 = (to.num as i64) * (from.den as i64);
    if c <= 0 || b < 0 {
        return i64::MIN;
    }
    let m: u128 = if a < -i64::MAX {
        i64::MAX as u128
    } else if a < 0 {
        (-a) as u128
    } else {
        a as u128
    };
    proof {
        assert(m * (b as u128) <= 0x8000_0000_0000_0000u128 * 0x4000_0000_0000_0000u128) by (nonlinear_arith)
            requires
                m <= 0x8000_0000_0000_0000u128,
                0 <= b <= 0x4000_0000_0000_0000,
        ;
    }
    let q: u128 = (m * (b as u128) + (c as u128) / 2) / (c as u128);
    if q > i64::MAX as u128 {
        i64::MIN
    } else if a < 0 {
        -(q as i64)
    } else {
        q as i64
    }
}

/// A raw rational reads as the rational with the same numerator and denominator,
/// save that a zero denominator reads as `0/1`; a rational converts to the raw one
/// with its numerator and denominator.
pub proof fn lemma_rational_readings(raw: AVRational, r: Rational)
    ensures
        raw.den != 0 ==> Rational::spec_from_av(raw).numerator == raw.num && Rational::spec_from_av(
            raw,
        ).denominator == raw.den,
        raw.den == 0 ==> Rational::spec_from_av(raw).numerator == 0 && Rational::spec_from_av(raw).denominator
            == 1,
        r.spec_to_av().num == r.numerator && r.spec_to_av().den == r.denominator,
        Rational::spec_zero().numerator == 0 && Rational::spec_zero().denominator == 1,
        Rational::spec_one().numerator == 1 && Rational::spec_one().denominator == 1,
{
}

} // verus!
