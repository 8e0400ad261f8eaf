//! Real numbers as the tracer carries them: IEEE-754 binary64 values held by
//! their bit patterns.
//!
//! The library never computes with these values. It compares them, tests
//! their sign and class, and flips their sign; each of these is exact on the
//! bit pattern. Sums, products, quotients and roots are the caller's to
//! compute.
use vstd::arithmetic::power2::{lemma2_to64, lemma2_to64_rest, pow2};
use vstd::bits::lemma_u64_shl_is_mul;
use vstd::prelude::*;

verus! {

/// The sign bit of a binary64 pattern.
pub const SIGN: u64 = 0x8000_0000_0000_0000;

/// The magnitude of infinity. Larger magnitudes are NaNs, smaller ones are
/// finite.
pub const INFINITY: u64 = 0x7FF0_0000_0000_0000;

/// The pattern of `1.0`.
pub const ONE: u64 = 0x3FF0_0000_0000_0000;

/// The pattern of `255.0`.
pub const TOP_BYTE: u64 = 0x406F_E000_0000_0000;

/// Two to the power of 52: a pattern is its exponent field times this, plus
/// its fraction field.
pub const FRACTION: u64 = 0x0010_0000_0000_0000;

/// A binary64 value, held by its bit pattern.
///
/// In a program, `==` on two scalars is equality of the values, as
/// [`Scalar::same`] is: the two zeros are equal, and a NaN is equal to
/// nothing. In a contract, `==` is equality of the patterns.
#[derive(Clone, Copy, Debug)]
pub struct Scalar {
    pub bits: u64,
}

impl PartialEq for Scalar {
    fn eq(&self, other: &Scalar) -> (r: bool) {
        self.same(*other)
    }
}

impl vstd::std_specs::cmp::PartialEqSpecImpl for Scalar {
    open spec fn obeys_eq_spec() -> bool {
        true
    }

    open spec fn eq_spec(&self, other: &Scalar) -> bool {
        self.spec_same(*other)
    }
}

impl Scalar {
    /// The pattern without its sign bit.
    pub open spec fn magnitude(self) -> int {
        if self.bits >= SIGN {
            self.bits - SIGN
        } else {
            self.bits as int
        }
    }

    /// Whether the sign bit is set.
    pub open spec fn sign(self) -> bool {
        self.bits >= SIGN
    }

    pub open spec fn spec_is_nan(self) -> bool {
        self.magnitude() > INFINITY
    }

    pub open spec fn spec_is_finite(self) -> bool {
        self.magnitude() < INFINITY
    }

    /// An integer that orders the values that are not NaN as the values
    /// themselves are ordered: among patterns of one sign, a larger magnitude
    /// is a value further from zero. Both zeros have key 0.
    pub open spec fn key(self) -> int {
        if self.sign() {
            -self.magnitude()
        } else {
            self.magnitude()
        }
    }

    /// `self < other` as values: false as soon as either is a NaN.
    pub open spec fn spec_lt(self, other: Scalar) -> bool {
        !self.spec_is_nan() && !other.spec_is_nan() && self.key() < other.key()
    }

    /// `self <= other` as values: false as soon as either is a NaN.
    pub open spec fn spec_le(self, other: Scalar) -> bool {
        !self.spec_is_nan() && !other.spec_is_nan() && self.key() <= other.key()
    }

    /// `self > other` as values.
    pub open spec fn spec_gt(self, other: Scalar) -> bool {
        other.spec_lt(self)
    }

    /// `self == other` as values: the two zeros are the same, a NaN is the
    /// same as nothing.
    pub open spec fn spec_same(self, other: Scalar) -> bool {
        !self.spec_is_nan() && !other.spec_is_nan() && self.key() == other.key()
    }

    /// The value with its sign flipped.
    pub open spec fn spec_neg(self) -> Scalar {
        if self.bits >= SIGN {
            Scalar { bits: (self.bits - SIGN) as u64 }
        } else {
            Scalar { bits: (self.bits + SIGN) as u64 }
        }
    }

    /// The value with its sign cleared.
    pub open spec fn spec_abs(self) -> Scalar {
        if self.bits >= SIGN {
            Scalar { bits: (self.bits - SIGN) as u64 }
        } else {
            self
        }
    }

    /// `low` where the value is under it, `high` where it is over it, else
    /// the value itself; a NaN stays a NaN.
    pub open spec fn spec_clamp(self, low: Scalar, high: Scalar) -> Scalar {
        if self.spec_lt(low) {
            low
        } else if self.spec_gt(high) {
            high
        } else {
            self
        }
    }

    /// The value as a byte: its whole part, held to the range of a byte, and
    /// 0 for a NaN. A value of 1 or more with exponent field `e` and fraction
    /// field `m` is two to the power of 52, plus `m`, over two to the power
    /// of 1075 less `e`.
    pub open spec fn spec_to_u8(self) -> u8 {
        if self.spec_is_nan() || self.sign() || self.magnitude() < ONE {
            0u8
        } else if self.magnitude() >= TOP_BYTE {
            255u8
        } else {
            ((FRACTION + self.magnitude() % (FRACTION as int)) / (pow2(
                (1075 - self.magnitude() / (FRACTION as int)) as nat,
            ) as int)) as u8
        }
    }

    pub open spec fn spec_zero() -> Scalar {
        Scalar { bits: 0 }
    }

    pub open spec fn spec_one() -> Scalar {
        Scalar { bits: ONE }
    }

    /// The scalar with the given pattern (what `to_bits` gives for a value).
    pub fn from_bits(bits: u64) -> (r: Scalar)
        ensures
            r.bits == bits,
    {
        Scalar { bits }
    }

    /// The pattern (what `from_bits` turns back into the value).
    pub fn to_bits(self) -> (r: u64)
        ensures
            r == self.bits,
    {
        self.bits
    }

    /// `0.0`.
    #[verifier::when_used_as_spec(spec_zero)]
    pub fn zero() -> (r: Scalar)
        ensures
            r == Scalar::spec_zero(),
    {
        Scalar { bits: 0 }
    }

    /// `1.0`.
    #[verifier::when_used_as_spec(spec_one)]
    pub fn one() -> (r: Scalar)
        ensures
            r == Scalar::spec_one(),
    {
        Scalar { bits: ONE }
    }

    fn magnitude_bits(self) -> (r: u64)
        ensures
            r == self.magnitude(),
    {
        if self.bits >= SIGN {
            self.bits - SIGN
        } else {
            self.bits
        }
    }

    #[verifier::when_used_as_spec(spec_is_nan)]
    pub fn is_nan(self) -> (r: bool)
        ensures
            r == self.spec_is_nan(),
    {
        self.magnitude_bits() > INFINITY
    }

    #[verifier::when_used_as_spec(spec_is_finite)]
    pub fn is_finite(self) -> (r: bool)
        ensures
            r == self.spec_is_finite(),
    {
        self.magnitude_bits() < INFINITY
    }

    #[verifier::when_used_as_spec(spec_lt)]
    pub fn lt(self, other: Scalar) -> (r: bool)
        ensures
            r == self.spec_lt(other),
    {
        if self.is_nan() || other.is_nan() {
            return false;
        }
        let a: u64 = self.magnitude_bits();
        let b: u64 = other.magnitude_bits();
        if self.bits >= SIGN {
            if other.bits >= SIGN {
                b < a
            } else {
                a > 0 || b > 0
            }
        } else {
            other.bits < SIGN && a < b
        }
    }

    #[verifier::when_used_as_spec(spec_gt)]
    pub fn gt(self, other: Scalar) -> (r: bool)
        ensures
            r == self.spec_gt(other),
    {
        other.lt(self)
    }

    #[verifier::when_used_as_spec(spec_same)]
    pub fn same(self, other: Scalar) -> (r: bool)
        ensures
            r == self.spec_same(other),
    {
        if self.is_nan() || other.is_nan() {
            return false;
        }
        let a: u64 = self.magnitude_bits();
        let b: u64 = other.magnitude_bits();
        self.bits == other.bits || (a == 0 && b == 0)
    }

    #[verifier::when_used_as_spec(spec_le)]
    pub fn le(self, other: Scalar) -> (r: bool)
        ensures
            r == self.spec_le(other),
    {
        self.lt(other) || self.same(other)
    }

    #[verifier::when_used_as_spec(spec_neg)]
    pub fn neg(self) -> (r: Scalar)
        ensures
            r == self.spec_neg(),
    {
        if self.bits >= SIGN {
            Scalar { bits: self.bits - SIGN }
        } else {
            Scalar { bits: self.bits + SIGN }
        }
    }

    #[verifier::when_used_as_spec(spec_abs)]
    pub fn abs(self) -> (r: Scalar)
        ensures
            r == self.spec_abs(),
    {
        if self.bits >= SIGN {
            Scalar { bits: self.bits - SIGN }
        } else {
            self
        }
    }

    /// The value as a byte, as a cast to `u8` turns it.
    #[verifier::when_used_as_spec(spec_to_u8)]
    pub fn to_u8(self) -> (r: u8)
        ensures
            r == self.spec_to_u8(),
    {
        if self.is_nan() || self.bits >= SIGN || self.bits < ONE {
            return 0;
        }
        if self.bits >= TOP_BYTE {
            return 255;
        }
        let exponent: u64 = self.bits / FRACTION;
        let fraction: u64 = self.bits % FRACTION;
        assert(1023 <= exponent <= 1030);
        let shift: u64 = 1075 - exponent;
        proof {
            lemma2_to64();
            lemma2_to64_rest();
            lemma_u64_shl_is_mul(1, shift);
            assert(pow2(shift as nat) >= pow2(45)) by {
                if shift > 45 {
                    vstd::arithmetic::power2::lemma_pow2_strictly_increases(45, shift as nat);
                }
            }
            assert(pow2(shift as nat) <= pow2(52)) by {
                if shift < 52 {
                    vstd::arithmetic::power2::lemma_pow2_strictly_increases(shift as nat, 52);
                }
            }
        }
        let unit: u64 = 1u64 << shift;
        assert(unit == pow2(shift as nat));
        let whole: u64 = (FRACTION + fraction) / unit;
        proof {
            if exponent == 1030 {
                assert(unit == 0x2000_0000_0000);
                assert(FRACTION + fraction < 255 * 0x2000_0000_0000);
                assert(whole < 255) by (nonlinear_arith)
                    requires
                        whole == (FRACTION + fraction) / (unit as int),
                        unit == 0x2000_0000_0000,
                        FRACTION + fraction < 255 * 0x2000_0000_0000,
                ;
            } else {
                assert(shift >= 46);
                assert(unit >= pow2(46)) by {
                    if shift > 46 {
                        vstd::arithmetic::power2::lemma_pow2_strictly_increases(46, shift as nat);
                    }
                }
                assert(whole < 255) by (nonlinear_arith)
                    requires
                        whole == (FRACTION + fraction) / (unit as int),
                        unit >= 0x4000_0000_0000,
                        FRACTION + fraction < 0x0020_0000_0000_0000,
                ;
            }
        }
        whole as u8
    }

    /// The value held to the interval from `low` to `high`.
    #[verifier::when_used_as_spec(spec_clamp)]
    pub fn clamp(self, low: Scalar, high: Scalar) -> (r: Scalar)
        requires
            low.spec_le(high),
        ensures
            r == self.spec_clamp(low, high),
    {
        if self.lt(low) {
            low
        } else if self.gt(high) {
            high
        } else {
            self
        }
    }
}

} // verus!
