//! IEEE-754 values held by their encodings, with the order of the values
//! stated over the encodings.

use vstd::prelude::*;
use vstd::arithmetic::div_mod::lemma_div_denominator;
use vstd::arithmetic::mul::lemma_mul_inequality;
use vstd::arithmetic::mul::lemma_mul_is_associative;
use vstd::arithmetic::power2::lemma_pow2_pos;
use vstd::arithmetic::power2::lemma_pow2_strictly_increases;
use vstd::arithmetic::power2::lemma_pow2_unfold;
use vstd::arithmetic::power2::lemma2_to64;
use vstd::arithmetic::power2::pow2;

verus! {

/// Encoding of the sign bit of a binary32 value.
pub const SIGN_BIT: u32 = 0x8000_0000;

/// Encoding of positive infinity; every larger magnitude is a NaN.
pub const INFINITY_BITS: u32 = 0x7f80_0000;

/// Encoding of `1.0`.
pub const ONE_BITS: u32 = 0x3f80_0000;

/// The weight of the lowest exponent bit in an encoding: two to the number
/// of fraction bits.
pub const FRACTION_RANGE: u32 = 0x80_0000;

/// The exponent field of the values from 1 up to 2.
pub const EXPONENT_BIAS: u32 = 127;

/// The exponent field from which on a value has no fraction bit below one.
pub const EXPONENT_WHOLE: u32 = 150;

/// A binary32 value (single precision), held by its encoding.
///
/// `==` on this type compares encodings: `-0.0` and `+0.0` differ, and a NaN
/// equals itself. The numeric comparisons are `lt`, `le`, `gt` and
/// `same_value`.
#[derive(Clone, Copy, Debug, PartialEq, Eq, Structural)]
pub struct Binary32 {
    pub bits: u32,
}

/// A binary64 value (double precision), held by its encoding. The library
/// stores and hands on such values; it never compares them.
#[derive(Clone, Copy, Debug, PartialEq, Eq, Structural)]
pub struct Binary64 {
    pub bits: u64,
}

impl Binary32 {
    /// The encoding with the sign bit cleared.
    pub open spec fn magnitude(self) -> int {
        if self.bits >= SIGN_BIT {
            self.bits - SIGN_BIT
        } else {
            self.bits as int
        }
    }

    /// The sign bit is set. True of `-0.0` and of half the NaNs.
    pub open spec fn sign_negative(self) -> bool {
        self.bits >= SIGN_BIT
    }

    /// The value is a NaN: exponent all ones, fraction not zero.
    pub open spec fn nan(self) -> bool {
        self.magnitude() > INFINITY_BITS
    }

    /// The place of the value on the number line. For two values that are not
    /// NaN, the one with the smaller rank is the smaller number, and equal
    /// ranks mean equal numbers: both zeros have rank 0.
    pub open spec fn rank(self) -> int {
        if self.sign_negative() {
            -self.magnitude()
        } else {
            self.magnitude()
        }
    }

    /// `self < other` as IEEE-754 orders the values: false if either is a NaN.
    pub open spec fn less(self, other: Binary32) -> bool {
        !self.nan() && !other.nan() && self.rank() < other.rank()
    }

    /// `self <= other` as IEEE-754 orders the values: false if either is a NaN.
    pub open spec fn at_most(self, other: Binary32) -> bool {
        !self.nan() && !other.nan() && self.rank() <= other.rank()
    }

    /// `self == other` as IEEE-754 compares the values: false if either is a
    /// NaN, true of the two zeros.
    pub open spec fn equal_value(self, other: Binary32) -> bool {
        !self.nan() && !other.nan() && self.rank() == other.rank()
    }

    /// The encoding of `|self|`.
    pub open spec fn absolute(self) -> Binary32 {
        Binary32 { bits: self.magnitude() as u32 }
    }

    /// The encoding of `-self`.
    pub open spec fn negated(self) -> Binary32 {
        if self.bits >= SIGN_BIT {
            Binary32 { bits: (self.bits - SIGN_BIT) as u32 }
        } else {
            Binary32 { bits: (self.bits + SIGN_BIT) as u32 }
        }
    }

    /// The exponent field of the encoding.
    pub open spec fn exponent(self) -> int {
        self.magnitude() / (FRACTION_RANGE as int)
    }

    /// The significand of a normal value, as a whole number: the fraction
    /// field with the hidden bit in front.
    pub open spec fn significand(self) -> int {
        FRACTION_RANGE + self.magnitude() % (FRACTION_RANGE as int)
    }

    /// The whole part of the value, the fraction cut off: 0 for a NaN, for a
    /// negative value and for a value below 1; the significand times or
    /// through a power of two otherwise. Infinity counts as a number beyond
    /// every machine integer.
    pub open spec fn whole_part(self) -> nat {
        if self.nan() || self.sign_negative() || self.exponent() < EXPONENT_BIAS {
            0
        } else if self.exponent() >= EXPONENT_WHOLE {
            (self.significand() * pow2((self.exponent() - EXPONENT_WHOLE) as nat)) as nat
        } else {
            (self.significand() / (pow2((EXPONENT_WHOLE - self.exponent()) as nat) as int)) as nat
        }
    }

    pub fn from_bits(bits: u32) -> (r: Binary32)
        ensures
            r.bits == bits,
    {
        Binary32 { bits }
    }

    pub fn to_bits(self) -> (r: u32)
        ensures
            r == self.bits,
    {
        self.bits
    }

    /// The encoding of `0.0`.
    pub fn zero() -> (r: Binary32)
        ensures
            r.bits == 0,
    {
        Binary32 { bits: 0 }
    }

    /// The encoding of `1.0`.
    pub fn one() -> (r: Binary32)
        ensures
            r.bits == ONE_BITS,
    {
        Binary32 { bits: ONE_BITS }
    }

    /// The encoding of positive infinity.
    pub fn infinity() -> (r: Binary32)
        ensures
            r.bits == INFINITY_BITS,
    {
        Binary32 { bits: INFINITY_BITS }
    }

    fn magnitude_bits(self) -> (r: u32)
        ensures
            r == self.magnitude(),
            r < SIGN_BIT,
    {
        if self.bits >= SIGN_BIT {
            self.bits - SIGN_BIT
        } else {
            self.bits
        }
    }

    fn rank_value(self) -> (r: i64)
        ensures
            r == self.rank(),
    {
        let m: i64 = self.magnitude_bits() as i64;
        if self.bits >= SIGN_BIT {
            -m
        } else {
            m
        }
    }

    pub fn is_nan(self) -> (r: bool)
        ensures
            r == self.nan(),
    {
        self.magnitude_bits() > INFINITY_BITS
    }

    pub fn lt(self, other: Binary32) -> (r: bool)
        ensures
            r == self.less(other),
    {
        !self.is_nan() && !other.is_nan() && self.rank_value() < other.rank_value()
    }

    pub fn le(self, other: Binary32) -> (r: bool)
        ensures
            r == self.at_most(other),
    {
        !self.is_nan() && !other.is_nan() && self.rank_value() <= other.rank_value()
    }

    pub fn gt(self, other: Binary32) -> (r: bool)
        ensures
            r == other.less(self),
    {
        other.lt(self)
    }

    pub fn same_value(self, other: Binary32) -> (r: bool)
        ensures
            r == self.equal_value(other),
    {
        !self.is_nan() && !other.is_nan() && self.rank_value() == other.rank_value()
    }

    /// The whole part of the value, or `limit` if that is less: what a cast
    /// to an index gives, cut off at `limit`.
    pub fn to_index(self, limit: usize) -> (r: usize)
        ensures
            r == if self.whole_part() < limit {
                self.whole_part()
            } else {
                limit as nat
            },
    {
        if self.is_nan() || self.bits >= SIGN_BIT {
            return 0;
        }
        let exponent: u32 = self.bits / FRACTION_RANGE;
        if exponent < EXPONENT_BIAS {
            return 0;
        }
        let significand: u32 = FRACTION_RANGE + self.bits % FRACTION_RANGE;
        let mut v: u128 = significand as u128;
        let mut k: u32 = 0;
        if exponent >= EXPONENT_WHOLE {
            let shift: u32 = exponent - EXPONENT_WHOLE;
            proof {
                lemma2_to64();
            }
            while k < shift && v <= limit as u128
                invariant
                    k <= shift,
                    v == significand * pow2(k as nat),
                    v >= 1,
                decreases shift - k,
            {
                proof {
                    lemma_pow2_unfold((k + 1) as nat);
                    lemma_mul_is_associative(significand as int, pow2(k as nat) as int, 2);
                }
                v = v * 2;
                k = k + 1;
            }
            proof {
                if k < shift {
                    lemma_pow2_strictly_increases(k as nat, shift as nat);
                    lemma_mul_inequality(
                        pow2(k as nat) as int,
                        pow2(shift as nat) as int,
                        significand as int,
                    );
                    assert(significand * pow2(k as nat) == pow2(k as nat) * significand)
                        by (nonlinear_arith);
                    assert(significand * pow2(shift as nat) == pow2(shift as nat) * significand)
                        by (nonlinear_arith);
                }
            }
        } else {
            let shift: u32 = EXPONENT_WHOLE - exponent;
            proof {
                lemma2_to64();
            }
            while k < shift
                invariant
                    k <= shift,
                    v == significand as int / (pow2(k as nat) as int),
                decreases shift - k,
            {
                proof {
                    lemma_pow2_pos(k as nat);
                    lemma_pow2_unfold((k + 1) as nat);
                    lemma_div_denominator(significand as int, pow2(k as nat) as int, 2);
                }
                v = v / 2;
                k = k + 1;
            }
        }
        if v > limit as u128 {
            limit
        } else {
            v as usize
        }
    }

    pub fn abs(self) -> (r: Binary32)
        ensures
            r == self.absolute(),
    {
        Binary32 { bits: self.magnitude_bits() }
    }

    pub fn neg(self) -> (r: Binary32)
        ensures
            r == self.negated(),
    {
        if self.bits >= SIGN_BIT {
            Binary32 { bits: self.bits - SIGN_BIT }
        } else {
            Binary32 { bits: self.bits + SIGN_BIT }
        }
    }
}

impl Binary64 {
    pub fn from_bits(bits: u64) -> (r: Binary64)
        ensures
            r.bits == bits,
    {
        Binary64 { bits }
    }

    pub fn to_bits(self) -> (r: u64)
        ensures
            r == self.bits,
    {
        self.bits
    }
}

/// Among values that are not NaN, exactly one of `a < b`, `a == b`, `b < a`
/// holds.
pub proof fn lemma_order_total(a: Binary32, b: Binary32)
    requires
        !a.nan(),
        !b.nan(),
    ensures
        a.less(b) || a.equal_value(b) || b.less(a),
        !(a.less(b) && b.less(a)),
        !(a.less(b) && a.equal_value(b)),
        a.at_most(b) <==> !b.less(a),
{
}

} // verus!
