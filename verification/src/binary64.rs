//! Double-precision numbers held by their IEEE 754 bit pattern.
//!
//! The tracker stores progress and speed as such patterns and never rounds:
//! it only compares them and takes whole parts, both of which are exact
//! operations on the encoding. Arithmetic that rounds is the caller's.

use vstd::arithmetic::div_mod::lemma_basic_div;
use vstd::arithmetic::power2::{lemma2_to64, lemma2_to64_rest, lemma_pow2_strictly_increases, pow2};
use vstd::bits::{lemma_u64_shl_is_mul, lemma_u64_shr_is_div};
use vstd::prelude::*;

verus! {

/// The weight of the implicit leading bit of a normal significand, 2^52.
pub const HIDDEN_BIT: u64 = 0x0010_0000_0000_0000;

/// The pattern with only the sign bit set, 2^63.
pub const SIGN_BIT: u64 = 0x8000_0000_0000_0000;

/// The exponent field of infinities and NaNs.
pub const EXPONENT_MAX: u64 = 2047;

/// The exponent field at which one unit of the significand weighs one.
pub const EXPONENT_UNIT: u64 = 1075;

/// The least scale is -1074: that of the values with a zero exponent field.
pub const SCALE_MIN: u64 = 1074;

/// A double-precision number in the IEEE 754 interchange encoding: from the
/// top, one sign bit, eleven exponent bits and fifty-two fraction bits.
#[derive(Clone, Copy, Debug)]
pub struct Binary64 {
    pub bits: u64,
}

impl Binary64 {
    /// The eleven-bit exponent field.
    pub open spec fn exponent_field(self) -> int {
        (self.bits as int / HIDDEN_BIT as int) % 2048
    }

    /// The fifty-two-bit fraction field.
    pub open spec fn fraction_field(self) -> int {
        self.bits as int % HIDDEN_BIT as int
    }

    /// Whether the sign bit is set.
    pub open spec fn sign_set(self) -> bool {
        self.bits >= SIGN_BIT
    }

    /// The significand as an integer: the fraction, with the implicit leading
    /// bit wherever the exponent field is not zero.
    pub open spec fn significand(self) -> int {
        if self.exponent_field() == 0 {
            self.fraction_field()
        } else {
            HIDDEN_BIT as int + self.fraction_field()
        }
    }

    /// The power of two that one unit of the significand weighs, so that the
    /// magnitude of a finite value is `significand() * 2^scale()`.
    pub open spec fn scale(self) -> int {
        if self.exponent_field() == 0 {
            1 - EXPONENT_UNIT as int
        } else {
            self.exponent_field() - EXPONENT_UNIT as int
        }
    }

    /// Whether the pattern encodes a number, and not an infinity or a NaN.
    pub open spec fn is_finite(self) -> bool {
        self.exponent_field() < EXPONENT_MAX
    }

    /// Whether the pattern encodes positive or negative infinity.
    pub open spec fn is_infinite(self) -> bool {
        self.exponent_field() == EXPONENT_MAX && self.fraction_field() == 0
    }

    /// The magnitude of a finite value, counted in units of 2^-1074, the
    /// smallest positive value that the encoding has. Every finite value is
    /// a whole number of them.
    pub open spec fn magnitude_units(self) -> int {
        self.significand() * pow2((self.scale() + SCALE_MIN) as nat)
    }

    /// The finite value, counted in units of 2^-1074.
    pub open spec fn units(self) -> int {
        if self.sign_set() {
            -self.magnitude_units()
        } else {
            self.magnitude_units()
        }
    }

    /// Whether the pattern encodes a NaN.
    pub open spec fn spec_is_nan(self) -> bool {
        self.exponent_field() == EXPONENT_MAX && self.fraction_field() != 0
    }

    /// Whether the pattern encodes positive or negative zero.
    pub open spec fn is_zero(self) -> bool {
        self.bits == 0 || self.bits == SIGN_BIT
    }

    /// Numeric equality: no NaN equals anything, itself included, the two
    /// zeros are equal, and any other two values are equal exactly when their
    /// patterns are.
    pub open spec fn spec_same_value(self, other: Binary64) -> bool {
        &&& !self.spec_is_nan()
        &&& !other.spec_is_nan()
        &&& (self.bits == other.bits || (self.is_zero() && other.is_zero()))
    }

    /// Whether the value is at least zero. False of every NaN, true of both
    /// zeros and of positive infinity.
    pub open spec fn spec_is_non_negative(self) -> bool {
        !self.spec_is_nan() && (!self.sign_set() || self.is_zero())
    }

    /// The whole part of the magnitude of a finite value. On the encodings of
    /// infinities and NaNs the same formula gives a number above 2^1000.
    pub open spec fn whole_magnitude(self) -> int {
        if self.scale() >= 0 {
            self.significand() * pow2(self.scale() as nat)
        } else {
            self.significand() / (pow2((-self.scale()) as nat) as int)
        }
    }

    /// The whole part of the magnitude, capped at the largest `isize`.
    pub open spec fn truncated(self) -> int {
        if self.whole_magnitude() <= isize::MAX {
            self.whole_magnitude()
        } else {
            isize::MAX as int
        }
    }

    /// Positive zero.
    pub fn zero() -> (z: Binary64)
        ensures
            z.bits == 0,
    {
        Binary64 { bits: 0 }
    }

    /// Wraps a bit pattern.
    pub fn from_bits(bits: u64) -> (x: Binary64)
        ensures
            x.bits == bits,
    {
        Binary64 { bits }
    }

    /// The bit pattern.
    pub fn to_bits(self) -> (bits: u64)
        ensures
            bits == self.bits,
    {
        self.bits
    }

    /// Tells whether the value is a NaN.
    #[verifier::when_used_as_spec(spec_is_nan)]
    pub fn is_nan(self) -> (r: bool)
        ensures
            r == self.spec_is_nan(),
    {
        let b: u64 = self.bits;
        assert(((b & 0x7fff_ffff_ffff_ffff) > 0x7ff0_0000_0000_0000) <==> ((b
            / 0x0010_0000_0000_0000) % 2048 == 2047 && b % 0x0010_0000_0000_0000 != 0))
            by (bit_vector);
        (b & 0x7fff_ffff_ffff_ffff) > 0x7ff0_0000_0000_0000
    }

    /// Compares two values as numbers.
    #[verifier::when_used_as_spec(spec_same_value)]
    pub fn same_value(self, other: Binary64) -> (r: bool)
        ensures
            r == self.spec_same_value(other),
    {
        if self.is_nan() || other.is_nan() {
            return false;
        }
        let a: u64 = self.bits;
        let b: u64 = other.bits;
        assert(((a | b) & 0x7fff_ffff_ffff_ffff) == 0 <==> ((a == 0 || a == 0x8000_0000_0000_0000)
            && (b == 0 || b == 0x8000_0000_0000_0000))) by (bit_vector);
        a == b || ((a | b) & 0x7fff_ffff_ffff_ffff) == 0
    }

    /// Tells whether the value is at least zero.
    #[verifier::when_used_as_spec(spec_is_non_negative)]
    pub fn is_non_negative(self) -> (r: bool)
        ensures
            r == self.spec_is_non_negative(),
    {
        if self.is_nan() {
            return false;
        }
        self.bits <= SIGN_BIT
    }

    /// Drops the fraction of the magnitude and caps the result at the largest
    /// `isize`. For a value that is at least zero this is the conversion to
    /// `isize` that rounds toward zero and saturates.
    pub fn truncate(self) -> (n: isize)
        ensures
            n == self.truncated(),
            n >= 0,
    {
        let b: u64 = self.bits;
        let e: u64 = (b >> 52) & 0x7ff;
        let f: u64 = b & 0x000f_ffff_ffff_ffff;
        assert(((b >> 52) & 0x7ff) == (b / 0x0010_0000_0000_0000) % 2048) by (bit_vector);
        assert((b & 0x000f_ffff_ffff_ffff) == b % 0x0010_0000_0000_0000) by (bit_vector);
        assert(e == self.exponent_field() && f == self.fraction_field());
        proof {
            lemma2_to64();
            lemma2_to64_rest();
        }
        if e < 1023 {
            proof {
                let k: nat = (-self.scale()) as nat;
                assert(k >= 53);
                if k > 53 {
                    lemma_pow2_strictly_increases(53, k);
                }
                assert(self.significand() < pow2(k));
                lemma_basic_div(self.significand(), pow2(k) as int);
            }
            return 0;
        }
        let sig: u64 = f + HIDDEN_BIT;
        assert(sig == self.significand());
        if e >= 1086 {
            proof {
                let k: nat = self.scale() as nat;
                assert(k >= 11);
                if k > 11 {
                    lemma_pow2_strictly_increases(11, k);
                }
                assert(sig * pow2(k) >= 0x0010_0000_0000_0000 * 2048) by (nonlinear_arith)
                    requires
                        sig >= 0x0010_0000_0000_0000,
                        pow2(k) >= 2048,
                ;
            }
            return isize::MAX;
        }
        let wide: u64 = if e >= EXPONENT_UNIT {
            let k: u64 = e - EXPONENT_UNIT;
            proof {
                if k < 10 {
                    lemma_pow2_strictly_increases(k as nat, 10);
                }
                assert(sig * pow2(k as nat) <= 0x0020_0000_0000_0000 * 1024) by (nonlinear_arith)
                    requires
                        sig <= 0x0020_0000_0000_0000,
                        pow2(k as nat) <= 1024,
                ;
                lemma_u64_shl_is_mul(sig, k);
            }
            sig << k
        } else {
            let k: u64 = EXPONENT_UNIT - e;
            proof {
                lemma_u64_shr_is_div(sig, k);
            }
            sig >> k
        };
        assert(wide == self.whole_magnitude());
        if wide > isize::MAX as u64 {
            isize::MAX
        } else {
            wide as isize
        }
    }
}

} // verus!
