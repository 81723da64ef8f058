//! What the comparisons and the truncation of [`Binary64`] say of the numbers
//! that the patterns encode.

use crate::binary64::{Binary64, EXPONENT_MAX, HIDDEN_BIT, SCALE_MIN, SIGN_BIT};
use vstd::arithmetic::div_mod::{lemma_div_by_multiple, lemma_div_multiples_vanish_quotient};
use vstd::arithmetic::power2::{
    lemma2_to64,
    lemma2_to64_rest,
    lemma_pow2_adds,
    lemma_pow2_pos,
    lemma_pow2_strictly_increases,
    pow2,
};
use vstd::prelude::*;

verus! {

/// The sign, the exponent field and the fraction field make up the pattern.
pub proof fn lemma_fields_make_bits(x: Binary64)
    ensures
        0 <= x.fraction_field() < HIDDEN_BIT,
        0 <= x.exponent_field() <= EXPONENT_MAX,
        x.bits == (if x.sign_set() {
            SIGN_BIT as int
        } else {
            0
        }) + x.exponent_field() * HIDDEN_BIT + x.fraction_field(),
{
}

/// Powers of two grow with the exponent.
proof fn lemma_pow2_grows(low: nat, high: nat)
    requires
        low <= high,
    ensures
        pow2(low) <= pow2(high),
{
    if low < high {
        lemma_pow2_strictly_increases(low, high);
    }
}

/// The magnitude of a finite value lies in the band that its exponent field
/// names: below 2^52 units for a zero field, and from 2^(51 + field) up to
/// but not including 2^(52 + field) for any other.
pub proof fn lemma_magnitude_band(x: Binary64)
    requires
        x.is_finite(),
    ensures
        x.exponent_field() == 0 ==> x.magnitude_units() == x.fraction_field(),
        x.exponent_field() == 0 ==> x.magnitude_units() < pow2(52),
        x.exponent_field() >= 1 ==> pow2((51 + x.exponent_field()) as nat) <= x.magnitude_units(),
        x.exponent_field() >= 1 ==> x.magnitude_units() < pow2((52 + x.exponent_field()) as nat),
{
    lemma2_to64();
    lemma2_to64_rest();
    lemma_fields_make_bits(x);
    let field = x.exponent_field();
    if field >= 1 {
        let shift: nat = (field - 1) as nat;
        let weight: int = pow2(shift) as int;
        let significand = x.significand();
        assert((x.scale() + SCALE_MIN) as nat == shift);
        lemma_pow2_pos(shift);
        lemma_pow2_adds(52, shift);
        lemma_pow2_adds(53, shift);
        assert(pow2(52) * weight <= significand * weight) by (nonlinear_arith)
            requires
                pow2(52) <= significand,
                weight > 0,
        ;
        assert(significand * weight < pow2(53) * weight) by (nonlinear_arith)
            requires
                significand < pow2(53),
                weight > 0,
        ;
    } else {
        assert(x.magnitude_units() == x.fraction_field() * pow2(0));
    }
}

/// Two finite values of one magnitude have the same exponent and fraction
/// fields.
pub proof fn lemma_magnitude_names_fields(a: Binary64, b: Binary64)
    requires
        a.is_finite(),
        b.is_finite(),
        a.magnitude_units() == b.magnitude_units(),
    ensures
        a.exponent_field() == b.exponent_field(),
        a.fraction_field() == b.fraction_field(),
{
    lemma_magnitude_band(a);
    lemma_magnitude_band(b);
    lemma_fields_make_bits(a);
    lemma_fields_make_bits(b);
    let fa = a.exponent_field();
    let fb = b.exponent_field();
    if fa < fb {
        lemma_pow2_grows((52 + fa) as nat, (51 + fb) as nat);
        lemma_pow2_grows(52, (51 + fb) as nat);
    } else if fb < fa {
        lemma_pow2_grows((52 + fb) as nat, (51 + fa) as nat);
        lemma_pow2_grows(52, (51 + fa) as nat);
    } else if fa >= 1 {
        let shift: nat = (fa - 1) as nat;
        let weight: int = pow2(shift) as int;
        lemma_pow2_pos(shift);
        assert((a.scale() + SCALE_MIN) as nat == shift);
        assert((b.scale() + SCALE_MIN) as nat == shift);
        let sa = a.significand();
        let sb = b.significand();
        assert(sa == sb) by (nonlinear_arith)
            requires
                sa * weight == sb * weight,
                weight > 0,
        ;
    }
}

/// A finite value has magnitude zero exactly when it is one of the zeros.
pub proof fn lemma_zero_magnitude(x: Binary64)
    requires
        x.is_finite(),
    ensures
        x.magnitude_units() >= 0,
        x.magnitude_units() == 0 <==> x.is_zero(),
{
    lemma_magnitude_band(x);
    lemma_fields_make_bits(x);
    if x.exponent_field() >= 1 {
        lemma_pow2_pos((51 + x.exponent_field()) as nat);
    }
}

/// Two finite patterns are the same value exactly when they encode the same
/// number.
pub proof fn lemma_same_value_is_equal_number(a: Binary64, b: Binary64)
    requires
        a.is_finite(),
        b.is_finite(),
    ensures
        a.spec_same_value(b) <==> a.units() == b.units(),
{
    lemma_zero_magnitude(a);
    lemma_zero_magnitude(b);
    lemma_fields_make_bits(a);
    lemma_fields_make_bits(b);
    if a.units() == b.units() {
        if a.magnitude_units() != 0 {
            assert(a.sign_set() == b.sign_set());
            lemma_magnitude_names_fields(a, b);
            assert(a.bits == b.bits);
        }
    }
}

/// An infinity is the same value as the infinity of its own sign, and as
/// nothing else.
pub proof fn lemma_same_value_of_infinity(a: Binary64, b: Binary64)
    requires
        a.is_infinite(),
    ensures
        a.spec_same_value(b) <==> b.is_infinite() && a.sign_set() == b.sign_set(),
{
    lemma_fields_make_bits(a);
    lemma_fields_make_bits(b);
}

/// A finite value is at least zero exactly when the number it encodes is;
/// of the infinities, the positive one is.
pub proof fn lemma_non_negative_is_sign_of_number(x: Binary64)
    ensures
        x.is_finite() ==> (x.spec_is_non_negative() <==> x.units() >= 0),
        x.is_infinite() ==> (x.spec_is_non_negative() <==> !x.sign_set()),
{
    lemma_fields_make_bits(x);
    if x.is_finite() {
        lemma_zero_magnitude(x);
    }
}

/// The whole magnitude of a finite value is its magnitude in units, divided
/// by the 2^1074 units that make one and rounded down.
pub proof fn lemma_whole_magnitude_is_floor(x: Binary64)
    requires
        x.is_finite(),
    ensures
        x.whole_magnitude() == x.magnitude_units() / (pow2(SCALE_MIN as nat) as int),
{
    lemma_fields_make_bits(x);
    let significand = x.significand();
    let scale = x.scale();
    lemma_pow2_pos(SCALE_MIN as nat);
    if scale >= 0 {
        let up: nat = scale as nat;
        lemma_pow2_adds(up, SCALE_MIN as nat);
        let whole = significand * pow2(up);
        let unit = pow2(SCALE_MIN as nat) as int;
        assert(significand * pow2((scale + SCALE_MIN) as nat) == whole * unit)
            by (nonlinear_arith)
            requires
                pow2((scale + SCALE_MIN) as nat) == pow2(up) * unit,
                whole == significand * pow2(up),
        ;
        assert(whole >= 0) by (nonlinear_arith)
            requires
                whole == significand * pow2(up),
                significand >= 0,
        ;
        lemma_div_by_multiple(whole, unit);
    } else {
        let down: nat = (-scale) as nat;
        let rest: nat = (scale + SCALE_MIN) as nat;
        lemma_pow2_adds(rest, down);
        lemma_pow2_pos(rest);
        lemma_pow2_pos(down);
        lemma_div_multiples_vanish_quotient(pow2(rest) as int, significand, pow2(down) as int);
        assert(significand * pow2(rest) == pow2(rest) * significand) by (nonlinear_arith);
    }
}

} // verus!
