//! The unsigned 64.64 fixed-point numbers that billing computes with.
//!
//! A value is carried as its raw 128 bits: the bits `b` stand for the
//! rational number `b / 2^64`. Every operation is the one of
//! `substrate_fixed::types::U64F64`, called through a wrapper whose contract
//! states, over the bits, what that crate's source computes.
use substrate_fixed::types::U64F64;
use vstd::prelude::*;

verus! {

/// `2^64`: the bits of the fixed-point number one.
pub open spec fn frac_one() -> int {
    0x1_0000_0000_0000_0000
}

/// `2^128`: one more than the largest bits a fixed-point number can hold.
pub open spec fn fixed_bound() -> int {
    frac_one() * frac_one()
}

/// The bits are those of a fixed-point number (no overflow).
pub open spec fn fits(x: int) -> bool {
    0 <= x < fixed_bound()
}

/// The bits of the integer `n`.
pub open spec fn fx_int(n: int) -> int {
    n * frac_one()
}

/// The bits of the product of two fixed-point numbers: the exact product,
/// truncated to 64 fractional bits.
pub open spec fn fx_mul(a: int, b: int) -> int {
    (a * b) / frac_one()
}

/// The bits of the quotient of two fixed-point numbers, truncated.
pub open spec fn fx_div(a: int, b: int) -> int {
    (a * frac_one()) / b
}

/// The integer nearest to the fixed-point number, ties away from zero
/// (`round` followed by `to_num`).
pub open spec fn fx_round_int(a: int) -> int {
    (a + frac_one() / 2) / frac_one()
}

/// The bits that `round` gives.
pub open spec fn fx_round(a: int) -> int {
    fx_round_int(a) * frac_one()
}

/// The larger of two fixed-point numbers.
pub open spec fn fx_max(a: int, b: int) -> int {
    if a >= b { a } else { b }
}

/// The smaller of two fixed-point numbers.
pub open spec fn fx_min(a: int, b: int) -> int {
    if a <= b { a } else { b }
}

/// `U64F64::from_num` of a `u64`: the integer shifted into the integer
/// bits. It always fits.
#[verifier::external_body]
pub(crate) fn fixed_from_u64(n: u64) -> (r: u128)
    ensures
        r == fx_int(n as int),
{
    U64F64::from_num(n).to_bits()
}

/// `U64F64 * U64F64`: the full 256-bit product shifted right by 64 bits.
/// The crate panics (with debug assertions) when the result does not fit,
/// so such inputs are left out.
#[verifier::external_body]
pub(crate) fn fixed_mul(a: u128, b: u128) -> (r: u128)
    requires
        fits(fx_mul(a as int, b as int)),
    ensures
        r == fx_mul(a as int, b as int),
{
    (U64F64::from_bits(a) * U64F64::from_bits(b)).to_bits()
}

/// `U64F64 / U64F64`: the dividend shifted left by 64 bits, divided by the
/// divisor with truncation. It panics on a zero divisor and (with debug
/// assertions) when the quotient does not fit.
#[verifier::external_body]
pub(crate) fn fixed_div(a: u128, b: u128) -> (r: u128)
    requires
        b != 0,
        fits(fx_div(a as int, b as int)),
    ensures
        r == fx_div(a as int, b as int),
{
    (U64F64::from_bits(a) / U64F64::from_bits(b)).to_bits()
}

/// `U64F64 / u128`: the bits divided by the integer, truncated. It panics
/// on a zero divisor.
#[verifier::external_body]
pub(crate) fn fixed_div_int(a: u128, n: u128) -> (r: u128)
    requires
        n != 0,
    ensures
        r == a / n,
{
    (U64F64::from_bits(a) / n).to_bits()
}

/// `U64F64 * u128`: the bits multiplied by the integer; it overflows when
/// the product does not fit.
#[verifier::external_body]
pub(crate) fn fixed_mul_int(a: u128, n: u128) -> (r: u128)
    requires
        fits(a * n),
    ensures
        r == a * n,
{
    (U64F64::from_bits(a) * n).to_bits()
}

/// `U64F64 + U64F64`: the sum of the bits; it overflows when the sum does
/// not fit.
#[verifier::external_body]
pub(crate) fn fixed_add(a: u128, b: u128) -> (r: u128)
    requires
        fits(a + b),
    ensures
        r == a + b,
{
    (U64F64::from_bits(a) + U64F64::from_bits(b)).to_bits()
}

/// `U64F64::round`: the nearest integer, ties away from zero. With debug
/// assertions it panics when the rounded value does not fit.
#[verifier::external_body]
pub(crate) fn fixed_round(a: u128) -> (r: u128)
    requires
        fits(fx_round(a as int)),
    ensures
        r == fx_round(a as int),
{
    U64F64::from_bits(a).round().to_bits()
}

/// `U64F64::to_num::<u64>`: the integer bits; the fraction is dropped.
#[verifier::external_body]
pub(crate) fn fixed_to_u64(a: u128) -> (r: u64)
    ensures
        r == (a as int) / frac_one(),
{
    U64F64::from_bits(a).to_num::<u64>()
}

/// `Ord::max` of two `U64F64`, which compares the bits.
#[verifier::external_body]
pub(crate) fn fixed_max(a: u128, b: u128) -> (r: u128)
    ensures
        r == fx_max(a as int, b as int),
{
    U64F64::from_bits(a).max(U64F64::from_bits(b)).to_bits()
}

/// `Ord::min` of two `U64F64`, which compares the bits.
#[verifier::external_body]
pub(crate) fn fixed_min(a: u128, b: u128) -> (r: u128)
    ensures
        r == fx_min(a as int, b as int),
{
    U64F64::from_bits(a).min(U64F64::from_bits(b)).to_bits()
}

/// Rounds a fixed-point number to the nearest integer, ties away from zero,
/// and returns that integer, as `value.round().to_num::<u64>()` does.
pub fn round_to_u64(a: u128) -> (r: u64)
    requires
        fits(fx_round(a as int)),
    ensures
        r == fx_round_int(a as int),
{
    let rounded = fixed_round(a);
    let r = fixed_to_u64(rounded);
    assert((fx_round_int(a as int) * frac_one()) / frac_one() == fx_round_int(a as int)) by (nonlinear_arith)
        requires frac_one() > 0;
    r
}

/// Dividing by a fixed-point number of at least one does not increase a
/// nonnegative fixed-point number.
pub proof fn lemma_fx_div_le(a: int, b: int)
    requires
        0 <= a,
        b >= frac_one(),
    ensures
        0 <= fx_div(a, b) <= a,
{
    assert(0 <= (a * frac_one()) / b <= a) by (nonlinear_arith)
        requires
            0 <= a,
            b >= frac_one(),
            frac_one() > 0,
    {
        assert(a * frac_one() <= a * b);
    }
}

/// The quotient of two integers as fixed-point numbers is the first one
/// divided by the second, as bits.
pub proof fn lemma_fx_div_ints(a: int, b: int)
    requires
        0 <= a,
        1 <= b,
    ensures
        fx_div(fx_int(a), fx_int(b)) == fx_int(a) / b,
{
    vstd::arithmetic::div_mod::lemma_div_multiples_vanish_quotient(frac_one(), fx_int(a), b);
    assert(fx_int(a) * frac_one() == frac_one() * fx_int(a)) by (nonlinear_arith);
    assert(fx_int(b) == frac_one() * b) by (nonlinear_arith);
}

/// A fixed-point number below `2^64 - 1` rounds to a fixed-point number.
pub proof fn lemma_round_fits(a: int)
    requires
        0 <= a < fx_int(0xffff_ffff_ffff_ffff),
    ensures
        fits(fx_round(a)),
        fx_round_int(a) < 0x1_0000_0000_0000_0000,
{
    assert(0 <= (a + frac_one() / 2) / frac_one() <= 0xffff_ffff_ffff_ffff);
    assert(0 <= fx_round_int(a) * frac_one() <= 0xffff_ffff_ffff_ffff * frac_one()) by (nonlinear_arith)
        requires 0 <= fx_round_int(a) <= 0xffff_ffff_ffff_ffff, frac_one() > 0;
}

/// The product of two integers as fixed-point numbers is their integer
/// product.
pub proof fn lemma_fx_mul_ints(a: int, b: int)
    ensures
        fx_mul(fx_int(a), fx_int(b)) == fx_int(a * b),
{
    assert((a * frac_one()) * (b * frac_one()) == (a * b * frac_one()) * frac_one()) by (nonlinear_arith);
    assert(((a * b * frac_one()) * frac_one()) / frac_one() == a * b * frac_one()) by (nonlinear_arith)
        requires frac_one() > 0;
}

/// Multiplying a nonnegative fixed-point number by one at most one does not
/// increase it.
pub proof fn lemma_fx_mul_le(a: int, b: int)
    requires
        0 <= a,
        0 <= b <= frac_one(),
    ensures
        0 <= fx_mul(a, b) <= a,
{
    assert(0 <= (a * b) / frac_one() <= a) by (nonlinear_arith)
        requires
            0 <= a,
            0 <= b <= frac_one(),
    {
        assert(a * b <= a * frac_one());
    }
}

/// The product of fixed-point numbers grows with both factors.
pub proof fn lemma_fx_mul_mono(a1: int, a2: int, b1: int, b2: int)
    requires
        0 <= a1 <= a2,
        0 <= b1 <= b2,
    ensures
        0 <= fx_mul(a1, b1) <= fx_mul(a2, b2),
{
    assert(0 <= a1 * b1 <= a2 * b2) by (nonlinear_arith)
        requires
            0 <= a1 <= a2,
            0 <= b1 <= b2,
    ;
    vstd::arithmetic::div_mod::lemma_div_is_ordered(a1 * b1, a2 * b2, frac_one());
    vstd::arithmetic::div_mod::lemma_div_is_ordered(0, a1 * b1, frac_one());
}

/// The quotient of fixed-point numbers grows with the dividend.
pub proof fn lemma_fx_div_mono(a1: int, a2: int, b: int)
    requires
        0 <= a1 <= a2,
        b > 0,
    ensures
        0 <= fx_div(a1, b) <= fx_div(a2, b),
{
    assert(0 <= a1 * frac_one() <= a2 * frac_one()) by (nonlinear_arith)
        requires
            0 <= a1 <= a2,
            frac_one() > 0,
    ;
    vstd::arithmetic::div_mod::lemma_div_is_ordered(a1 * frac_one(), a2 * frac_one(), b);
    vstd::arithmetic::div_mod::lemma_div_is_ordered(0, a1 * frac_one(), b);
}

/// The quotient of fixed-point numbers shrinks as the divisor grows.
pub proof fn lemma_fx_div_antimono(a: int, b1: int, b2: int)
    requires
        0 <= a,
        1 <= b1 <= b2,
    ensures
        0 <= fx_div(a, b2) <= fx_div(a, b1),
{
    assert(0 <= a * frac_one()) by (nonlinear_arith)
        requires
            0 <= a,
            frac_one() > 0,
    ;
    vstd::arithmetic::div_mod::lemma_div_is_ordered_by_denominator(a * frac_one(), b1, b2);
    vstd::arithmetic::div_mod::lemma_div_pos_is_pos(a * frac_one(), b2);
}

/// Rounding to the nearest integer keeps the order.
pub proof fn lemma_round_mono(a1: int, a2: int)
    requires
        0 <= a1 <= a2,
    ensures
        0 <= fx_round_int(a1) <= fx_round_int(a2),
{
    vstd::arithmetic::div_mod::lemma_div_is_ordered(a1 + frac_one() / 2, a2 + frac_one() / 2, frac_one());
    vstd::arithmetic::div_mod::lemma_div_is_ordered(0, a1 + frac_one() / 2, frac_one());
}

/// An integer rounds to itself.
pub proof fn lemma_round_int(n: int)
    ensures
        fx_round_int(fx_int(n)) == n,
{
    vstd::arithmetic::div_mod::lemma_div_multiples_vanish_fancy(n, frac_one() / 2, frac_one());
    assert(fx_int(n) + frac_one() / 2 == frac_one() * n + frac_one() / 2) by (nonlinear_arith);
}

} // verus!
