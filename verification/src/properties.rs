//! Branches of the property formulas.
//!
//! At a density that does not exceed `EPSILON` the properties are those of
//! the ideal gas: enthalpy and Gibbs energy take `R T` in place of `P / D`,
//! the isobaric heat capacity is the isochoric one plus `R`, the second
//! density derivative of the pressure is zero, and the Joule-Thomson
//! coefficient, which would divide by zero, is a sentinel.

use vstd::prelude::*;
use vstd::arithmetic::power2::{lemma_pow2_adds, lemma2_to64, pow2};
use crate::binary64::{
    exponent, fraction, gt, is_nan, is_ratio, lemma_magnitude_order, lt, magnitude_bits, spec_ge,
    spec_gt, spec_lt, value, ZERO,
};
use crate::ideal::spec_floored;
use crate::limits::EPSILON;

verus! {

/// Encoding of 1e20, the Joule-Thomson coefficient reported in the ideal-gas
/// limit.
pub const JOULE_THOMSON_LIMIT: u64 = 0x4415_AF1D_78B5_8C40;

/// `JOULE_THOMSON_LIMIT` encodes ten to the twentieth exactly.
pub proof fn lemma_joule_thomson_limit()
    ensures
        is_ratio(JOULE_THOMSON_LIMIT, 100_000_000_000_000_000_000, 1),
{
    lemma2_to64();
    lemma_pow2_adds(14, 1074);
    assert(exponent(JOULE_THOMSON_LIMIT) == 1089);
    assert(fraction(JOULE_THOMSON_LIMIT) == 0x5_AF1D_78B5_8C40);
    let u = pow2(1074) as int;
    assert(0x15_AF1D_78B5_8C40 * (0x4000 * u) == 100_000_000_000_000_000_000 * u)
        by (nonlinear_arith);
}

/// Whether the properties at the density `d` are those of the ideal-gas
/// limit: `d` does not exceed `EPSILON`.
pub open spec fn spec_ideal_limit(d: u64) -> bool {
    !spec_gt(d, EPSILON)
}

/// The number whose square root is the speed of sound: `w2` itself unless it
/// is below zero, then zero.
pub open spec fn spec_radicand(w2: u64) -> u64 {
    if spec_lt(w2, ZERO) {
        ZERO
    } else {
        w2
    }
}

/// Whether the density `d` calls for the ideal-gas limit of the property
/// formulas.
#[verifier::when_used_as_spec(spec_ideal_limit)]
pub fn ideal_limit(d: u64) -> (r: bool)
    ensures
        r == spec_ideal_limit(d),
{
    !gt(d, EPSILON)
}

/// Clamps the squared speed of sound at zero, so that no square root of a
/// negative number is taken.
#[verifier::when_used_as_spec(spec_radicand)]
pub fn radicand(w2: u64) -> (r: u64)
    ensures
        r == spec_radicand(w2),
        !is_nan(r) ==> value(r) >= 0,
        !is_nan(w2) ==> spec_ge(r, ZERO),
{
    if lt(w2, ZERO) {
        ZERO
    } else {
        w2
    }
}

/// At a density that is not above `EPSILON` (zero of either sign, a negative
/// number, a NaN) the guards leave nothing to divide by the density and no
/// logarithm of it to take: the properties are those of the ideal-gas limit,
/// and the logarithm of the ideal-gas part is taken of `EPSILON`, which is
/// above zero.
pub proof fn lemma_ideal_gas_limit(d: u64)
    requires
        !spec_gt(d, EPSILON),
    ensures
        spec_ideal_limit(d),
        spec_floored(d) == EPSILON,
        !is_nan(spec_floored(d)),
        value(spec_floored(d)) > 0,
{
    lemma_magnitude_order(EPSILON, ZERO);
}

/// Zero, of either sign, is a density of the ideal-gas limit.
pub proof fn lemma_zero_density(d: u64)
    requires
        magnitude_bits(d) == 0,
    ensures
        !spec_gt(d, EPSILON),
        spec_ideal_limit(d),
{
    lemma_magnitude_order(EPSILON, ZERO);
}

/// Above `EPSILON` the density itself is divided by and its own logarithm
/// taken, and it is above zero.
pub proof fn lemma_real_gas(d: u64)
    requires
        spec_gt(d, EPSILON),
    ensures
        !spec_ideal_limit(d),
        spec_floored(d) == d,
        !is_nan(d),
        value(d) > 0,
{
    lemma_magnitude_order(EPSILON, ZERO);
}

} // verus!
