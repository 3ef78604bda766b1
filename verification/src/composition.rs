//! Validity of a gas composition.
//!
//! A composition is twenty-one mole fractions, in this order: methane,
//! nitrogen, carbon dioxide, ethane, propane, isobutane, n-butane,
//! isopentane, n-pentane, hexane, heptane, octane, nonane, decane, hydrogen,
//! oxygen, carbon monoxide, water, hydrogen sulfide, helium, argon. Whether
//! it is valid is judged by the sum of the fractions.

use vstd::prelude::*;
use vstd::arithmetic::power2::{lemma_pow2_adds, lemma2_to64, pow2};
use crate::binary64::{abs, gt, lemma_rounds, lt, rounds, spec_gt, spec_lt, ZERO};

verus! {

/// Number of components in a composition.
pub const NC: usize = 21;

/// Encoding of 1e-10: a sum of smaller magnitude is that of an empty
/// composition.
pub const EMPTY_SUM: u64 = 0x3DDB_7CDF_D9D7_BDBB;

/// Encoding of 1e-4: how far the sum may be from one.
pub const SUM_TOLERANCE: u64 = 0x3F1A_36E2_EB1C_432D;

/// Error conditions of a composition.
#[derive(Clone, Copy, Debug, PartialEq, Eq, Structural)]
pub enum CompositionError {
    /// The composition is empty: all fractions are zero.
    Empty,
    /// The sum of the fractions is not one.
    BadSum,
}

/// The two constants are the doubles that 1e-10 and 1e-4 round to.
pub proof fn lemma_composition_constants()
    ensures
        rounds(EMPTY_SUM, 1, 10_000_000_000),
        rounds(SUM_TOLERANCE, 1, 10_000),
{
    lemma2_to64();
    lemma_pow2_adds(64, 22);
    lemma_pow2_adds(64, 2);
    assert(pow2(86) == 0x40_0000_0000_0000_0000_0000);
    assert(pow2(66) == 0x4_0000_0000_0000_0000);
    lemma_rounds(EMPTY_SUM, 1, 10_000_000_000, 86);
    lemma_rounds(SUM_TOLERANCE, 1, 10_000, 66);
}

/// The verdict on a composition whose fractions sum to `sum`, `deviation`
/// being that sum less one.
///
/// A sum of magnitude below `EMPTY_SUM` is that of an empty composition.
/// Otherwise the sum is bad where the magnitude of the deviation exceeds
/// `SUM_TOLERANCE`.
pub open spec fn spec_check(sum: u64, deviation: u64) -> Result<(), CompositionError> {
    if spec_lt(abs(sum), EMPTY_SUM) {
        Err(CompositionError::Empty)
    } else if spec_gt(abs(deviation), SUM_TOLERANCE) {
        Err(CompositionError::BadSum)
    } else {
        Ok(())
    }
}

/// Whether a composition whose fractions sum to `sum` can be scaled to sum to
/// one: the sum is above zero.
pub open spec fn spec_normalizable(sum: u64) -> Result<(), CompositionError> {
    if spec_gt(sum, ZERO) {
        Ok(())
    } else {
        Err(CompositionError::Empty)
    }
}

/// Checks a composition by the sum of its fractions and by `deviation`, that
/// sum less one.
#[verifier::when_used_as_spec(spec_check)]
pub fn check(sum: u64, deviation: u64) -> (r: Result<(), CompositionError>)
    ensures
        r == spec_check(sum, deviation),
        r == Err::<(), CompositionError>(CompositionError::Empty) <==> spec_lt(abs(sum), EMPTY_SUM),
        r == Err::<(), CompositionError>(CompositionError::BadSum) <==> !spec_lt(
            abs(sum),
            EMPTY_SUM,
        ) && spec_gt(abs(deviation), SUM_TOLERANCE),
{
    if lt(abs(sum), EMPTY_SUM) {
        Err(CompositionError::Empty)
    } else if gt(abs(deviation), SUM_TOLERANCE) {
        Err(CompositionError::BadSum)
    } else {
        Ok(())
    }
}

/// Tells whether a composition can be normalized, by the sum of its
/// fractions.
#[verifier::when_used_as_spec(spec_normalizable)]
pub fn normalizable(sum: u64) -> (r: Result<(), CompositionError>)
    ensures
        r == spec_normalizable(sum),
        r is Ok <==> spec_gt(sum, ZERO),
{
    if gt(sum, ZERO) {
        Ok(())
    } else {
        Err(CompositionError::Empty)
    }
}

} // verus!
