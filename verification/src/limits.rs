//! The smallest magnitude that the equations of state treat as non-zero.

use vstd::prelude::*;
use vstd::arithmetic::power2::{pow2, lemma_pow2_adds, lemma2_to64, lemma2_to64_rest};
use crate::binary64::{gt, lemma_rounds, rounds, spec_gt};

verus! {

/// Encoding of 1e-15: pressures, densities and mole fractions that do not
/// exceed it count as zero.
pub const EPSILON: u64 = 0x3CD2_03AF_9EE7_5616;

/// `EPSILON` is the double that the decimal literal 1e-15 rounds to.
pub proof fn lemma_epsilon()
    ensures
        rounds(EPSILON, 1, 1_000_000_000_000_000),
{
    lemma2_to64();
    lemma2_to64_rest();
    lemma_pow2_adds(64, 38);
    assert(pow2(102) == 0x40_0000_0000_0000_0000_0000_0000);
    lemma_rounds(EPSILON, 1, 1_000_000_000_000_000, 102);
}

/// Whether `x` is significant: above `EPSILON`. Only then is it divided by.
pub open spec fn spec_significant(x: u64) -> bool {
    spec_gt(x, EPSILON)
}

/// Whether `x` is above `EPSILON`.
#[verifier::when_used_as_spec(spec_significant)]
pub fn significant(x: u64) -> (r: bool)
    ensures
        r == spec_significant(x),
{
    gt(x, EPSILON)
}

} // verus!
