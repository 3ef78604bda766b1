//! When memoised intermediates are recomputed.
//!
//! The mixture terms depend on the composition alone and the temperature
//! terms on the temperature alone. Each set is kept until an input that it
//! depends on has moved by more than a threshold since it was computed. The
//! caller hands over the differences between the current and the remembered
//! inputs.

use vstd::prelude::*;
use vstd::arithmetic::power2::{lemma_pow2_adds, lemma2_to64, pow2};
use crate::binary64::{
    abs, gt, is_nan, lemma_magnitude_order, lemma_rounds, magnitude_bits, rounds, spec_gt, ZERO,
};

verus! {

/// Encoding of 1e-7: a change of no more than this is no change.
pub const THRESHOLD: u64 = 0x3E7A_D7F2_9ABC_AF48;

/// `THRESHOLD` is the double that the decimal literal 1e-7 rounds to.
pub proof fn lemma_threshold()
    ensures
        rounds(THRESHOLD, 1, 10_000_000),
{
    lemma2_to64();
    lemma_pow2_adds(64, 12);
    assert(pow2(76) == 0x1000_0000_0000_0000_0000);
    lemma_rounds(THRESHOLD, 1, 10_000_000, 76);
}

/// Whether an input that differs by `delta` from its remembered value has
/// moved: the magnitude of the difference exceeds `THRESHOLD`. A NaN
/// difference is no move.
pub open spec fn spec_moved(delta: u64) -> bool {
    spec_gt(abs(delta), THRESHOLD)
}

/// Whether one input has moved.
#[verifier::when_used_as_spec(spec_moved)]
pub fn moved(delta: u64) -> (r: bool)
    ensures
        r == spec_moved(delta),
{
    gt(abs(delta), THRESHOLD)
}

/// Whether any of several inputs has moved, so that what was computed from
/// them is stale.
pub fn stale(deltas: &[u64]) -> (r: bool)
    ensures
        r <==> exists|i: int| 0 <= i < deltas@.len() && spec_moved(#[trigger] deltas@[i]),
{
    let mut i: usize = 0;
    while i < deltas.len()
        invariant
            i <= deltas@.len(),
            forall|k: int| 0 <= k < i ==> !spec_moved(#[trigger] deltas@[k]),
        decreases deltas@.len() - i,
    {
        if moved(deltas[i]) {
            return true;
        }
        i = i + 1;
    }
    false
}

/// Inputs that are what they were leave everything fresh. The difference of
/// a double and itself is a zero or, where the double is an infinity or a
/// NaN, a NaN; neither is a move. So an evaluation that follows another on
/// the same inputs recomputes nothing.
pub proof fn lemma_unchanged_is_fresh(deltas: Seq<u64>)
    requires
        forall|i: int|
            0 <= i < deltas.len() ==> magnitude_bits(#[trigger] deltas[i]) == 0 || is_nan(
                deltas[i],
            ),
    ensures
        !exists|i: int| 0 <= i < deltas.len() && spec_moved(#[trigger] deltas[i]),
{
    lemma_magnitude_order(ZERO, THRESHOLD);
}

} // verus!
