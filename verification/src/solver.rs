//! What the two density solvers have in common.
//!
//! Both solve `P(T, D) = P` for the density `D` by Newton's method on the
//! logarithm of the molar volume, `vlog = -ln D`, with `ln P` as the known
//! quantity. The arithmetic is the caller's; the tests that steer the
//! iteration are here.

use vstd::prelude::*;
use vstd::arithmetic::power2::{lemma_pow2_adds, lemma2_to64, lemma2_to64_rest, pow2};
use crate::binary64::{
    abs, ge, is_nan, is_ratio, le, lemma_is_ratio, lemma_rounds, lt, rounds, spec_ge, spec_le,
    spec_lt, value, ZERO,
};
use crate::DensityError;

verus! {

/// Encoding of 1e-7: a Newton step smaller than this in magnitude ends the
/// iteration.
pub const TOLERANCE: u64 = 0x3E7A_D7F2_9ABC_AF48;

/// Encoding of -7.0, the smallest admissible log-volume.
pub const LOG_VOLUME_MIN: u64 = 0xC01C_0000_0000_0000;

/// Encoding of 100.0, the largest admissible log-volume.
pub const LOG_VOLUME_MAX: u64 = 0x4059_0000_0000_0000;

/// The three constants encode 1e-7 (rounded), -7 and 100 (both exact).
pub proof fn lemma_solver_constants()
    ensures
        rounds(TOLERANCE, 1, 10_000_000),
        is_ratio(LOG_VOLUME_MIN, -7, 1),
        is_ratio(LOG_VOLUME_MAX, 100, 1),
{
    lemma2_to64();
    lemma2_to64_rest();
    lemma_pow2_adds(64, 12);
    assert(pow2(76) == 0x1000_0000_0000_0000_0000);
    lemma_rounds(TOLERANCE, 1, 10_000_000, 76);
    lemma_is_ratio(LOG_VOLUME_MIN, -7, 1, 50);
    lemma_is_ratio(LOG_VOLUME_MAX, 100, 1, 46);
}

/// A log-volume is admissible exactly when it is a number from -7 to 100.
pub proof fn lemma_admissible(vlog: u64)
    ensures
        spec_admissible(vlog) <==> !is_nan(vlog) && -7 * pow2(1074) <= value(vlog) <= 100 * pow2(
            1074,
        ),
{
    lemma_solver_constants();
}

/// How the density is set before the first evaluation.
#[derive(Clone, Copy, Debug, PartialEq, Eq, Structural)]
pub enum Seed {
    /// To the ideal-gas estimate `P / (R T)`.
    IdealGas,
    /// To the pseudo-critical density of the mixture times the number that
    /// the field encodes.
    PseudoCritical(u64),
    /// To the magnitude of the density that the caller left in place.
    Magnitude,
}

/// What follows the evaluation of the pressure at the current log-volume.
#[derive(Clone, Copy, Debug, PartialEq, Eq, Structural)]
pub enum Move {
    /// The state is unstable: add the number that the field encodes to the
    /// log-volume and evaluate again.
    Shift(u64),
    /// Take a Newton step: subtract `(ln Pe - ln P) Pe / (-D dP/dD)` from the
    /// log-volume, `Pe` being the pressure of the evaluation.
    Newton,
}

/// What a failed solve leaves in the density slot.
#[derive(Clone, Copy, Debug, PartialEq, Eq, Structural)]
pub enum Fallback {
    /// The ideal-gas estimate `P / (R T)`.
    IdealGas,
}

/// The density that a solve leaves behind when it fails with `error`: the
/// ideal-gas estimate, whether the pressure was too low to begin or the
/// iteration failed. The iterate at which the solve gave up is never left.
pub open spec fn spec_fallback(error: DensityError) -> Fallback {
    Fallback::IdealGas
}

/// Whether a log-volume lies in the admissible range from -7 to 100, ends
/// included. A NaN does not.
pub open spec fn spec_admissible(vlog: u64) -> bool {
    spec_ge(vlog, LOG_VOLUME_MIN) && spec_le(vlog, LOG_VOLUME_MAX)
}

/// Whether an evaluation shows a mechanically unstable state: the slope
/// dP/dD or the pressure itself is zero or less. A NaN is neither.
pub open spec fn spec_two_phase(p: u64, dp_dd: u64) -> bool {
    spec_le(dp_dd, ZERO) || spec_le(p, ZERO)
}

/// Whether a Newton step is small enough to stop: its magnitude is below
/// `TOLERANCE`. A NaN is not.
pub open spec fn spec_converged(vdiff: u64) -> bool {
    spec_lt(abs(vdiff), TOLERANCE)
}

/// The density to leave behind on `error`.
#[verifier::when_used_as_spec(spec_fallback)]
pub fn fallback(error: DensityError) -> (f: Fallback)
    ensures
        f == spec_fallback(error),
        f == Fallback::IdealGas,
{
    Fallback::IdealGas
}

/// Whether the log-volume `vlog` is admissible.
#[verifier::when_used_as_spec(spec_admissible)]
pub fn admissible(vlog: u64) -> (r: bool)
    ensures
        r == spec_admissible(vlog),
{
    ge(vlog, LOG_VOLUME_MIN) && le(vlog, LOG_VOLUME_MAX)
}

/// Whether the pressure `p` and slope `dp_dd` of an evaluation show an
/// unstable state.
#[verifier::when_used_as_spec(spec_two_phase)]
pub fn two_phase(p: u64, dp_dd: u64) -> (r: bool)
    ensures
        r == spec_two_phase(p, dp_dd),
{
    le(dp_dd, ZERO) || le(p, ZERO)
}

/// Whether the Newton step `vdiff` ends the iteration.
#[verifier::when_used_as_spec(spec_converged)]
pub fn converged(vdiff: u64) -> (r: bool)
    ensures
        r == spec_converged(vdiff),
{
    lt(abs(vdiff), TOLERANCE)
}

} // verus!
