//! Decisions of the DETAIL equation of state.

use vstd::prelude::*;
use vstd::arithmetic::power2::{lemma2_to64, lemma2_to64_rest};
use crate::binary64::{abs, gt, lemma_rounds, lt, rounds, spec_gt, spec_lt};
use crate::limits::EPSILON;
use crate::solver::{admissible, spec_admissible, spec_two_phase, two_phase, Move, Seed};
use crate::DensityError;

pub mod terms;

verus! {

/// Number of evaluations after which the density solver gives up.
pub const ITERATIONS: u8 = 20;

/// Encoding of 0.1: what is added to the log-volume to leave an unstable
/// state.
pub const SHIFT: u64 = 0x3FB9_9999_9999_999A;

/// `SHIFT` is the double that the decimal literal 0.1 rounds to.
pub proof fn lemma_shift()
    ensures
        rounds(SHIFT, 1, 10),
{
    lemma2_to64();
    lemma2_to64_rest();
    lemma_rounds(SHIFT, 1, 10, 56);
}

/// How a solve for the pressure `p` begins when the caller's density slot
/// holds `d`.
///
/// A pressure of magnitude below `EPSILON` is refused; the density is then to
/// be set to the ideal-gas estimate, as on every failure. Otherwise a density
/// of magnitude above `EPSILON` is an estimate left by the caller or by an
/// earlier solve, to be used by its magnitude, and any other density is
/// replaced by the ideal-gas estimate.
pub open spec fn spec_start(p: u64, d: u64) -> Result<Seed, DensityError> {
    if spec_lt(abs(p), EPSILON) {
        Err(DensityError::PressureTooLow)
    } else if spec_gt(abs(d), EPSILON) {
        Ok(Seed::Magnitude)
    } else {
        Ok(Seed::IdealGas)
    }
}

/// Begins a solve: refuses a vanishing pressure and chooses the first density.
#[verifier::when_used_as_spec(spec_start)]
pub fn start(p: u64, d: u64) -> (r: Result<Seed, DensityError>)
    ensures
        r == spec_start(p, d),
        r is Err <==> spec_lt(abs(p), EPSILON),
{
    if lt(abs(p), EPSILON) {
        Err(DensityError::PressureTooLow)
    } else if gt(abs(d), EPSILON) {
        Ok(Seed::Magnitude)
    } else {
        Ok(Seed::IdealGas)
    }
}

/// What follows an evaluation that gave the pressure `p` and the slope
/// `dp_dd`: a fixed shift of the log-volume out of an unstable state, else a
/// Newton step.
pub open spec fn spec_direct(p: u64, dp_dd: u64) -> Move {
    if spec_two_phase(p, dp_dd) {
        Move::Shift(SHIFT)
    } else {
        Move::Newton
    }
}

/// Chooses the move that follows an evaluation.
#[verifier::when_used_as_spec(spec_direct)]
pub fn direct(p: u64, dp_dd: u64) -> (m: Move)
    ensures
        m == spec_direct(p, dp_dd),
{
    if two_phase(p, dp_dd) {
        Move::Shift(SHIFT)
    } else {
        Move::Newton
    }
}

/// Progress of one density solve.
#[derive(Clone, Copy, Debug, PartialEq, Eq, Structural)]
pub struct Solver {
    /// Evaluations so far.
    pub iterations: u8,
}

impl Solver {
    /// Whether an evaluation at the log-volume `vlog` goes ahead: the budget
    /// of `ITERATIONS` is not used up and `vlog` is in the admissible range.
    pub open spec fn proceeds(self, vlog: u64) -> bool {
        self.iterations < ITERATIONS && spec_admissible(vlog)
    }

    /// The solver after it was asked for an evaluation at `vlog`.
    pub open spec fn after(self, vlog: u64) -> Solver {
        if self.proceeds(vlog) {
            Solver { iterations: (self.iterations + 1) as u8 }
        } else {
            self
        }
    }

    /// A solver at the start of a solve.
    pub fn new() -> (s: Solver)
        ensures
            s.iterations == 0,
    {
        Solver { iterations: 0 }
    }

    /// Asks for one more evaluation, at the log-volume `vlog`.
    ///
    /// `Ok` lets it go ahead and counts it. `Err` ends the solve: the density is to
    /// be set to the ideal-gas estimate and the error returned.
    pub fn advance(&mut self, vlog: u64) -> (r: Result<(), DensityError>)
        ensures
            r is Ok <==> old(self).proceeds(vlog),
            r is Err ==> r == Err::<(), DensityError>(DensityError::IterationFail),
            *final(self) == old(self).after(vlog),
    {
        if self.iterations < ITERATIONS && admissible(vlog) {
            self.iterations = self.iterations + 1;
            Ok(())
        } else {
            Err(DensityError::IterationFail)
        }
    }
}

/// The number of evaluations made when a solver in state `s` is asked for
/// one at each of `vlogs` in turn.
pub open spec fn evaluations(s: Solver, vlogs: Seq<u64>) -> nat
    decreases vlogs.len(),
{
    if vlogs.len() == 0 {
        0
    } else {
        let rest = evaluations(s.after(vlogs[0]), vlogs.drop_first());
        if s.proceeds(vlogs[0]) {
            rest + 1
        } else {
            rest
        }
    }
}

/// Whatever log-volumes the iteration runs through, a solve evaluates the
/// pressure at most `ITERATIONS` times.
pub proof fn lemma_budget(s: Solver, vlogs: Seq<u64>)
    requires
        s.iterations <= ITERATIONS,
    ensures
        s.iterations + evaluations(s, vlogs) <= ITERATIONS,
    decreases vlogs.len(),
{
    if vlogs.len() > 0 {
        lemma_budget(s.after(vlogs[0]), vlogs.drop_first());
    }
}

} // verus!
