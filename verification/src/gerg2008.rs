//! Decisions of the GERG-2008 equation of state.

use vstd::prelude::*;
use vstd::arithmetic::power2::{lemma2_to64, lemma2_to64_rest};
use crate::binary64::{
    abs, gt, is_nan, is_ratio, le, lemma_is_ratio, lemma_magnitude_zero,
    lemma_rounds, lt, rounds, spec_gt, spec_le, spec_lt, value, ZERO,
};
use crate::limits::EPSILON;
use crate::solver::{
    admissible, converged, spec_admissible, spec_converged, spec_two_phase, two_phase, Move, Seed,
};
use crate::DensityError;

verus! {

/// Number of evaluations after which the density solver gives up.
pub const ITERATIONS: u8 = 50;

/// Number of times the density solver starts over before it gives up.
pub const RESTARTS: u8 = 3;

/// Encoding of 3.0: the first restart, in the liquid region, is from three
/// times the pseudo-critical density.
pub const LIQUID: u64 = 0x4008_0000_0000_0000;

/// Encoding of 2.5: the second restart, between the liquid and the critical
/// region.
pub const INTERMEDIATE: u64 = 0x4004_0000_0000_0000;

/// Encoding of 2.0: the third restart, in the critical region.
pub const CRITICAL: u64 = 0x4000_0000_0000_0000;

/// Encoding of 0.1: the shift out of an unstable state in the first five
/// iterations.
pub const COARSE: u64 = 0x3FB9_9999_9999_999A;

/// Encoding of 0.1 / 2: the shift from the sixth iteration on.
pub const MEDIUM: u64 = 0x3FA9_9999_9999_999A;

/// Encoding of 0.1 / 2 / 5: the shift in iterations eleven to nineteen.
pub const FINE: u64 = 0x3F84_7AE1_47AE_147B;

/// Encoding of -0.1.
pub const NEG_COARSE: u64 = 0xBFB9_9999_9999_999A;

/// Encoding of -0.1 / 2.
pub const NEG_MEDIUM: u64 = 0xBFA9_9999_9999_999A;

/// Encoding of -0.1 / 2 / 5.
pub const NEG_FINE: u64 = 0xBF84_7AE1_47AE_147B;

/// Number of the component, counted from one, whose temperature exponents
/// the generalized components share: propane.
pub const REFERENCE: usize = 5;

/// Number of terms in the equation of a generalized component.
pub const GENERALIZED_TERMS: usize = 12;

/// Whether the component of number `i`, counted from one, has the
/// generalized twelve-term equation: all but methane, nitrogen, carbon
/// dioxide, ethane, hydrogen, water and helium.
pub open spec fn spec_generalized(i: usize) -> bool {
    i > 4 && i != 15 && i != 18 && i != 20
}

/// Whether component `i`, counted from one, takes its temperature powers
/// from those of the reference component.
#[verifier::when_used_as_spec(spec_generalized)]
pub fn generalized(i: usize) -> (r: bool)
    ensures
        r == spec_generalized(i),
{
    i > 4 && i != 15 && i != 18 && i != 20
}

/// The restart factors encode 3, 5/2 and 2 exactly.
pub proof fn lemma_restart_factors()
    ensures
        is_ratio(LIQUID, 3, 1),
        is_ratio(INTERMEDIATE, 5, 2),
        is_ratio(CRITICAL, 2, 1),
{
    lemma2_to64();
    lemma2_to64_rest();
    lemma_is_ratio(LIQUID, 3, 1, 51);
    lemma_is_ratio(INTERMEDIATE, 5, 2, 51);
    lemma_is_ratio(CRITICAL, 2, 1, 51);
}

/// The shifts are the doubles nearest to 1/10, 1/20 and 1/100 and their
/// negatives.
pub proof fn lemma_shifts()
    ensures
        rounds(COARSE, 1, 10),
        rounds(MEDIUM, 1, 20),
        rounds(FINE, 1, 100),
        rounds(NEG_COARSE, -1, 10),
        rounds(NEG_MEDIUM, -1, 20),
        rounds(NEG_FINE, -1, 100),
{
    lemma2_to64();
    lemma2_to64_rest();
    lemma_rounds(COARSE, 1, 10, 56);
    lemma_rounds(MEDIUM, 1, 20, 57);
    lemma_rounds(FINE, 1, 100, 59);
    lemma_rounds(NEG_COARSE, -1, 10, 56);
    lemma_rounds(NEG_MEDIUM, -1, 20, 57);
    lemma_rounds(NEG_FINE, -1, 100, 59);
}

/// How a solve begins when the caller's density slot holds `d`.
///
/// A density of magnitude above `EPSILON` is an estimate left by the caller
/// or by an earlier solve, to be used by its magnitude. Any other density is
/// replaced: by three times the pseudo-critical density where `flag` is 2,
/// which asks for a liquid root, else by the ideal-gas estimate.
pub open spec fn spec_start(d: u64, flag: i32) -> Seed {
    if spec_gt(abs(d), EPSILON) {
        Seed::Magnitude
    } else if flag == 2 {
        Seed::PseudoCritical(LIQUID)
    } else {
        Seed::IdealGas
    }
}

/// Chooses the first density of a solve.
#[verifier::when_used_as_spec(spec_start)]
pub fn start(d: u64, flag: i32) -> (s: Seed)
    ensures
        s == spec_start(d, flag),
{
    if gt(abs(d), EPSILON) {
        Seed::Magnitude
    } else if flag == 2 {
        Seed::PseudoCritical(LIQUID)
    } else {
        Seed::IdealGas
    }
}

/// The factor of the pseudo-critical density from which restart number
/// `count` begins.
pub open spec fn restart_factor(count: int) -> u64 {
    if count <= 1 {
        LIQUID
    } else if count == 2 {
        INTERMEDIATE
    } else {
        CRITICAL
    }
}

/// The shift of the log-volume out of an unstable state in iteration `it`:
/// a tenth in the first five iterations, a twentieth from the sixth on, but a
/// hundredth in iterations eleven to nineteen; negative where `down` is set.
pub open spec fn shift(it: int, down: bool) -> u64 {
    if 10 < it < 20 {
        if down {
            NEG_FINE
        } else {
            FINE
        }
    } else if it > 5 {
        if down {
            NEG_MEDIUM
        } else {
            MEDIUM
        }
    } else {
        if down {
            NEG_COARSE
        } else {
            COARSE
        }
    }
}

/// Whether a flag asks to check a converged state for stability.
pub open spec fn spec_verifies(flag: i32) -> bool {
    flag > 0
}

/// Whether the properties at a converged state show a stable single phase:
/// none of pressure, dP/dD, d2P/dTdD, Cv, Cp and speed of sound is zero or
/// less. A NaN among them does not count against the state.
pub open spec fn spec_stable(p: u64, dp_dd: u64, d2p_dtd: u64, cv: u64, cp: u64, w: u64) -> bool {
    !(spec_le(p, ZERO) || spec_le(dp_dd, ZERO) || spec_le(d2p_dtd, ZERO) || spec_le(cv, ZERO)
        || spec_le(cp, ZERO) || spec_le(w, ZERO))
}

/// Whether `flag` asks to check a converged state for stability.
#[verifier::when_used_as_spec(spec_verifies)]
pub fn verifies(flag: i32) -> (r: bool)
    ensures
        r == spec_verifies(flag),
{
    flag > 0
}

/// Judges the properties computed at a converged state.
///
/// `Err` rejects the state: the density is to be set to the ideal-gas
/// estimate and the error returned.
pub fn verify(p: u64, dp_dd: u64, d2p_dtd: u64, cv: u64, cp: u64, w: u64) -> (r: Result<
    (),
    DensityError,
>)
    ensures
        r is Ok <==> spec_stable(p, dp_dd, d2p_dtd, cv, cp, w),
        r is Err ==> r == Err::<(), DensityError>(DensityError::IterationFail),
{
    if le(p, ZERO) || le(dp_dd, ZERO) || le(d2p_dtd, ZERO) || le(cv, ZERO) || le(cp, ZERO) || le(
        w,
        ZERO,
    ) {
        Err(DensityError::IterationFail)
    } else {
        Ok(())
    }
}

/// How an iteration is entered.
#[derive(Clone, Copy, Debug, PartialEq, Eq, Structural)]
pub enum Entry {
    /// Evaluate the pressure at the current log-volume.
    Evaluate,
    /// Start over: set the density to the pseudo-critical density times the
    /// number that the field encodes, the log-volume to match, and evaluate.
    Restart(u64),
}

/// Progress of one density solve.
#[derive(Clone, Copy, Debug, PartialEq, Eq, Structural)]
pub struct Solver {
    /// Iterations entered so far.
    pub iterations: u8,
    /// Restarts so far.
    pub restarts: u8,
    /// Whether the last Newton step converged on a state of negative slope.
    pub suspect: bool,
}

impl Solver {
    /// Whether the iteration about to be entered has to start over: the
    /// log-volume `vlog` has left the admissible range, the iteration is the
    /// twentieth, thirtieth or fortieth, or the state is suspect.
    pub open spec fn restarts_at(self, vlog: u64) -> bool {
        ||| !spec_admissible(vlog)
        ||| self.iterations + 1 == 20
        ||| self.iterations + 1 == 30
        ||| self.iterations + 1 == 40
        ||| self.suspect
    }

    /// How the next iteration is entered at the log-volume `vlog`, if it is:
    /// not once `ITERATIONS` have been entered, nor where it would take one
    /// restart more than `RESTARTS`.
    pub open spec fn entry(self, vlog: u64) -> Result<Entry, DensityError> {
        if self.iterations >= ITERATIONS {
            Err(DensityError::IterationFail)
        } else if !self.restarts_at(vlog) {
            Ok(Entry::Evaluate)
        } else if self.restarts >= RESTARTS {
            Err(DensityError::IterationFail)
        } else {
            Ok(Entry::Restart(restart_factor(self.restarts + 1)))
        }
    }

    /// The solver after it was asked to enter an iteration at `vlog`. An
    /// iteration entered is counted, and so is a restart; looking at the
    /// suspicion clears it.
    pub open spec fn entered(self, vlog: u64) -> Solver {
        if self.iterations >= ITERATIONS {
            self
        } else if !self.restarts_at(vlog) {
            Solver { iterations: (self.iterations + 1) as u8, ..self }
        } else if self.restarts >= RESTARTS {
            Solver { suspect: false, ..self }
        } else {
            Solver {
                iterations: (self.iterations + 1) as u8,
                restarts: (self.restarts + 1) as u8,
                suspect: false,
            }
        }
    }

    /// What follows an evaluation, in the current iteration, that gave the
    /// pressure `p` and the slope `dp_dd` at the density `d`, for a mixture
    /// of pseudo-critical density `dcx`.
    ///
    /// From an unstable state the log-volume is shifted away from that of the
    /// pseudo-critical density, down where the density is above it and up
    /// otherwise, by a step whose size depends on the iteration.
    pub open spec fn direction(self, p: u64, dp_dd: u64, d: u64, dcx: u64) -> Move {
        if spec_two_phase(p, dp_dd) {
            Move::Shift(shift(self.iterations as int, spec_gt(d, dcx)))
        } else {
            Move::Newton
        }
    }

    /// Whether the Newton step `vdiff`, taken where the slope was `dp_dd`,
    /// ends the solve: it is below the tolerance and the slope is not
    /// negative.
    pub open spec fn settles(self, vdiff: u64, dp_dd: u64) -> bool {
        spec_converged(vdiff) && !spec_lt(dp_dd, ZERO)
    }

    /// The solver after the Newton step `vdiff`, taken where the slope was
    /// `dp_dd`: suspect where the step converged on a negative slope.
    pub open spec fn settled(self, vdiff: u64, dp_dd: u64) -> Solver {
        if spec_converged(vdiff) && spec_lt(dp_dd, ZERO) {
            Solver { suspect: true, ..self }
        } else {
            self
        }
    }

    /// A solver at the start of a solve.
    pub fn new() -> (s: Solver)
        ensures
            s == (Solver { iterations: 0, restarts: 0, suspect: false }),
    {
        Solver { iterations: 0, restarts: 0, suspect: false }
    }

    /// Enters the next iteration, at the log-volume `vlog`.
    ///
    /// `Err` ends the solve: the density is to be set to the ideal-gas
    /// estimate and the error returned.
    pub fn advance(&mut self, vlog: u64) -> (r: Result<Entry, DensityError>)
        ensures
            r == old(self).entry(vlog),
            *final(self) == old(self).entered(vlog),
    {
        if self.iterations >= ITERATIONS {
            return Err(DensityError::IterationFail);
        }
        let it: u8 = self.iterations + 1;
        if !admissible(vlog) || it == 20 || it == 30 || it == 40 || self.suspect {
            self.suspect = false;
            if self.restarts >= RESTARTS {
                return Err(DensityError::IterationFail);
            }
            self.iterations = it;
            self.restarts = self.restarts + 1;
            let factor = if self.restarts == 1 {
                LIQUID
            } else if self.restarts == 2 {
                INTERMEDIATE
            } else {
                CRITICAL
            };
            Ok(Entry::Restart(factor))
        } else {
            self.iterations = it;
            Ok(Entry::Evaluate)
        }
    }

    /// Chooses the move that follows an evaluation.
    pub fn direct(&self, p: u64, dp_dd: u64, d: u64, dcx: u64) -> (m: Move)
        ensures
            m == self.direction(p, dp_dd, d, dcx),
    {
        if two_phase(p, dp_dd) {
            let it: u8 = self.iterations;
            let down = gt(d, dcx);
            if it > 10 && it < 20 {
                Move::Shift(if down { NEG_FINE } else { FINE })
            } else if it > 5 {
                Move::Shift(if down { NEG_MEDIUM } else { MEDIUM })
            } else {
                Move::Shift(if down { NEG_COARSE } else { COARSE })
            }
        } else {
            Move::Newton
        }
    }

    /// Judges a Newton step: `true` ends the iteration with the log-volume
    /// that the step led to.
    pub fn settle(&mut self, vdiff: u64, dp_dd: u64) -> (done: bool)
        ensures
            done == old(self).settles(vdiff, dp_dd),
            *final(self) == old(self).settled(vdiff, dp_dd),
    {
        if converged(vdiff) {
            if lt(dp_dd, ZERO) {
                self.suspect = true;
                false
            } else {
                true
            }
        } else {
            false
        }
    }
}

/// What a solve hands its solver, in the order of the calls.
#[derive(Clone, Copy, Debug, PartialEq, Eq, Structural)]
pub enum Input {
    /// The log-volume at which the next iteration is to be entered.
    Enter(u64),
    /// A Newton step and the slope it was taken at.
    Step(u64, u64),
}

/// The solver after one input.
pub open spec fn fed(s: Solver, input: Input) -> Solver {
    match input {
        Input::Enter(vlog) => s.entered(vlog),
        Input::Step(vdiff, dp_dd) => s.settled(vdiff, dp_dd),
    }
}

/// The number of iterations entered when a solver in state `s` is handed
/// `inputs` in turn.
pub open spec fn evaluations(s: Solver, inputs: Seq<Input>) -> nat
    decreases inputs.len(),
{
    if inputs.len() == 0 {
        0
    } else {
        let rest = evaluations(fed(s, inputs[0]), inputs.drop_first());
        match inputs[0] {
            Input::Enter(vlog) if s.entry(vlog) is Ok => rest + 1,
            _ => rest,
        }
    }
}

/// The number of restarts made when a solver in state `s` is handed `inputs`
/// in turn.
pub open spec fn restarts(s: Solver, inputs: Seq<Input>) -> nat
    decreases inputs.len(),
{
    if inputs.len() == 0 {
        0
    } else {
        let rest = restarts(fed(s, inputs[0]), inputs.drop_first());
        match inputs[0] {
            Input::Enter(vlog) if s.entry(vlog) matches Ok(Entry::Restart(_)) => rest + 1,
            _ => rest,
        }
    }
}

/// Whatever the arithmetic comes to, a solve evaluates the pressure at most
/// `ITERATIONS` times and starts over at most `RESTARTS` times.
pub proof fn lemma_budget(s: Solver, inputs: Seq<Input>)
    requires
        s.iterations <= ITERATIONS,
        s.restarts <= RESTARTS,
    ensures
        s.iterations + evaluations(s, inputs) <= ITERATIONS,
        s.restarts + restarts(s, inputs) <= RESTARTS,
    decreases inputs.len(),
{
    if inputs.len() > 0 {
        lemma_budget(fed(s, inputs[0]), inputs.drop_first());
    }
}

/// A shift out of an unstable state lowers the log-volume exactly where the
/// density is above the pseudo-critical one, and is never zero.
pub proof fn lemma_shift_direction(s: Solver, p: u64, dp_dd: u64, d: u64, dcx: u64)
    ensures
        s.direction(p, dp_dd, d, dcx) matches Move::Shift(by) ==> {
            &&& !is_nan(by)
            &&& value(by) != 0
            &&& value(by) < 0 <==> spec_gt(d, dcx)
        },
{
    lemma_magnitude_zero(COARSE);
    lemma_magnitude_zero(MEDIUM);
    lemma_magnitude_zero(FINE);
    lemma_magnitude_zero(NEG_COARSE);
    lemma_magnitude_zero(NEG_MEDIUM);
    lemma_magnitude_zero(NEG_FINE);
}

/// A Newton step is only taken where the slope is above zero or no number,
/// so judging it at that slope never leaves the solver suspect: a step below
/// the tolerance always ends the solve.
pub proof fn lemma_newton_settles(s: Solver, p: u64, dp_dd: u64, d: u64, dcx: u64, vdiff: u64)
    requires
        s.direction(p, dp_dd, d, dcx) == Move::Newton,
    ensures
        !spec_lt(dp_dd, ZERO),
        s.settled(vdiff, dp_dd) == s,
        s.settles(vdiff, dp_dd) == spec_converged(vdiff),
{
}

/// The restarts of a solve begin from three, two and a half and two times
/// the pseudo-critical density, in this order.
pub proof fn lemma_restart_order(s: Solver, vlog: u64)
    ensures
        s.entry(vlog) matches Ok(Entry::Restart(factor)) ==> {
            &&& s.restarts < RESTARTS
            &&& s.entered(vlog).restarts == s.restarts + 1
            &&& s.restarts == 0 ==> factor == LIQUID
            &&& s.restarts == 1 ==> factor == INTERMEDIATE
            &&& s.restarts == 2 ==> factor == CRITICAL
        },
{
}

} // verus!
