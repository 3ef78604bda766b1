//! Verified decision core of an AGA8 natural-gas calculator.
//!
//! The DETAIL and GERG-2008 equations of state are evaluated in IEEE-754
//! double precision. This crate holds everything about that evaluation that is
//! a decision rather than an arithmetic operation: how two doubles compare,
//! the thresholds the equations are guarded by, the term table of the DETAIL
//! equation, the memoisation policy, and the state machines of the two density
//! solvers. A double is carried as its 64-bit encoding, see [`binary64`].

use vstd::prelude::*;

pub mod binary64;
pub mod composition;
pub mod detail;
pub mod gerg2008;
pub mod ideal;
pub mod limits;
pub mod memo;
pub mod mixture;
pub mod properties;
pub mod solver;

verus! {

/// Error conditions of a density calculation.
#[derive(Clone, Copy, Debug, PartialEq, Eq, Structural)]
pub enum DensityError {
    /// The iteration did not arrive at a density.
    IterationFail,
    /// The pressure is too low to solve for a density.
    PressureTooLow,
}

} // verus!
