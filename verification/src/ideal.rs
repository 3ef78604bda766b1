//! Guards of the ideal-gas Helmholtz energy.
//!
//! The ideal-gas part takes the logarithm of the density and, for each
//! component, adds up to four Einstein oscillator terms, alternately of the
//! hyperbolic sine and the hyperbolic cosine of a characteristic temperature
//! over the temperature.

use vstd::prelude::*;
use crate::binary64::{gt, is_nan, lemma_magnitude_order, spec_ge, spec_gt, value, ZERO};
use crate::limits::EPSILON;

verus! {

/// Number of oscillator terms of a component.
pub const OSCILLATORS: usize = 4;

/// The hyperbolic function of an oscillator term.
#[derive(Clone, Copy, Debug, PartialEq, Eq, Structural)]
pub enum Hyperbolic {
    Sinh,
    Cosh,
}

/// The density whose logarithm enters the ideal-gas part: `d` itself where it
/// is above `EPSILON`, else `EPSILON`.
pub open spec fn spec_floored(d: u64) -> u64 {
    if spec_gt(d, EPSILON) {
        d
    } else {
        EPSILON
    }
}

/// The hyperbolic function of oscillator `k` of a component: the sine for the
/// first and third, the cosine for the second and fourth.
pub open spec fn spec_oscillator(k: usize) -> Hyperbolic {
    if k % 2 == 0 {
        Hyperbolic::Sinh
    } else {
        Hyperbolic::Cosh
    }
}

/// Floors a density at `EPSILON`, so that its logarithm is taken of a
/// positive number whatever the density is.
#[verifier::when_used_as_spec(spec_floored)]
pub fn floored(d: u64) -> (r: u64)
    ensures
        r == spec_floored(d),
        !is_nan(r),
        spec_ge(r, EPSILON),
        value(r) > 0,
{
    proof {
        lemma_magnitude_order(EPSILON, ZERO);
    }
    if gt(d, EPSILON) {
        d
    } else {
        EPSILON
    }
}

/// The hyperbolic function of oscillator `k`.
#[verifier::when_used_as_spec(spec_oscillator)]
pub fn oscillator(k: usize) -> (h: Hyperbolic)
    ensures
        h == spec_oscillator(k),
{
    if k % 2 == 0 {
        Hyperbolic::Sinh
    } else {
        Hyperbolic::Cosh
    }
}

} // verus!
