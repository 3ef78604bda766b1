//! The fifty-eight terms of the DETAIL equation of state.
//!
//! Term `n` contributes `a_n * D^b_n * T^-u_n * exp(-D^k_n)` to the residual
//! Helmholtz energy, `D` being the reduced density, times at most one
//! composition factor (orientation, quadrupole, high temperature, dipole or
//! association). The first eighteen terms are linear in density and make up
//! the second virial coefficient; the terms from the thirteenth on carry a
//! mixture coefficient of their own. The tables here hold the integer part of
//! that description; the coefficients `a_n` are plain data of the caller.

use vstd::prelude::*;

verus! {

/// Number of terms in the equation.
pub const NTERMS: usize = 58;

/// The terms below this index make up the second virial coefficient.
pub const VIRIAL_END: usize = 18;

/// The terms from this index on carry a mixture coefficient.
pub const RESIDUAL_START: usize = 12;

/// Largest power of the reduced density in any term.
pub const MAX_DENSITY_POWER: u8 = 9;

/// Largest power of the reduced density inside the exponential of any term.
pub const MAX_EXPONENTIAL_POWER: u8 = 4;

/// `b_n`: power of the reduced density in each term.
pub const DENSITY_POWER: [u8; 58] = [
    1, 1, 1, 1, 1, 1, 1, 1, 1, 1, 1, 1, 1, 1, 1, 1, 1, 1, 2, 2, 2, 2, 2, 2, 2, 2, 2, 3, 3, 3, 3,
    3, 3, 3, 3, 3, 3, 4, 4, 4, 4, 4, 4, 4, 5, 5, 5, 5, 5, 6, 6, 7, 7, 8, 8, 8, 9, 9,
];

/// `k_n`: power of the reduced density inside the exponential of each term;
/// zero where the term has no exponential.
pub const EXPONENTIAL_POWER: [u8; 58] = [
    0, 0, 0, 0, 0, 0, 0, 0, 0, 0, 0, 0, 3, 2, 2, 2, 4, 4, 0, 0, 2, 2, 2, 4, 4, 4, 4, 0, 1, 1, 2,
    2, 3, 3, 4, 4, 4, 0, 0, 2, 2, 2, 4, 4, 0, 2, 2, 4, 4, 0, 2, 0, 2, 1, 2, 2, 2, 2,
];

/// Twice `u_n`, the power of the inverse temperature in each term. Every
/// `u_n` is a multiple of one half.
pub const TEMPERATURE_HALVES: [i8; 58] = [
    0, 1, 2, 7, -1, 9, 1, 15, 19, 12, 24, 25, -12, 4, 6, 4, 4, 22, -1, 1, 0, 8, 12, 42, 46, 44,
    -2, -1, 14, -2, 12, 8, 2, 18, -26, 42, 16, -1, 0, 4, 14, 18, 44, 46, 2, 18, 6, 16, 46, 3,
    10, -1, 8, 14, 6, 0, 2, 0,
];

/// Marks the terms that carry the high-temperature factor.
pub const HIGH_TEMPERATURE: [u8; 58] = [
    0, 0, 0, 0, 0, 0, 0, 0, 0, 0, 0, 0, 1, 0, 0, 0, 0, 0, 0, 0, 0, 0, 0, 0, 0, 0, 1, 0, 0, 1, 0,
    0, 0, 0, 1, 0, 0, 0, 0, 0, 0, 0, 0, 0, 0, 0, 0, 0, 0, 0, 0, 0, 0, 0, 0, 0, 0, 0,
];

/// Marks the terms that carry the orientation factor.
pub const ORIENTATION: [u8; 58] = [
    0, 0, 0, 0, 1, 1, 0, 0, 0, 0, 0, 0, 0, 0, 0, 0, 0, 0, 0, 0, 0, 0, 0, 0, 1, 0, 0, 0, 1, 0, 0,
    1, 1, 1, 0, 0, 0, 0, 0, 0, 0, 0, 0, 0, 0, 0, 0, 0, 0, 0, 1, 0, 0, 1, 0, 1, 0, 0,
];

/// Marks the terms that carry the quadrupole factor.
pub const QUADRUPOLE: [u8; 58] = [
    0, 0, 0, 0, 0, 0, 1, 0, 0, 0, 0, 0, 0, 0, 0, 1, 0, 0, 0, 0, 0, 0, 0, 0, 0, 1, 0, 1, 0, 0, 0,
    0, 0, 0, 0, 0, 1, 0, 0, 0, 0, 1, 0, 0, 0, 0, 1, 0, 1, 0, 0, 1, 0, 0, 0, 0, 0, 1,
];

/// Marks the terms that carry the dipole factor.
pub const DIPOLE: [u8; 58] = [
    0, 0, 0, 0, 0, 0, 0, 1, 1, 0, 0, 0, 0, 0, 0, 0, 0, 0, 0, 0, 0, 0, 0, 0, 0, 0, 0, 0, 0, 0, 0,
    0, 0, 0, 0, 0, 0, 0, 0, 0, 0, 0, 0, 0, 0, 0, 0, 0, 0, 0, 0, 0, 0, 0, 0, 0, 0, 0,
];

/// Marks the terms that carry the association factor.
pub const ASSOCIATION: [u8; 58] = [
    0, 0, 0, 0, 0, 0, 0, 0, 0, 1, 1, 1, 0, 0, 0, 0, 0, 0, 0, 0, 0, 0, 0, 0, 0, 0, 0, 0, 0, 0, 0,
    0, 0, 0, 0, 0, 0, 0, 0, 0, 0, 0, 0, 0, 0, 0, 0, 0, 0, 0, 0, 0, 0, 0, 0, 0, 0, 0,
];

/// The composition factor of a term.
#[derive(Clone, Copy, Debug, PartialEq, Eq, Structural)]
pub enum Factor {
    Unit,
    Orientation,
    Quadrupole,
    HighTemperature,
    Dipole,
    Association,
}

/// One term of the equation.
#[derive(Clone, Copy, Debug, PartialEq, Eq, Structural)]
pub struct Term {
    /// `b_n`.
    pub density_power: u8,
    /// `k_n`.
    pub exponential_power: u8,
    /// Twice `u_n`.
    pub temperature_halves: i8,
    pub factor: Factor,
    /// Whether the term is part of the second virial coefficient.
    pub virial: bool,
    /// Whether the term carries a mixture coefficient.
    pub residual: bool,
}

/// The composition factor that the five marker tables give term `n`.
pub open spec fn spec_factor(n: int) -> Factor {
    if ORIENTATION[n] == 1 {
        Factor::Orientation
    } else if QUADRUPOLE[n] == 1 {
        Factor::Quadrupole
    } else if HIGH_TEMPERATURE[n] == 1 {
        Factor::HighTemperature
    } else if DIPOLE[n] == 1 {
        Factor::Dipole
    } else if ASSOCIATION[n] == 1 {
        Factor::Association
    } else {
        Factor::Unit
    }
}

/// Term `n` as the tables describe it.
pub open spec fn spec_term(n: int) -> Term {
    Term {
        density_power: DENSITY_POWER[n],
        exponential_power: EXPONENTIAL_POWER[n],
        temperature_halves: TEMPERATURE_HALVES[n],
        factor: spec_factor(n),
        virial: n < VIRIAL_END,
        residual: n >= RESIDUAL_START,
    }
}

/// The composition factor of term `n`.
pub fn factor(n: usize) -> (f: Factor)
    requires
        n < NTERMS,
    ensures
        f == spec_factor(n as int),
{
    if ORIENTATION[n] == 1 {
        Factor::Orientation
    } else if QUADRUPOLE[n] == 1 {
        Factor::Quadrupole
    } else if HIGH_TEMPERATURE[n] == 1 {
        Factor::HighTemperature
    } else if DIPOLE[n] == 1 {
        Factor::Dipole
    } else if ASSOCIATION[n] == 1 {
        Factor::Association
    } else {
        Factor::Unit
    }
}

/// Term `n`.
///
/// Besides the entries of the tables, the result carries what the equation
/// relies on: the powers index the precomputed powers of the reduced density
/// and their exponentials; the virial terms are exactly those linear in
/// density; only terms with a mixture coefficient have an exponential; and no
/// such term has a dipole or association factor.
pub fn term(n: usize) -> (t: Term)
    requires
        n < NTERMS,
    ensures
        t == spec_term(n as int),
        1 <= t.density_power <= MAX_DENSITY_POWER,
        t.exponential_power <= MAX_EXPONENTIAL_POWER,
        t.virial <==> t.density_power == 1,
        !t.residual ==> t.exponential_power == 0,
        t.residual ==> t.factor != Factor::Dipole && t.factor != Factor::Association,
        t.virial || t.residual,
{
    Term {
        density_power: DENSITY_POWER[n],
        exponential_power: EXPONENTIAL_POWER[n],
        temperature_halves: TEMPERATURE_HALVES[n],
        factor: factor(n),
        virial: n < VIRIAL_END,
        residual: n >= RESIDUAL_START,
    }
}

/// No term carries more than one composition factor, so the factor of a term
/// says of each marker table whether it marks the term.
pub proof fn lemma_single_factor(n: int)
    requires
        0 <= n < NTERMS,
    ensures
        ORIENTATION[n] + QUADRUPOLE[n] + HIGH_TEMPERATURE[n] + DIPOLE[n] + ASSOCIATION[n] <= 1,
        ORIENTATION[n] == 1 <==> spec_factor(n) == Factor::Orientation,
        QUADRUPOLE[n] == 1 <==> spec_factor(n) == Factor::Quadrupole,
        HIGH_TEMPERATURE[n] == 1 <==> spec_factor(n) == Factor::HighTemperature,
        DIPOLE[n] == 1 <==> spec_factor(n) == Factor::Dipole,
        ASSOCIATION[n] == 1 <==> spec_factor(n) == Factor::Association,
{
}

} // verus!
