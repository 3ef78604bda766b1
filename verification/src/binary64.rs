//! IEEE-754 double-precision numbers, held as their 64-bit encodings.
//!
//! An encoding has a sign bit, eleven exponent bits and fifty-two fraction
//! bits. Every number that is not a NaN is an integer multiple of 2^-1074, so
//! the model of a number is that integer: [`value`]. One is `pow2(1074)` in
//! this model. The infinities are modelled as ±2^1024, the first power of two
//! beyond the finite range, which keeps them in their place in the order.
//!
//! The comparisons [`lt`], [`le`], [`gt`] and [`ge`] work on the encodings
//! alone and are proved to order the numbers as IEEE-754 does: by value, with
//! every comparison against a NaN false and the two zeros equal.

use vstd::prelude::*;
use vstd::arithmetic::power2::{
    pow2, lemma_pow2_adds, lemma_pow2_pos, lemma_pow2_strictly_increases, lemma_pow2_unfold,
};

verus! {

/// Encoding of the sign bit alone; also the encoding of -0.0.
pub const SIGN_BIT: u64 = 0x8000_0000_0000_0000;

/// Encoding of positive infinity. Larger magnitudes encode NaNs.
pub const INFINITY: u64 = 0x7FF0_0000_0000_0000;

/// Two to the fifty-second: the weight of the implicit leading bit.
pub const HIDDEN_BIT: u64 = 0x0010_0000_0000_0000;

/// Encoding of +0.0.
pub const ZERO: u64 = 0;

/// Whether the sign bit of `x` is set.
pub open spec fn sign(x: u64) -> bool {
    x >= SIGN_BIT
}

/// The encoding `x` with its sign bit cleared.
pub open spec fn magnitude_bits(x: u64) -> u64 {
    if x >= SIGN_BIT {
        (x - SIGN_BIT) as u64
    } else {
        x
    }
}

/// Whether `x` encodes a NaN: all exponent bits set and a non-zero fraction.
pub open spec fn is_nan(x: u64) -> bool {
    magnitude_bits(x) > INFINITY
}

/// The biased exponent field of `x`, from 0 to 2047.
pub open spec fn exponent(x: u64) -> nat {
    (magnitude_bits(x) / HIDDEN_BIT) as nat
}

/// The fraction field of `x`, below 2^52.
pub open spec fn fraction(x: u64) -> nat {
    (magnitude_bits(x) % HIDDEN_BIT) as nat
}

/// The weight of the last fraction bit of `x`, in units of 2^-1074.
pub open spec fn ulp(x: u64) -> nat {
    if exponent(x) == 0 {
        1
    } else {
        pow2((exponent(x) - 1) as nat)
    }
}

/// The absolute value of the number `x` encodes, in units of 2^-1074.
///
/// With a zero exponent field the number is subnormal and the fraction is
/// the count of units; otherwise the implicit leading bit is added and the
/// whole is scaled by the exponent.
pub open spec fn magnitude(x: u64) -> nat {
    if exponent(x) == 0 {
        fraction(x)
    } else {
        ((HIDDEN_BIT + fraction(x)) * ulp(x)) as nat
    }
}

/// The number `x` encodes, in units of 2^-1074. Meaningful unless `is_nan(x)`.
pub open spec fn value(x: u64) -> int {
    if sign(x) {
        -(magnitude(x) as int)
    } else {
        magnitude(x) as int
    }
}

/// IEEE-754 `<`: both operands are numbers and the first is the smaller.
pub open spec fn spec_lt(a: u64, b: u64) -> bool {
    !is_nan(a) && !is_nan(b) && value(a) < value(b)
}

/// IEEE-754 `<=`.
pub open spec fn spec_le(a: u64, b: u64) -> bool {
    !is_nan(a) && !is_nan(b) && value(a) <= value(b)
}

/// IEEE-754 `>`.
pub open spec fn spec_gt(a: u64, b: u64) -> bool {
    spec_lt(b, a)
}

/// IEEE-754 `>=`.
pub open spec fn spec_ge(a: u64, b: u64) -> bool {
    spec_le(b, a)
}

/// Whether `x` encodes the ratio `n / d` exactly, for a positive `d`.
pub open spec fn is_ratio(x: u64, n: int, d: int) -> bool {
    !is_nan(x) && d * value(x) == n * pow2(1074)
}

/// Whether `x` encodes a number within half a unit in its last place of the
/// ratio `n / d`, for a positive `d`: the way a decimal literal is rounded.
pub open spec fn rounds(x: u64, n: int, d: int) -> bool {
    !is_nan(x) && -(d * ulp(x)) <= 2 * (d * value(x) - n * pow2(1074)) <= d * ulp(x)
}

/// A normal encoding is the ratio `n / d` when its significand, scaled by
/// `d`, is `n` times the power of two that separates its last place from one.
pub proof fn lemma_is_ratio(x: u64, n: int, d: int, k: nat)
    requires
        !is_nan(x),
        exponent(x) >= 1,
        exponent(x) - 1 + k == 1074,
        d * (HIDDEN_BIT + fraction(x)) == (if sign(x) { -n } else { n }) * pow2(k),
    ensures
        is_ratio(x, n, d),
{
    let u = ulp(x) as int;
    let m = (HIDDEN_BIT + fraction(x)) as int;
    let q = pow2(k) as int;
    lemma_pow2_adds(k, (exponent(x) - 1) as nat);
    assert(pow2(1074) == q * u);
    if sign(x) {
        assert(d * (-(m * u)) == n * (q * u)) by (nonlinear_arith)
            requires
                d * m == (-n) * q,
        ;
    } else {
        assert(d * (m * u) == n * (q * u)) by (nonlinear_arith)
            requires
                d * m == n * q,
        ;
    }
}

/// A normal encoding rounds the ratio `n / d` when its significand, scaled
/// by `d`, is within `d / 2` of `n` times the power of two that separates its
/// last place from one.
pub proof fn lemma_rounds(x: u64, n: int, d: int, k: nat)
    requires
        !is_nan(x),
        d > 0,
        exponent(x) >= 1,
        exponent(x) - 1 + k == 1074,
        -d <= 2 * (d * (HIDDEN_BIT + fraction(x)) - (if sign(x) { -n } else { n }) * pow2(k)) <= d,
    ensures
        rounds(x, n, d),
{
    let u = ulp(x) as int;
    let m = (HIDDEN_BIT + fraction(x)) as int;
    let q = pow2(k) as int;
    lemma_pow2_adds(k, (exponent(x) - 1) as nat);
    lemma_pow2_pos((exponent(x) - 1) as nat);
    assert(pow2(1074) == q * u);
    if sign(x) {
        let c = 2 * (d * m + n * q);
        assert((-n) * q == -(n * q)) by (nonlinear_arith);
        assert(2 * (d * (-(m * u)) - n * (q * u)) == (-c) * u) by (nonlinear_arith)
            requires
                c == 2 * (d * m + n * q),
        ;
        assert(-(d * u) <= (-c) * u <= d * u) by (nonlinear_arith)
            requires
                -d <= c <= d,
                u > 0,
        ;
    } else {
        let c = 2 * (d * m - n * q);
        assert(2 * (d * (m * u) - n * (q * u)) == c * u) by (nonlinear_arith)
            requires
                c == 2 * (d * m - n * q),
        ;
        assert(-(d * u) <= c * u <= d * u) by (nonlinear_arith)
            requires
                -d <= c <= d,
                u > 0,
        ;
    }
}

/// A larger magnitude field encodes a larger magnitude: the order of the
/// encodings is the order of the numbers.
pub proof fn lemma_magnitude_increases(a: u64, b: u64)
    requires
        magnitude_bits(a) < magnitude_bits(b),
    ensures
        magnitude(a) < magnitude(b),
{
    let h = HIDDEN_BIT as int;
    let ea = exponent(a);
    let eb = exponent(b);
    let fa = fraction(a) as int;
    let fb = fraction(b) as int;
    assert(ea <= eb);
    assert(0 <= fa < h && 0 <= fb < h);
    if eb == 0 {
        assert(fa < fb);
    } else {
        let pb = ulp(b) as int;
        lemma_pow2_pos((eb - 1) as nat);
        assert(h * pb <= (h + fb) * pb) by (nonlinear_arith)
            requires
                0 <= fb,
                pb > 0,
                h > 0,
        ;
        if ea == eb {
            assert(fa < fb);
            assert((h + fa) * pb < (h + fb) * pb) by (nonlinear_arith)
                requires
                    fa < fb,
                    pb > 0,
            ;
        } else if ea == 0 {
            assert(h <= h * pb) by (nonlinear_arith)
                requires
                    pb >= 1,
                    h > 0,
            ;
        } else {
            let pa = ulp(a) as int;
            lemma_pow2_pos((ea - 1) as nat);
            lemma_pow2_unfold(ea);
            assert(pow2(ea) <= pb) by {
                if ea < eb - 1 {
                    lemma_pow2_strictly_increases(ea, (eb - 1) as nat);
                }
            }
            assert((h + fa) * pa < h * pb) by (nonlinear_arith)
                requires
                    0 <= fa < h,
                    pa > 0,
                    2 * pa <= pb,
            ;
        }
    }
}

/// Only the two zeros have magnitude zero.
pub proof fn lemma_magnitude_zero(a: u64)
    ensures
        magnitude(a) == 0 <==> magnitude_bits(a) == 0,
{
    if magnitude_bits(a) != 0 {
        lemma_magnitude_increases(ZERO, a);
    }
}

/// The magnitudes of two encodings compare as their magnitude fields do.
pub proof fn lemma_magnitude_order(a: u64, b: u64)
    ensures
        magnitude(a) < magnitude(b) <==> magnitude_bits(a) < magnitude_bits(b),
        magnitude(a) == magnitude(b) <==> magnitude_bits(a) == magnitude_bits(b),
{
    if magnitude_bits(a) < magnitude_bits(b) {
        lemma_magnitude_increases(a, b);
    } else if magnitude_bits(b) < magnitude_bits(a) {
        lemma_magnitude_increases(b, a);
    }
}

/// The encoding of the absolute value of `x`.
#[verifier::when_used_as_spec(magnitude_bits)]
pub fn abs(x: u64) -> (r: u64)
    ensures
        r == magnitude_bits(x),
        !sign(r),
        is_nan(r) == is_nan(x),
        value(r) == magnitude(x),
{
    if x >= SIGN_BIT {
        x - SIGN_BIT
    } else {
        x
    }
}

/// `a < b` on the numbers that `a` and `b` encode.
#[verifier::when_used_as_spec(spec_lt)]
pub fn lt(a: u64, b: u64) -> (r: bool)
    ensures
        r == spec_lt(a, b),
{
    let ma = abs(a);
    let mb = abs(b);
    if ma > INFINITY || mb > INFINITY {
        return false;
    }
    proof {
        lemma_magnitude_order(a, b);
        lemma_magnitude_zero(a);
        lemma_magnitude_zero(b);
    }
    if a >= SIGN_BIT {
        if b >= SIGN_BIT {
            mb < ma
        } else {
            ma != 0 || mb != 0
        }
    } else {
        if b >= SIGN_BIT {
            false
        } else {
            ma < mb
        }
    }
}

/// `a <= b` on the numbers that `a` and `b` encode.
#[verifier::when_used_as_spec(spec_le)]
pub fn le(a: u64, b: u64) -> (r: bool)
    ensures
        r == spec_le(a, b),
{
    let ma = abs(a);
    let mb = abs(b);
    if ma > INFINITY || mb > INFINITY {
        return false;
    }
    proof {
        lemma_magnitude_order(a, b);
        lemma_magnitude_zero(a);
        lemma_magnitude_zero(b);
    }
    if a >= SIGN_BIT {
        if b >= SIGN_BIT {
            mb <= ma
        } else {
            true
        }
    } else {
        if b >= SIGN_BIT {
            ma == 0 && mb == 0
        } else {
            ma <= mb
        }
    }
}

/// `a > b` on the numbers that `a` and `b` encode.
#[verifier::when_used_as_spec(spec_gt)]
pub fn gt(a: u64, b: u64) -> (r: bool)
    ensures
        r == spec_gt(a, b),
{
    lt(b, a)
}

/// `a >= b` on the numbers that `a` and `b` encode.
#[verifier::when_used_as_spec(spec_ge)]
pub fn ge(a: u64, b: u64) -> (r: bool)
    ensures
        r == spec_ge(a, b),
{
    le(b, a)
}

} // verus!
