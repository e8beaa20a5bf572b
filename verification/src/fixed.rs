//! Fixed-point scalar arithmetic.
//!
//! Every kinematic quantity in this crate is an `i64` holding a value in
//! thousandths (milli-units): a position of 1.5 units is stored as 1500.
//! Products of two scaled values carry a double scale and are brought back
//! to single scale with a truncating division by [`FP`]. Every stored value
//! is saturated into `[-LIM, LIM]`; saturation, not wrapping or panicking,
//! is the crate's single overflow policy.

use vstd::prelude::*;

verus! {

/// Fixed-point scale: stored values are in thousandths.
pub const FP: i64 = 1000;

/// Saturation bound on every stored fixed-point value.
pub const LIM: i64 = 1_000_000_000_000;

/// Bound on the factors of a widening product: saturated values and short
/// sums of them (an innovation is a difference of two saturated values).
pub const MUL_LIM: i64 = 4_000_000_000_000;

/// Bound on double-width accumulators: large enough for a sum of eight
/// widening products, far below `i128::MAX`.
pub const ACC_LIM: i128 = 1_000_000_000_000_000_000_000_000_000;

/// Absolute value.
pub open spec fn iabs(n: int) -> int {
    if n >= 0 { n } else { -n }
}

/// Truncating (round-toward-zero) division, as the machine computes it;
/// the divisor must not be zero.
pub open spec fn tdiv(n: int, d: int) -> int {
    if (n >= 0) == (d >= 0) { iabs(n) / iabs(d) } else { -(iabs(n) / iabs(d)) }
}

/// Saturate a value into `[-LIM, LIM]`.
pub open spec fn sat(n: int) -> int {
    if n > LIM { LIM as int } else if n < -(LIM as int) { -(LIM as int) } else { n }
}

/// Rescale a double-scale product back to single scale, saturated.
pub open spec fn descale(n: int) -> int {
    sat(tdiv(n, FP as int))
}

/// Widening product of two bounded values.
pub fn mul_wide(x: i64, y: i64) -> (r: i128)
    requires
        -MUL_LIM <= x <= MUL_LIM,
        -MUL_LIM <= y <= MUL_LIM,
    ensures
        r == x * y,
        -(MUL_LIM as int) * (MUL_LIM as int) <= r <= (MUL_LIM as int) * (MUL_LIM as int),
{
    proof {
        assert(-(MUL_LIM as int) * (MUL_LIM as int) <= (x as int) * (y as int)
            <= (MUL_LIM as int) * (MUL_LIM as int)) by (nonlinear_arith)
            requires
                -MUL_LIM <= x <= MUL_LIM,
                -MUL_LIM <= y <= MUL_LIM,
        ;
    }
    (x as i128) * (y as i128)
}

/// Saturating narrow of a double-width value (no rescale).
pub fn sat_narrow(n: i128) -> (r: i64)
    requires
        -ACC_LIM <= n <= ACC_LIM,
    ensures
        r == sat(n as int),
        -LIM <= r <= LIM,
{
    if n > (LIM as i128) {
        LIM
    } else if n < -(LIM as i128) {
        -LIM
    } else {
        n as i64
    }
}

/// Truncating division of a double-width accumulator by `FP`, saturated:
/// the step that returns a product of two scaled values to single scale.
pub fn descale_wide(n: i128) -> (r: i64)
    requires
        -ACC_LIM <= n <= ACC_LIM,
    ensures
        r == descale(n as int),
        -LIM <= r <= LIM,
{
    let neg: bool = n < 0;
    let mag: u128 = if neg { (-n) as u128 } else { n as u128 };
    let q: u128 = mag / (FP as u128);
    let qc: u128 = if q > (LIM as u128) { LIM as u128 } else { q };
    let r: i64 = if neg { -(qc as i64) } else { qc as i64 };
    proof {
        assert(mag == iabs(n as int));
        assert(q == iabs(n as int) / (FP as int));
        assert(r == descale(n as int));
    }
    r
}

/// Truncating division of one double-width value by another, as the
/// machine's signed division behaves; the divisor must not be zero.
pub fn div_wide(n: i128, d: i128) -> (r: i128)
    requires
        d != 0,
        -ACC_LIM <= n <= ACC_LIM,
        -ACC_LIM <= d <= ACC_LIM,
    ensures
        r == tdiv(n as int, d as int),
        -ACC_LIM <= r <= ACC_LIM,
{
    let nn: bool = n < 0;
    let dn: bool = d < 0;
    let nm: u128 = if nn { (-n) as u128 } else { n as u128 };
    let dm: u128 = if dn { (-d) as u128 } else { d as u128 };
    let q: u128 = nm / dm;
    proof {
        assert(q <= nm) by (nonlinear_arith)
            requires
                dm >= 1,
                q == nm as nat / dm as nat,
        ;
        assert(nm == iabs(n as int));
        assert(dm == iabs(d as int));
    }
    if nn == dn {
        q as i128
    } else {
        -(q as i128)
    }
}

/// Rescaling an exactly scaled value recovers it.
pub proof fn lemma_descale_scaled(x: int)
    requires
        -(LIM as int) <= x <= LIM as int,
    ensures
        descale((FP as int) * x) == x,
{
    if x >= 0 {
        vstd::arithmetic::div_mod::lemma_div_multiples_vanish(x, FP as int);
        assert(iabs((FP as int) * x) == (FP as int) * x);
    } else {
        vstd::arithmetic::div_mod::lemma_div_multiples_vanish(-x, FP as int);
        assert(iabs((FP as int) * x) == (FP as int) * (-x));
    }
}

/// Rescaling zero gives zero.
pub proof fn lemma_descale_zero()
    ensures
        descale(0) == 0,
{
    lemma_descale_scaled(0);
    assert((FP as int) * 0 == 0);
}

/// Saturating addition of two saturated values.
pub fn sat_plus(x: i64, y: i64) -> (r: i64)
    requires
        -LIM <= x <= LIM,
        -LIM <= y <= LIM,
    ensures
        r == sat(x + y),
        -LIM <= r <= LIM,
{
    sat_narrow((x as i128) + (y as i128))
}

} // verus!
