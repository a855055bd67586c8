//! The linear curve: the price at supply `x` is proportional to `x`, so the
//! cost of moving the supply from `a` to `b` is the area of a trapezoid.

use vstd::prelude::*;
use crate::utils::error_code::ErrorCode;

verus! {

/// Divisor that folds the slope of the curve into the result.
pub const SCALE: u128 = 100_000_000;

/// The integral of the unscaled price from zero to `x`: `x² / 2`, rounded down.
pub open spec fn integral(x: nat) -> nat {
    (x * x) / 2
}

/// The scaled area under the curve between the supplies `a` and `b`,
/// rounded down. It is a price only where `a <= b`.
pub open spec fn area(a: nat, b: nat) -> int {
    (integral(b) - integral(a)) / (SCALE as int)
}

/// What `integration_from_zero` returns: the integral, unless the square
/// leaves the 128-bit width.
pub open spec fn checked_integral(x: nat) -> Result<u128, ErrorCode> {
    if x * x <= u128::MAX {
        Ok(integral(x) as u128)
    } else {
        Err(ErrorCode::CurveOverflow)
    }
}

/// What `area_under_curve` returns: the area, unless the range runs
/// backwards or the area leaves the 64-bit width of an asset amount.
pub open spec fn checked_area(a: nat, b: nat) -> Result<u64, ErrorCode> {
    if a <= b && area(a, b) <= u64::MAX {
        Ok(area(a, b) as u64)
    } else {
        Err(ErrorCode::CurveOverflow)
    }
}

/// The integral grows with its argument.
pub proof fn lemma_integral_monotonic(a: nat, b: nat)
    requires
        a <= b,
    ensures
        integral(a) <= integral(b),
{
    assert(a * a <= b * b) by (nonlinear_arith)
        requires
            a <= b,
    ;
}

/// The square of a 64-bit value fits in 128 bits.
pub proof fn lemma_square_fits(x: nat)
    requires
        x <= u64::MAX,
    ensures
        x * x <= u128::MAX,
{
    assert(x * x <= 0xffff_ffff_ffff_ffff * 0xffff_ffff_ffff_ffff) by (nonlinear_arith)
        requires
            x <= 0xffff_ffff_ffff_ffff,
    ;
}

/// The part of the integral between `a` and `b` that the scaling cuts off.
pub open spec fn remainder(a: nat, b: nat) -> int {
    (integral(b) - integral(a)) % (SCALE as int)
}

/// Between ordered supplies the area is never negative.
pub proof fn lemma_area_nonnegative(a: nat, b: nat)
    requires
        a <= b,
    ensures
        area(a, b) >= 0,
{
    lemma_integral_monotonic(a, b);
}

/// The area over a range is the sum of the areas over its two parts,
/// wherever the remainders that the scaling cuts off the two parts do not
/// add up to a whole unit.
pub proof fn lemma_area_additive(a: nat, b: nat, c: nat)
    requires
        a <= b <= c,
        remainder(a, b) + remainder(b, c) < SCALE,
    ensures
        area(a, b) + area(b, c) == area(a, c),
{
    lemma_area_split(a, b, c);
}

/// Splitting a range never raises the total, lowers it by one unit at most,
/// and keeps it exactly where the two remainders stay below a whole unit.
pub proof fn lemma_area_split(a: nat, b: nat, c: nat)
    requires
        a <= b <= c,
    ensures
        area(a, c) - 1 <= area(a, b) + area(b, c) <= area(a, c),
        area(a, b) + area(b, c) == area(a, c) <==> remainder(a, b) + remainder(b, c) < SCALE,
{
    lemma_integral_monotonic(a, b);
    lemma_integral_monotonic(b, c);
}

/// `x² / 2`, in a width that holds the square of every asset amount. It
/// fails with `CurveOverflow` where the square leaves even that width.
pub fn integration_from_zero(x: u128) -> (r: Result<u128, ErrorCode>)
    ensures
        r == checked_integral(x as nat),
{
    match x.checked_mul(x) {
        Some(square) => Ok(square / 2),
        None => Err(ErrorCode::CurveOverflow),
    }
}

/// The base-asset amount that moving the supply from `a` up to `b`, or from
/// `b` down to `a`, is worth. It fails with `CurveOverflow` where `a` lies
/// above `b`, and where the amount leaves the 64-bit width.
pub fn area_under_curve(a: u64, b: u64) -> (r: Result<u64, ErrorCode>)
    ensures
        r == checked_area(a as nat, b as nat),
{
    if a > b {
        return Err(ErrorCode::CurveOverflow);
    }
    proof {
        lemma_square_fits(a as nat);
        lemma_square_fits(b as nat);
        lemma_integral_monotonic(a as nat, b as nat);
    }
    let upper = integration_from_zero(b as u128)?;
    let lower = integration_from_zero(a as u128)?;
    let scaled: u128 = (upper - lower) / SCALE;
    match u64::try_from(scaled) {
        Ok(amount) => Ok(amount),
        Err(_) => Err(ErrorCode::CurveOverflow),
    }
}

} // verus!
