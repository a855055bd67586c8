//! The definite integral of a market's pricing function between two
//! supplies. No state, no side effects.

pub mod linear;
pub mod quadratic;

use vstd::prelude::*;
use crate::state::market::Curve;
use crate::utils::error_code::ErrorCode;

verus! {

/// The base-asset amount between two supplies on a curve, or why there is
/// none.
pub open spec fn checked_area(curve: Curve, supply_from: nat, supply_to: nat) -> Result<
    u64,
    ErrorCode,
> {
    match curve {
        Curve::Linear => linear::checked_area(supply_from, supply_to),
        Curve::Quadratic => quadratic::checked_area(supply_from, supply_to),
    }
}

/// The area under `curve` from `supply_from` up to `supply_to`.
pub fn area_under_curve(curve: Curve, supply_from: u64, supply_to: u64) -> (r: Result<
    u64,
    ErrorCode,
>)
    ensures
        r == checked_area(curve, supply_from as nat, supply_to as nat),
{
    match curve {
        Curve::Linear => linear::area_under_curve(supply_from, supply_to),
        Curve::Quadratic => quadratic::area_under_curve(supply_from, supply_to),
    }
}

} // verus!
