//! The refusals of the library.

use vstd::prelude::*;

verus! {

/// Why an operation on a market was turned down. A failed operation leaves
/// nothing behind and is never retried by the library.
#[derive(Clone, Copy, Debug, PartialEq, Eq, Structural)]
pub enum ErrorCode {
    /// The curve selector given at creation names no curve.
    UnknownCurve,
    /// A value met while integrating the curve does not fit its integer
    /// width, or the range to integrate over runs backwards.
    CurveOverflow,
    /// The minted supply, as it is or as it would be after a purchase,
    /// does not fit the asset-amount width.
    SupplyOverflow,
    /// More units are offered for sale than were minted and not sold back.
    InsufficientSupply,
    /// The paying account holds less base asset than is due.
    InsufficientFunds,
    /// The account to burn from holds fewer target units than asked.
    InsufficientBalance,
    /// An account is not the one that the market, or its holder, is bound
    /// to, or there is none where there has to be one.
    Unauthorized,
    /// The counter of sponsored burns would not fit its width.
    BurnCounterOverflow,
    /// The market's curve has no pricing function yet.
    NotImplemented,
    /// The target asset already has a market, or the name is already taken.
    AlreadyExists,
    /// Nothing is to be bought, sold or burned: the amount is zero.
    ZeroAmount,
}

} // verus!
