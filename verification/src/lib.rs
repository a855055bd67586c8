//! A bonded-curve market: the price of a target asset in a base asset is a
//! function of the target asset's outstanding supply.
//!
//! The library decides; it moves no assets. Each operation checks its
//! accounts, prices the trade on the market's curve and returns, in order,
//! the requests that the token program has to carry out. The caller carries
//! them out in that order and gives the whole operation up at the first
//! that fails.
//!
//! A market keeps two counts apart: the units outstanding, which the token
//! program holds, and the units that sponsors burned, which the market
//! record holds. Prices are taken from the two together, so that a
//! sponsored burn moves no price.

pub mod instructions;
pub mod ledger;
pub mod moonbase_markets;
pub mod state;
pub mod token;
pub mod utils;

use vstd::prelude::*;
use crate::instructions::buy::Buy;
use crate::instructions::new_market::NewMarket;
use crate::instructions::sell::Sell;
use crate::instructions::sponsored_burn::SponsoredBurn;
use crate::token::{planned, Invocation};
use crate::utils::error_code::ErrorCode;

verus! {

/// Creates a market. See `instructions::new_market::handler`.
pub fn new_market(
    ctx: &mut NewMarket,
    market_bump: u8,
    attribution_bump: u8,
    base_treasury_bump: u8,
    authority_bump: u8,
    name: String,
    curve: u8,
) -> (r: Result<Vec<Invocation>, ErrorCode>)
    ensures
        NewMarket::handled(
            *old(ctx),
            *final(ctx),
            market_bump,
            base_treasury_bump,
            authority_bump,
            name@,
            curve,
            planned(r),
        ),
{
    instructions::new_market::handler(
        ctx,
        market_bump,
        attribution_bump,
        base_treasury_bump,
        authority_bump,
        name,
        curve,
    )
}

/// Decides a purchase of `amount` target units. See
/// `instructions::buy::handler`.
pub fn buy(ctx: &Buy, amount: u64) -> (r: Result<Vec<Invocation>, ErrorCode>)
    ensures
        planned(r) == ctx.plan(amount),
{
    instructions::buy::handler(ctx, amount)
}

/// Decides a sale of `amount` target units. See
/// `instructions::sell::handler`.
pub fn sell(ctx: &Sell, amount: u64) -> (r: Result<Vec<Invocation>, ErrorCode>)
    ensures
        planned(r) == ctx.plan(amount),
{
    instructions::sell::handler(ctx, amount)
}

/// Decides a sponsored burn of `amount` target units and counts it. See
/// `instructions::sponsored_burn::handler`.
pub fn sponsored_burn(ctx: &mut SponsoredBurn, amount: u64) -> (r: Result<
    Vec<Invocation>,
    ErrorCode,
>)
    ensures
        planned(r) == old(ctx).plan(amount),
        r is Ok ==> *final(ctx) == old(ctx).counted(amount),
        r is Ok ==> final(ctx).market.amount_burned == old(ctx).market.amount_burned + amount,
        r is Err ==> *final(ctx) == *old(ctx),
        final(ctx).market.amount_burned >= old(ctx).market.amount_burned,
{
    instructions::sponsored_burn::handler(ctx, amount)
}

} // verus!
