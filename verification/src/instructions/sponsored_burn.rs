//! A sponsored burn destroys target units without any payout. The market
//! counts them apart from the units that were sold back, so that what was
//! given up can be told from what was redeemed.

use vstd::prelude::*;
use crate::state::address::Address;
use crate::state::market::Market;
use crate::token::{planned, Burn, CpiContext, Invocation, Mint, TokenAccount};
use crate::utils::error_code::ErrorCode;

verus! {

/// The accounts of one sponsored burn, as they stand before it.
#[derive(Debug, PartialEq, Eq)]
pub struct SponsoredBurn {
    /// The holder who gives the units up.
    pub sponsor: Address,
    pub target_token_account: TokenAccount,
    pub target_mint: Mint,
    pub market: Market,
    pub token_program: Address,
}

impl SponsoredBurn {
    /// The asset is the market's own, and there is an account to burn from.
    pub open spec fn constraints(&self) -> bool {
        &&& self.target_token_account.is_initialized
        &&& self.market.target_mint == self.target_mint.address
    }

    /// The request that burns the units, signed by the sponsor.
    pub open spec fn burn_sponsor_tokens(&self) -> CpiContext<Burn> {
        CpiContext {
            program: self.token_program,
            accounts: Burn {
                mint: self.target_mint.address,
                from: self.target_token_account.address,
                authority: self.sponsor,
            },
            signer_seeds: None,
        }
    }

    /// What a sponsored burn of `amount` units asks of the token program,
    /// or why it is turned down. A burn of nothing is turned down. No price
    /// is computed and the treasury is not touched.
    pub open spec fn plan(&self, amount: u64) -> Result<Seq<Invocation>, ErrorCode> {
        if !self.constraints() {
            Err(ErrorCode::Unauthorized)
        } else if amount == 0 {
            Err(ErrorCode::ZeroAmount)
        } else if self.target_token_account.amount < amount {
            Err(ErrorCode::InsufficientBalance)
        } else if self.market.amount_burned + amount > u64::MAX {
            Err(ErrorCode::BurnCounterOverflow)
        } else {
            Ok(seq![Invocation::Burn(self.burn_sponsor_tokens(), amount)])
        }
    }

    /// The accounts after an accepted burn of `amount` units: the market's
    /// counter has grown by exactly that much, and nothing else has changed.
    pub open spec fn counted(self, amount: u64) -> SponsoredBurn {
        SponsoredBurn {
            market: Market {
                amount_burned: (self.market.amount_burned + amount) as u64,
                ..self.market
            },
            ..self
        }
    }

    /// Whether the asset is the market's own and there is an account to burn
    /// from.
    pub fn check_constraints(&self) -> (r: bool)
        ensures
            r == self.constraints(),
    {
        self.target_token_account.is_initialized && self.market.target_mint.equals(
            &self.target_mint.address,
        )
    }

    /// The request that burns the units, signed by the sponsor.
    pub fn into_burn_sponsor_tokens_context(&self) -> (ctx: CpiContext<Burn>)
        ensures
            ctx == self.burn_sponsor_tokens(),
    {
        let cpi_accounts = Burn {
            mint: self.target_mint.address,
            from: self.target_token_account.address,
            authority: self.sponsor,
        };
        CpiContext::new(self.token_program, cpi_accounts)
    }
}

/// A sponsored burn moves no price. The units that leave the supply enter
/// the market's counter, so the supply that the curve is priced from is
/// after the burn what it was before it.
pub proof fn lemma_sponsored_burn_keeps_curve_supply(ctx: SponsoredBurn, amount: u64)
    requires
        ctx.plan(amount) is Ok,
        ctx.target_token_account.amount <= ctx.target_mint.supply,
    ensures
        ctx.counted(amount).market.curve_supply((ctx.target_mint.supply - amount) as u64)
            == ctx.market.curve_supply(ctx.target_mint.supply),
{
}

/// Decides a sponsored burn of `amount` units. Where it is accepted, the
/// market's counter of burned units grows by `amount` and the burn is
/// handed back for the token program; where it is turned down, the market
/// is as it was. The counter never shrinks.
///
/// It fails with `Unauthorized` where the asset is not the market's or
/// there is no account to burn from, with `ZeroAmount` where nothing is
/// burned, with `InsufficientBalance` where the account holds less than is
/// burned, and with `BurnCounterOverflow` where
/// the counter would leave its width; and with the first of these that
/// applies.
pub fn handler(ctx: &mut SponsoredBurn, amount: u64) -> (r: Result<Vec<Invocation>, ErrorCode>)
    ensures
        planned(r) == old(ctx).plan(amount),
        r is Ok ==> *final(ctx) == old(ctx).counted(amount),
        r is Ok ==> final(ctx).market.amount_burned == old(ctx).market.amount_burned + amount,
        r is Err ==> *final(ctx) == *old(ctx),
        final(ctx).market.amount_burned >= old(ctx).market.amount_burned,
{
    if !ctx.check_constraints() {
        return Err(ErrorCode::Unauthorized);
    }
    if amount == 0 {
        return Err(ErrorCode::ZeroAmount);
    }
    if ctx.target_token_account.amount < amount {
        return Err(ErrorCode::InsufficientBalance);
    }
    match ctx.market.amount_burned.checked_add(amount) {
        None => Err(ErrorCode::BurnCounterOverflow),
        Some(amount_burned) => {
            let mut invocations: Vec<Invocation> = Vec::new();
            invocations.push(Invocation::Burn(ctx.into_burn_sponsor_tokens_context(), amount));
            ctx.market.amount_burned = amount_burned;
            Ok(invocations)
        },
    }
}

} // verus!
