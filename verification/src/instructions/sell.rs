//! Selling: target asset is burned from the seller, and base asset is paid
//! out of the treasury at the price that the curve gives from the minted
//! supply downwards.

use vstd::prelude::*;
use crate::instructions::buy::purchase_price;
use crate::state::address::Address;
use crate::state::market::{Curve, Market};
use crate::token::{planned, Burn, CpiContext, Invocation, Mint, TokenAccount, Transfer};
use crate::utils::curve_math::linear::{lemma_area_nonnegative, lemma_area_split};
use crate::utils::curve_math::{area_under_curve, checked_area};
use crate::utils::error_code::ErrorCode;

verus! {

/// The accounts of one sale, as they stand before it.
#[derive(Debug, PartialEq, Eq)]
pub struct Sell {
    pub seller: Address,
    /// Where the seller is paid.
    pub seller_base_token_account: TokenAccount,
    /// Where the units for sale are held. That the seller owns it is for
    /// the token program to check when it burns.
    pub seller_target_token_account: TokenAccount,
    pub market: Market,
    pub market_target_mint: Mint,
    pub market_authority: Address,
    pub market_base_treasury: TokenAccount,
    pub token_program: Address,
}

/// What `sale_amount` target units fetch at a supply of `mint_supply`: the
/// area under the curve from the supply after the sale up to the supply.
pub open spec fn sale_price(curve: Curve, mint_supply: u64, sale_amount: u64) -> Result<
    u64,
    ErrorCode,
> {
    if sale_amount > mint_supply {
        Err(ErrorCode::InsufficientSupply)
    } else {
        checked_area(curve, (mint_supply - sale_amount) as nat, mint_supply as nat)
    }
}

/// The price of `sale_amount` target units at a supply of `mint_supply`.
/// It fails with `InsufficientSupply` where more is sold than the supply,
/// and else as the curve does.
pub fn total_sale_price_in_base_tokens(curve: Curve, mint_supply: u64, sale_amount: u64) -> (r:
    Result<u64, ErrorCode>)
    ensures
        r == sale_price(curve, mint_supply, sale_amount),
{
    match mint_supply.checked_sub(sale_amount) {
        Some(future_supply) => area_under_curve(curve, future_supply, mint_supply),
        None => Err(ErrorCode::InsufficientSupply),
    }
}

/// Selling what was just bought fetches what it cost: the sale is priced
/// over the very range that the purchase was priced over.
pub proof fn lemma_sale_refunds_purchase(curve: Curve, mint_supply: u64, amount: u64)
    requires
        mint_supply + amount <= u64::MAX,
    ensures
        sale_price(curve, (mint_supply + amount) as u64, amount) == purchase_price(
            curve,
            mint_supply,
            amount,
        ),
{
}

/// Selling the whole supply is priced from zero; selling more than the
/// supply is turned down, on every curve.
pub proof fn lemma_sale_bounds(curve: Curve, mint_supply: u64, amount: u64)
    ensures
        amount == mint_supply ==> sale_price(curve, mint_supply, amount) == checked_area(
            curve,
            0,
            mint_supply as nat,
        ),
        amount > mint_supply <==> sale_price(curve, mint_supply, amount) == Err::<u64, ErrorCode>(
            ErrorCode::InsufficientSupply,
        ),
{
}

/// What one purchase paid in covers its sale in two parts: on the linear
/// curve the two sales together never fetch more than the purchase cost,
/// and no less than one unit short of it.
pub proof fn lemma_purchase_covers_partial_sales(mint_supply: u64, first: u64, second: u64)
    requires
        mint_supply + first + second <= u64::MAX,
        purchase_price(Curve::Linear, mint_supply, (first + second) as u64) is Ok,
    ensures
        sale_price(Curve::Linear, (mint_supply + first + second) as u64, second) is Ok,
        sale_price(Curve::Linear, (mint_supply + first) as u64, first) is Ok,
        purchase_price(Curve::Linear, mint_supply, (first + second) as u64)->Ok_0 - 1
            <= sale_price(Curve::Linear, (mint_supply + first + second) as u64, second)->Ok_0
            + sale_price(Curve::Linear, (mint_supply + first) as u64, first)->Ok_0
            <= purchase_price(Curve::Linear, mint_supply, (first + second) as u64)->Ok_0,
{
    let low = mint_supply as nat;
    let middle = (mint_supply + first) as nat;
    let high = (mint_supply + first + second) as nat;
    lemma_area_split(low, middle, high);
    lemma_area_nonnegative(low, middle);
    lemma_area_nonnegative(middle, high);
}

impl Sell {
    /// The accounts are the ones that the market and the seller are bound to.
    pub open spec fn constraints(&self) -> bool {
        &&& self.seller_base_token_account.is_initialized
        &&& self.seller_base_token_account.owner == self.seller
        &&& self.seller_target_token_account.is_initialized
        &&& self.market_base_treasury.is_initialized
        &&& self.market.target_mint == self.market_target_mint.address
        &&& self.market.authority.address == self.market_authority
        &&& self.market.base_treasury.address == self.market_base_treasury.address
    }

    /// The request that burns the units sold, signed by the seller.
    pub open spec fn burn_seller_target_tokens(&self) -> CpiContext<Burn> {
        CpiContext {
            program: self.token_program,
            accounts: Burn {
                mint: self.market_target_mint.address,
                from: self.seller_target_token_account.address,
                authority: self.seller,
            },
            signer_seeds: None,
        }
    }

    /// The request that pays the seller out of the treasury, not yet signed.
    pub open spec fn transfer_base_tokens_to_seller(&self) -> CpiContext<Transfer> {
        CpiContext {
            program: self.token_program,
            accounts: Transfer {
                from: self.market_base_treasury.address,
                to: self.seller_base_token_account.address,
                authority: self.market_authority,
            },
            signer_seeds: None,
        }
    }

    /// What `amount` target units fetch at this market now. The price is
    /// taken from the market's minted supply, not from what is outstanding:
    /// units that sponsors burned still count.
    pub open spec fn price(&self, amount: u64) -> Result<u64, ErrorCode> {
        match self.market.curve_supply(self.market_target_mint.supply) {
            Err(e) => Err(e),
            Ok(minted) => sale_price(self.market.curve, minted, amount),
        }
    }

    /// What a sale of `amount` target units asks of the token program, in
    /// the order in which it has to happen, or why the sale is turned down.
    /// A sale of nothing is turned down. The burn comes before the payout,
    /// so that nothing is paid for units that were not destroyed.
    pub open spec fn plan(&self, amount: u64) -> Result<Seq<Invocation>, ErrorCode> {
        if !self.constraints() {
            Err(ErrorCode::Unauthorized)
        } else if amount == 0 {
            Err(ErrorCode::ZeroAmount)
        } else {
            match self.price(amount) {
                Err(e) => Err(e),
                Ok(proceeds) => if self.seller_target_token_account.amount < amount {
                    Err(ErrorCode::InsufficientBalance)
                } else if self.market_base_treasury.amount < proceeds {
                    Err(ErrorCode::InsufficientFunds)
                } else {
                    Ok(
                        seq![
                            Invocation::Burn(self.burn_seller_target_tokens(), amount),
                            Invocation::Transfer(
                                (CpiContext {
                                    signer_seeds: Some(self.market.signer()),
                                    ..self.transfer_base_tokens_to_seller()
                                }),
                                proceeds,
                            ),
                        ],
                    )
                },
            }
        }
    }

    /// Whether the accounts are the ones that the market and the seller are
    /// bound to.
    pub fn check_constraints(&self) -> (r: bool)
        ensures
            r == self.constraints(),
    {
        self.seller_base_token_account.is_initialized
            && self.seller_base_token_account.owner.equals(&self.seller)
            && self.seller_target_token_account.is_initialized
            && self.market_base_treasury.is_initialized
            && self.market.target_mint.equals(&self.market_target_mint.address)
            && self.market.authority.address.equals(&self.market_authority)
            && self.market.base_treasury.address.equals(&self.market_base_treasury.address)
    }

    /// The request that burns the units sold, signed by the seller.
    pub fn into_burn_seller_target_tokens_context(&self) -> (ctx: CpiContext<Burn>)
        ensures
            ctx == self.burn_seller_target_tokens(),
    {
        let cpi_accounts = Burn {
            mint: self.market_target_mint.address,
            from: self.seller_target_token_account.address,
            authority: self.seller,
        };
        CpiContext::new(self.token_program, cpi_accounts)
    }

    /// The request that pays the seller out of the treasury, not yet signed.
    pub fn into_transfer_base_tokens_to_seller_context(&self) -> (ctx: CpiContext<Transfer>)
        ensures
            ctx == self.transfer_base_tokens_to_seller(),
    {
        let cpi_accounts = Transfer {
            from: self.market_base_treasury.address,
            to: self.seller_base_token_account.address,
            authority: self.market_authority,
        };
        CpiContext::new(self.token_program, cpi_accounts)
    }
}

/// Decides a sale of `amount` target units: checks the accounts, prices the
/// sale at the minted supply, and lists what the token program has to do.
/// Nothing has happened when it returns.
///
/// It fails with `Unauthorized` where the accounts are not the market's and
/// the seller's, with `ZeroAmount` where nothing is sold, with
/// `SupplyOverflow` where the minted supply leaves the amount width, with
/// `InsufficientSupply` where more is sold than the minted supply, with
/// the curve's own refusal where there is no price, with
/// `InsufficientBalance` where the seller holds less than is sold, and with
/// `InsufficientFunds` where the treasury holds less than the price; and
/// with the first of these that applies.
pub fn handler(ctx: &Sell, amount: u64) -> (r: Result<Vec<Invocation>, ErrorCode>)
    ensures
        planned(r) == ctx.plan(amount),
{
    if !ctx.check_constraints() {
        return Err(ErrorCode::Unauthorized);
    }
    if amount == 0 {
        return Err(ErrorCode::ZeroAmount);
    }
    let market_authority_seeds = ctx.market.authority_seeds();
    let minted_supply = ctx.market.minted_supply(ctx.market_target_mint.supply)?;
    let proceeds = total_sale_price_in_base_tokens(ctx.market.curve, minted_supply, amount)?;
    if ctx.seller_target_token_account.amount < amount {
        return Err(ErrorCode::InsufficientBalance);
    }
    if ctx.market_base_treasury.amount < proceeds {
        return Err(ErrorCode::InsufficientFunds);
    }
    let mut invocations: Vec<Invocation> = Vec::new();
    // burn target tokens from the seller's account
    invocations.push(Invocation::Burn(ctx.into_burn_seller_target_tokens_context(), amount));
    // transfer base tokens from the market's treasury to the seller
    invocations.push(
        Invocation::Transfer(
            ctx.into_transfer_base_tokens_to_seller_context().with_signer(market_authority_seeds),
            proceeds,
        ),
    );
    assert(invocations@ =~= ctx.plan(amount)->Ok_0);
    Ok(invocations)
}

} // verus!
