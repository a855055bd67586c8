//! Buying: base asset is paid into the treasury, and target asset is minted
//! to the buyer at the price that the curve gives from the minted supply
//! upwards.

use vstd::prelude::*;
use crate::state::address::Address;
use crate::state::market::{Curve, Market};
use crate::token::{planned, CpiContext, Create, Invocation, Mint, MintTo, TokenAccount, Transfer};
use crate::utils::curve_math::{area_under_curve, checked_area};
use crate::utils::error_code::ErrorCode;

verus! {

/// The accounts of one purchase, as they stand before it.
#[derive(Debug, PartialEq, Eq)]
pub struct Buy {
    pub buyer: Address,
    /// Where the buyer pays from.
    pub buyer_base_token_account: TokenAccount,
    /// Where the buyer receives. It is created if it does not exist yet.
    pub buyer_target_token_account: TokenAccount,
    pub market: Market,
    pub market_authority: Address,
    pub market_target_mint: Mint,
    pub market_base_treasury: TokenAccount,
    pub token_program: Address,
    pub associated_token_program: Address,
}

/// What `purchase_amount` target units cost at a supply of `mint_supply`:
/// the area under the curve from the supply up to the supply after the
/// purchase.
pub open spec fn purchase_price(curve: Curve, mint_supply: u64, purchase_amount: u64) -> Result<
    u64,
    ErrorCode,
> {
    if mint_supply + purchase_amount > u64::MAX {
        Err(ErrorCode::SupplyOverflow)
    } else {
        checked_area(curve, mint_supply as nat, (mint_supply + purchase_amount) as nat)
    }
}

/// The price of `purchase_amount` target units at a supply of
/// `mint_supply`. It fails with `SupplyOverflow` where the two do not add up
/// within the amount width, and else as the curve does.
pub fn total_purchase_price_in_base_tokens(
    curve: Curve,
    mint_supply: u64,
    purchase_amount: u64,
) -> (r: Result<u64, ErrorCode>)
    ensures
        r == purchase_price(curve, mint_supply, purchase_amount),
{
    match mint_supply.checked_add(purchase_amount) {
        Some(future_supply) => area_under_curve(curve, mint_supply, future_supply),
        None => Err(ErrorCode::SupplyOverflow),
    }
}

impl Buy {
    /// The accounts are the ones that the market and the buyer are bound to.
    pub open spec fn constraints(&self) -> bool {
        &&& self.buyer_base_token_account.is_initialized
        &&& self.market_base_treasury.is_initialized
        &&& self.buyer_target_token_account.is_initialized ==> {
            &&& self.buyer_target_token_account.owner == self.buyer
            &&& self.buyer_target_token_account.mint == self.market_target_mint.address
        }
        &&& self.market.target_mint == self.market_target_mint.address
        &&& self.market.authority.address == self.market_authority
        &&& self.market.base_treasury.address == self.market_base_treasury.address
    }

    /// The request that creates the buyer's receiving account.
    pub open spec fn create_target_token_account(&self) -> CpiContext<Create> {
        CpiContext {
            program: self.associated_token_program,
            accounts: Create {
                payer: self.buyer,
                associated_token: self.buyer_target_token_account.address,
                authority: self.buyer,
                mint: self.market_target_mint.address,
            },
            signer_seeds: None,
        }
    }

    /// The request that mints to the buyer, not yet signed.
    pub open spec fn mint_target_tokens_to_buyer(&self) -> CpiContext<MintTo> {
        CpiContext {
            program: self.token_program,
            accounts: MintTo {
                mint: self.market_target_mint.address,
                to: self.buyer_target_token_account.address,
                authority: self.market_authority,
            },
            signer_seeds: None,
        }
    }

    /// The request that pays the treasury, signed by the buyer.
    pub open spec fn receive_base_tokens_from_buyer(&self) -> CpiContext<Transfer> {
        CpiContext {
            program: self.token_program,
            accounts: Transfer {
                from: self.buyer_base_token_account.address,
                to: self.market_base_treasury.address,
                authority: self.buyer,
            },
            signer_seeds: None,
        }
    }

    /// What comes before the payment: the creation of the receiving account,
    /// if there is none yet.
    pub open spec fn opening(&self) -> Seq<Invocation> {
        if self.buyer_target_token_account.is_initialized {
            seq![]
        } else {
            seq![Invocation::Create(self.create_target_token_account())]
        }
    }

    /// What `amount` target units cost at this market now. The price is
    /// taken from the market's minted supply, not from what is outstanding:
    /// units that sponsors burned still count.
    pub open spec fn price(&self, amount: u64) -> Result<u64, ErrorCode> {
        match self.market.curve_supply(self.market_target_mint.supply) {
            Err(e) => Err(e),
            Ok(minted) => purchase_price(self.market.curve, minted, amount),
        }
    }

    /// What a purchase of `amount` target units asks of the token program,
    /// in the order in which it has to happen, or why the purchase is turned
    /// down. A purchase of nothing is turned down. The payment comes before
    /// the minting, so that nothing is minted that was not paid for.
    pub open spec fn plan(&self, amount: u64) -> Result<Seq<Invocation>, ErrorCode> {
        if !self.constraints() {
            Err(ErrorCode::Unauthorized)
        } else if amount == 0 {
            Err(ErrorCode::ZeroAmount)
        } else {
            match self.price(amount) {
                Err(e) => Err(e),
                Ok(cost) => if self.buyer_base_token_account.amount < cost {
                    Err(ErrorCode::InsufficientFunds)
                } else {
                    Ok(
                        self.opening() + seq![
                            Invocation::Transfer(self.receive_base_tokens_from_buyer(), cost),
                            Invocation::MintTo(
                                (CpiContext {
                                    signer_seeds: Some(self.market.signer()),
                                    ..self.mint_target_tokens_to_buyer()
                                }),
                                amount,
                            ),
                        ],
                    )
                },
            }
        }
    }

    /// Whether the accounts are the ones that the market and the buyer are
    /// bound to.
    pub fn check_constraints(&self) -> (r: bool)
        ensures
            r == self.constraints(),
    {
        self.buyer_base_token_account.is_initialized
            && self.market_base_treasury.is_initialized
            && (!self.buyer_target_token_account.is_initialized
            || (self.buyer_target_token_account.owner.equals(&self.buyer)
            && self.buyer_target_token_account.mint.equals(&self.market_target_mint.address)))
            && self.market.target_mint.equals(&self.market_target_mint.address)
            && self.market.authority.address.equals(&self.market_authority)
            && self.market.base_treasury.address.equals(&self.market_base_treasury.address)
    }

    /// The request that creates the buyer's receiving account.
    pub fn into_create_target_token_account_context(&self) -> (ctx: CpiContext<Create>)
        ensures
            ctx == self.create_target_token_account(),
    {
        let cpi_accounts = Create {
            payer: self.buyer,
            associated_token: self.buyer_target_token_account.address,
            authority: self.buyer,
            mint: self.market_target_mint.address,
        };
        CpiContext::new(self.associated_token_program, cpi_accounts)
    }

    /// The request that mints to the buyer, not yet signed.
    pub fn into_mint_target_tokens_to_buyer_context(&self) -> (ctx: CpiContext<MintTo>)
        ensures
            ctx == self.mint_target_tokens_to_buyer(),
    {
        let cpi_accounts = MintTo {
            mint: self.market_target_mint.address,
            to: self.buyer_target_token_account.address,
            authority: self.market_authority,
        };
        CpiContext::new(self.token_program, cpi_accounts)
    }

    /// The request that pays the treasury, signed by the buyer.
    pub fn into_receive_base_tokens_from_buyer_context(&self) -> (ctx: CpiContext<Transfer>)
        ensures
            ctx == self.receive_base_tokens_from_buyer(),
    {
        let cpi_accounts = Transfer {
            from: self.buyer_base_token_account.address,
            to: self.market_base_treasury.address,
            authority: self.buyer,
        };
        CpiContext::new(self.token_program, cpi_accounts)
    }
}

/// Decides a purchase of `amount` target units: checks the accounts, prices
/// the purchase at the minted supply, and lists what the token program has
/// to do. Nothing has happened when it returns.
///
/// It fails with `Unauthorized` where the accounts are not the market's and
/// the buyer's, with `ZeroAmount` where nothing is bought, with
/// `SupplyOverflow` where the minted supply, now or after the purchase,
/// leaves the amount width, with the curve's own refusal where there is no
/// price, and with `InsufficientFunds` where the buyer holds less than the
/// price; and with the first of these that applies.
pub fn handler(ctx: &Buy, amount: u64) -> (r: Result<Vec<Invocation>, ErrorCode>)
    ensures
        planned(r) == ctx.plan(amount),
{
    if !ctx.check_constraints() {
        return Err(ErrorCode::Unauthorized);
    }
    if amount == 0 {
        return Err(ErrorCode::ZeroAmount);
    }
    let market_authority_seeds = ctx.market.authority_seeds();
    let minted_supply = ctx.market.minted_supply(ctx.market_target_mint.supply)?;
    let cost = total_purchase_price_in_base_tokens(ctx.market.curve, minted_supply, amount)?;
    if ctx.buyer_base_token_account.amount < cost {
        return Err(ErrorCode::InsufficientFunds);
    }
    let mut invocations: Vec<Invocation> = Vec::new();
    if !ctx.buyer_target_token_account.is_initialized {
        invocations.push(Invocation::Create(ctx.into_create_target_token_account_context()));
    }
    // receive base tokens from the buyer into the market's treasury
    invocations.push(
        Invocation::Transfer(ctx.into_receive_base_tokens_from_buyer_context(), cost),
    );
    // mint target tokens to the buyer
    invocations.push(
        Invocation::MintTo(
            ctx.into_mint_target_tokens_to_buyer_context().with_signer(market_authority_seeds),
            amount,
        ),
    );
    assert(invocations@ =~= ctx.plan(amount)->Ok_0);
    Ok(invocations)
}

} // verus!
