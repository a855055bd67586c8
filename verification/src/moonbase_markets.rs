//! A market at a fixed price, paid in native coin: every target unit costs
//! two lamports, whatever the supply. Nothing is ever sold back.

use vstd::prelude::*;
use crate::state::address::Address;
pub use crate::state::market::Pda;
use crate::token::{
    planned, CpiContext, Create, InitializeMint, Invocation, Mint, MintTo, TokenAccount,
    TransferLamports,
};
use crate::utils::error_code::ErrorCode;
use crate::utils::seeds::{Seed, SignerSeeds};

verus! {

/// What one target unit costs, in lamports.
pub const LAMPORTS_PER_TOKEN: u64 = 2;

/// The decimals of every target asset: units are whole.
pub const TARGET_DECIMALS: u8 = 0;

/// The record of one fixed-price market.
#[derive(Debug, PartialEq, Eq)]
pub struct Market {
    pub name: String,
    /// Who created the market.
    pub creator: Address,
    pub target_mint: Address,
    /// The derived authority that alone mints the target asset.
    pub authority: Pda,
    /// The derived account that keeps the lamports paid in.
    pub treasury: Pda,
    pub bump: u8,
}

/// A market record with its name as plain characters.
pub struct MarketView {
    pub name: Seq<char>,
    pub creator: Address,
    pub target_mint: Address,
    pub authority: Pda,
    pub treasury: Pda,
    pub bump: u8,
}

impl View for Market {
    type V = MarketView;

    open spec fn view(&self) -> MarketView {
        MarketView {
            name: self.name@,
            creator: self.creator,
            target_mint: self.target_mint,
            authority: self.authority,
            treasury: self.treasury,
            bump: self.bump,
        }
    }
}

impl Market {
    /// The seeds that stand for the market's authority: its tag, the
    /// target asset, and the bump that was stored at creation.
    pub open spec fn signer(&self) -> SignerSeeds {
        SignerSeeds {
            seed: Seed::MarketAuthority,
            key: self.target_mint,
            bump: self.authority.bump,
        }
    }

    /// The seeds that stand for the market's authority.
    pub fn authority_seeds(&self) -> (seeds: SignerSeeds)
        ensures
            seeds == self.signer(),
    {
        SignerSeeds {
            seed: Seed::MarketAuthority,
            key: self.target_mint,
            bump: self.authority.bump,
        }
    }
}

impl Clone for Market {
    fn clone(&self) -> (m: Market)
        ensures
            m == *self,
    {
        Market {
            name: self.name.clone(),
            creator: self.creator,
            target_mint: self.target_mint,
            authority: self.authority,
            treasury: self.treasury,
            bump: self.bump,
        }
    }
}

impl Default for Market {
    /// An empty record: no name and zero addresses.
    fn default() -> (m: Market)
        ensures
            m.name@ == Seq::<char>::empty(),
            m.creator.is_zero(),
            m.target_mint.is_zero(),
            m.authority.address.is_zero(),
            m.authority.bump == 0,
            m.treasury.address.is_zero(),
            m.treasury.bump == 0,
            m.bump == 0,
    {
        Market {
            name: String::new(),
            creator: Address::default(),
            target_mint: Address::default(),
            authority: Pda::default(),
            treasury: Pda::default(),
            bump: 0,
        }
    }
}

/// The accounts of one creation. `market` is the record to be written;
/// what it holds beforehand does not matter.
#[derive(Debug, PartialEq, Eq)]
pub struct NewMarket {
    pub payer: Address,
    pub creator: Address,
    pub market: Market,
    pub target_mint: Address,
    pub market_authority: Address,
    pub market_treasury: Address,
    pub token_program: Address,
}

/// The accounts of one purchase, as they stand before it.
#[derive(Debug, PartialEq, Eq)]
pub struct BuyTokens {
    pub buyer: Address,
    /// Where the buyer receives. It is created if it does not exist yet.
    pub buyer_token_account: TokenAccount,
    pub market: Market,
    pub market_target_mint: Mint,
    pub market_authority: Address,
    pub market_treasury: Address,
    pub associated_token_program: Address,
    pub token_program: Address,
    pub system_program: Address,
}

impl NewMarket {
    /// The market record that a creation with these arguments writes.
    pub open spec fn record(
        &self,
        market_bump: u8,
        market_authority_bump: u8,
        market_treasury_bump: u8,
        name: Seq<char>,
    ) -> MarketView {
        MarketView {
            name,
            creator: self.creator,
            target_mint: self.target_mint,
            authority: Pda { address: self.market_authority, bump: market_authority_bump },
            treasury: Pda { address: self.market_treasury, bump: market_treasury_bump },
            bump: market_bump,
        }
    }

    /// What a creation asks of the token program: the target asset, in
    /// whole units, which the market's authority alone may mint.
    pub open spec fn plan(&self) -> Seq<Invocation> {
        seq![
            Invocation::InitializeMint(
                (CpiContext {
                    program: self.token_program,
                    accounts: InitializeMint { mint: self.target_mint, payer: self.payer },
                    signer_seeds: None,
                }),
                TARGET_DECIMALS,
                self.market_authority,
            ),
        ]
    }

    /// The accounts other than the record are the same in both.
    pub open spec fn same_accounts(&self, other: &NewMarket) -> bool {
        &&& self.payer == other.payer
        &&& self.creator == other.creator
        &&& self.target_mint == other.target_mint
        &&& self.market_authority == other.market_authority
        &&& self.market_treasury == other.market_treasury
        &&& self.token_program == other.token_program
    }
}

/// What `amount` target units cost, where the price fits the amount width.
pub open spec fn price(amount: u64) -> Result<u64, ErrorCode> {
    if amount * LAMPORTS_PER_TOKEN > u64::MAX {
        Err(ErrorCode::CurveOverflow)
    } else {
        Ok((amount * LAMPORTS_PER_TOKEN) as u64)
    }
}

impl BuyTokens {
    /// The accounts are the ones that the market and the buyer are bound to.
    pub open spec fn constraints(&self) -> bool {
        &&& self.buyer_token_account.is_initialized ==> {
            &&& self.buyer_token_account.owner == self.buyer
            &&& self.buyer_token_account.mint == self.market.target_mint
        }
        &&& self.market.target_mint == self.market_target_mint.address
        &&& self.market.authority.address == self.market_authority
        &&& self.market.treasury.address == self.market_treasury
    }

    /// The request that creates the buyer's receiving account.
    pub open spec fn create_token_account(&self) -> CpiContext<Create> {
        CpiContext {
            program: self.associated_token_program,
            accounts: Create {
                payer: self.buyer,
                associated_token: self.buyer_token_account.address,
                authority: self.buyer,
                mint: self.market_target_mint.address,
            },
            signer_seeds: None,
        }
    }

    /// The request that mints to the buyer, not yet signed.
    pub open spec fn mint_tokens_to_buyer(&self) -> CpiContext<MintTo> {
        CpiContext {
            program: self.token_program,
            accounts: MintTo {
                mint: self.market_target_mint.address,
                to: self.buyer_token_account.address,
                authority: self.market_authority,
            },
            signer_seeds: None,
        }
    }

    /// The request that pays the treasury, signed by the buyer.
    pub open spec fn receive_lamports_from_buyer(&self) -> CpiContext<TransferLamports> {
        CpiContext {
            program: self.system_program,
            accounts: TransferLamports { from: self.buyer, to: self.market_treasury },
            signer_seeds: None,
        }
    }

    /// What comes before the payment: the creation of the receiving account,
    /// if there is none yet.
    pub open spec fn opening(&self) -> Seq<Invocation> {
        if self.buyer_token_account.is_initialized {
            seq![]
        } else {
            seq![Invocation::Create(self.create_token_account())]
        }
    }

    /// What a purchase of `amount` target units asks for, in the order in
    /// which it has to happen, or why the purchase is turned down. A
    /// purchase of nothing is turned down. The payment comes before the
    /// minting.
    pub open spec fn plan(&self, amount: u64) -> Result<Seq<Invocation>, ErrorCode> {
        if !self.constraints() {
            Err(ErrorCode::Unauthorized)
        } else if amount == 0 {
            Err(ErrorCode::ZeroAmount)
        } else {
            match price(amount) {
                Err(e) => Err(e),
                Ok(total_price) => Ok(
                    self.opening() + seq![
                        Invocation::TransferLamports(
                            self.receive_lamports_from_buyer(),
                            total_price,
                        ),
                        Invocation::MintTo(
                            (CpiContext {
                                signer_seeds: Some(self.market.signer()),
                                ..self.mint_tokens_to_buyer()
                            }),
                            amount,
                        ),
                    ],
                ),
            }
        }
    }

    /// Whether the accounts are the ones that the market and the buyer are
    /// bound to.
    pub fn check_constraints(&self) -> (r: bool)
        ensures
            r == self.constraints(),
    {
        (!self.buyer_token_account.is_initialized || (self.buyer_token_account.owner.equals(
            &self.buyer,
        ) && self.buyer_token_account.mint.equals(&self.market.target_mint)))
            && self.market.target_mint.equals(&self.market_target_mint.address)
            && self.market.authority.address.equals(&self.market_authority)
            && self.market.treasury.address.equals(&self.market_treasury)
    }

    /// The request that creates the buyer's receiving account.
    pub fn into_create_token_account_context(&self) -> (ctx: CpiContext<Create>)
        ensures
            ctx == self.create_token_account(),
    {
        let cpi_accounts = Create {
            payer: self.buyer,
            associated_token: self.buyer_token_account.address,
            authority: self.buyer,
            mint: self.market_target_mint.address,
        };
        CpiContext::new(self.associated_token_program, cpi_accounts)
    }

    /// The request that mints to the buyer, not yet signed.
    pub fn into_mint_tokens_to_buyer_context(&self) -> (ctx: CpiContext<MintTo>)
        ensures
            ctx == self.mint_tokens_to_buyer(),
    {
        let cpi_accounts = MintTo {
            mint: self.market_target_mint.address,
            to: self.buyer_token_account.address,
            authority: self.market_authority,
        };
        CpiContext::new(self.token_program, cpi_accounts)
    }

    /// The request that pays the treasury, signed by the buyer.
    pub fn into_receive_lamports_from_buyer_context(&self) -> (ctx: CpiContext<TransferLamports>)
        ensures
            ctx == self.receive_lamports_from_buyer(),
    {
        let cpi_accounts = TransferLamports { from: self.buyer, to: self.market_treasury };
        CpiContext::new(self.system_program, cpi_accounts)
    }
}

/// Creates a fixed-price market: writes its record, and lists what the
/// token program has to create.
pub fn new_market(
    ctx: &mut NewMarket,
    market_bump: u8,
    market_authority_bump: u8,
    market_treasury_bump: u8,
    name: String,
) -> (invocations: Vec<Invocation>)
    ensures
        invocations@ == old(ctx).plan(),
        final(ctx).market@ == old(ctx).record(
            market_bump,
            market_authority_bump,
            market_treasury_bump,
            name@,
        ),
        final(ctx).same_accounts(old(ctx)),
{
    let mut invocations: Vec<Invocation> = Vec::new();
    invocations.push(
        Invocation::InitializeMint(
            CpiContext::new(
                ctx.token_program,
                InitializeMint { mint: ctx.target_mint, payer: ctx.payer },
            ),
            TARGET_DECIMALS,
            ctx.market_authority,
        ),
    );
    ctx.market.name = name;
    ctx.market.creator = ctx.creator;
    ctx.market.target_mint = ctx.target_mint;
    ctx.market.authority = Pda { address: ctx.market_authority, bump: market_authority_bump };
    ctx.market.treasury = Pda { address: ctx.market_treasury, bump: market_treasury_bump };
    ctx.market.bump = market_bump;
    invocations
}

/// Decides a purchase of `amount` target units at the fixed price: checks
/// the accounts and lists what has to be done. Nothing has happened when it
/// returns.
///
/// It fails with `Unauthorized` where the accounts are not the market's and
/// the buyer's, with `ZeroAmount` where nothing is bought, and with
/// `CurveOverflow` where the price leaves the amount width; and with the
/// first of these that applies.
pub fn buy_tokens(ctx: &BuyTokens, amount: u64) -> (r: Result<Vec<Invocation>, ErrorCode>)
    ensures
        planned(r) == ctx.plan(amount),
{
    if !ctx.check_constraints() {
        return Err(ErrorCode::Unauthorized);
    }
    if amount == 0 {
        return Err(ErrorCode::ZeroAmount);
    }
    let total_price: u64 = match amount.checked_mul(LAMPORTS_PER_TOKEN) {
        Some(total_price) => total_price,
        None => {
            return Err(ErrorCode::CurveOverflow);
        },
    };
    let seeds = ctx.market.authority_seeds();
    let mut invocations: Vec<Invocation> = Vec::new();
    if !ctx.buyer_token_account.is_initialized {
        invocations.push(Invocation::Create(ctx.into_create_token_account_context()));
    }
    invocations.push(
        Invocation::TransferLamports(ctx.into_receive_lamports_from_buyer_context(), total_price),
    );
    invocations.push(
        Invocation::MintTo(ctx.into_mint_tokens_to_buyer_context().with_signer(seeds), amount),
    );
    assert(invocations@ =~= ctx.plan(amount)->Ok_0);
    Ok(invocations)
}

} // verus!
