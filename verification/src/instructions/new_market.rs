//! Creation of a market: the one step that writes a market record and the
//! attribution that holds its name, and that asks for the target asset and
//! the treasury to be created under the market's derived authority.

use vstd::prelude::*;
use crate::state::address::Address;
use crate::state::market::{Curve, Market, MarketAttribution, MarketView, Pda};
use crate::token::{planned, CpiContext, InitializeAccount, InitializeMint, Invocation};
use crate::utils::error_code::ErrorCode;
use crate::utils::seed_format::to_seed_format;
use crate::utils::seeds::{Seed, SignerSeeds};

verus! {

/// The decimals of every target asset.
pub const TARGET_DECIMALS: u8 = 6;

/// The accounts of one creation. `market` and `attribution` are the two
/// records to be written; what they hold beforehand does not matter.
#[derive(Debug, PartialEq, Eq)]
pub struct NewMarket {
    /// Who pays for the storage.
    pub payer: Address,
    pub creator: Address,
    pub market: Market,
    pub attribution: MarketAttribution,
    pub base_mint: Address,
    pub target_mint: Address,
    pub base_treasury: Address,
    pub authority: Address,
    pub token_program: Address,
}

impl NewMarket {
    /// The market record that a creation with these arguments writes.
    pub open spec fn record(
        &self,
        market_bump: u8,
        base_treasury_bump: u8,
        authority_bump: u8,
        name: Seq<char>,
        curve: Curve,
    ) -> MarketView {
        MarketView {
            name,
            creator: self.creator,
            base_mint: self.base_mint,
            target_mint: self.target_mint,
            amount_burned: 0,
            base_treasury: Pda { address: self.base_treasury, bump: base_treasury_bump },
            authority: Pda { address: self.authority, bump: authority_bump },
            curve,
            bump: market_bump,
        }
    }

    /// The request that creates the target asset, at the payer's cost.
    pub open spec fn initialize_target_mint(&self) -> CpiContext<InitializeMint> {
        CpiContext {
            program: self.token_program,
            accounts: InitializeMint { mint: self.target_mint, payer: self.payer },
            signer_seeds: None,
        }
    }

    /// The request that creates the treasury, at the payer's cost: an
    /// account for the base asset at its derived address, which the
    /// market's authority owns.
    pub open spec fn initialize_base_treasury(&self, base_treasury_bump: u8) -> CpiContext<
        InitializeAccount,
    > {
        CpiContext {
            program: self.token_program,
            accounts: InitializeAccount {
                account: self.base_treasury,
                mint: self.base_mint,
                authority: self.authority,
                payer: self.payer,
            },
            signer_seeds: Some(
                SignerSeeds {
                    seed: Seed::BaseTreasury,
                    key: self.target_mint,
                    bump: base_treasury_bump,
                },
            ),
        }
    }

    /// What a creation asks of the token program: the target asset, which
    /// the market's authority alone may mint, and then the treasury.
    pub open spec fn plan(&self, base_treasury_bump: u8) -> Seq<Invocation> {
        seq![
            Invocation::InitializeMint(
                self.initialize_target_mint(),
                TARGET_DECIMALS,
                self.authority,
            ),
            Invocation::InitializeAccount(self.initialize_base_treasury(base_treasury_bump)),
        ]
    }

    /// The accounts other than the two records are the same in both.
    pub open spec fn same_accounts(&self, other: &NewMarket) -> bool {
        &&& self.payer == other.payer
        &&& self.creator == other.creator
        &&& self.base_mint == other.base_mint
        &&& self.target_mint == other.target_mint
        &&& self.base_treasury == other.base_treasury
        &&& self.authority == other.authority
        &&& self.token_program == other.token_program
    }

    /// What `handler` does with `before`: on a known curve selector it
    /// writes both records into `after` and returns the creation requests;
    /// on any other selector it fails with `UnknownCurve` and writes
    /// nothing.
    pub open spec fn handled(
        before: NewMarket,
        after: NewMarket,
        market_bump: u8,
        base_treasury_bump: u8,
        authority_bump: u8,
        name: Seq<char>,
        curve: u8,
        r: Result<Seq<Invocation>, ErrorCode>,
    ) -> bool {
        match Curve::of_selector(curve) {
            Some(c) => {
                &&& r == Ok::<Seq<Invocation>, ErrorCode>(before.plan(base_treasury_bump))
                &&& after.market@ == before.record(
                    market_bump,
                    base_treasury_bump,
                    authority_bump,
                    name,
                    c,
                )
                &&& after.attribution@ == after.market@.attribution()
                &&& after.same_accounts(&before)
            },
            None => {
                &&& r == Err::<Seq<Invocation>, ErrorCode>(ErrorCode::UnknownCurve)
                &&& after == before
            },
        }
    }

    /// The request that creates the target asset, at the payer's cost.
    pub fn into_initialize_target_mint_context(&self) -> (ctx: CpiContext<InitializeMint>)
        ensures
            ctx == self.initialize_target_mint(),
    {
        let cpi_accounts = InitializeMint { mint: self.target_mint, payer: self.payer };
        CpiContext::new(self.token_program, cpi_accounts)
    }

    /// The request that creates the treasury at its derived address, at the
    /// payer's cost.
    pub fn into_initialize_base_treasury_context(&self, base_treasury_bump: u8) -> (ctx: CpiContext<
        InitializeAccount,
    >)
        ensures
            ctx == self.initialize_base_treasury(base_treasury_bump),
    {
        let cpi_accounts = InitializeAccount {
            account: self.base_treasury,
            mint: self.base_mint,
            authority: self.authority,
            payer: self.payer,
        };
        CpiContext::new(self.token_program, cpi_accounts).with_signer(
            SignerSeeds {
                seed: Seed::BaseTreasury,
                key: self.target_mint,
                bump: base_treasury_bump,
            },
        )
    }
}

/// Creates a market: checks the curve selector, writes the market record
/// and its attribution, and lists what the token program has to create.
/// It fails with `UnknownCurve` where the selector names no curve, and has
/// then written nothing.
pub fn handler(
    ctx: &mut NewMarket,
    market_bump: u8,
    _attribution_bump: u8,
    base_treasury_bump: u8,
    authority_bump: u8,
    name: String,
    curve: u8,
) -> (r: Result<Vec<Invocation>, ErrorCode>)
    ensures
        NewMarket::handled(
            *old(ctx),
            *final(ctx),
            market_bump,
            base_treasury_bump,
            authority_bump,
            name@,
            curve,
            planned(r),
        ),
{
    let curve = match Curve::from(curve) {
        Some(curve) => curve,
        None => {
            return Err(ErrorCode::UnknownCurve);
        },
    };
    let mut invocations: Vec<Invocation> = Vec::new();
    invocations.push(
        Invocation::InitializeMint(
            ctx.into_initialize_target_mint_context(),
            TARGET_DECIMALS,
            ctx.authority,
        ),
    );
    invocations.push(
        Invocation::InitializeAccount(
            ctx.into_initialize_base_treasury_context(base_treasury_bump),
        ),
    );
    assert(invocations@ =~= ctx.plan(base_treasury_bump));

    ctx.attribution.name = to_seed_format(name.as_str());
    ctx.attribution.target_mint = ctx.target_mint;
    ctx.market.name = name;
    ctx.market.creator = ctx.creator;
    ctx.market.base_mint = ctx.base_mint;
    ctx.market.target_mint = ctx.target_mint;
    ctx.market.amount_burned = 0;
    ctx.market.base_treasury = Pda { address: ctx.base_treasury, bump: base_treasury_bump };
    ctx.market.authority = Pda { address: ctx.authority, bump: authority_bump };
    ctx.market.curve = curve;
    ctx.market.bump = market_bump;
    Ok(invocations)
}

} // verus!
