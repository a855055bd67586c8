//! The records that a market keeps: the market itself and the attribution
//! that holds its name.

use vstd::prelude::*;
use crate::state::address::Address;
use crate::utils::error_code::ErrorCode;
use crate::utils::seed_format::normalized;
use crate::utils::seeds::{Seed, SignerSeeds};

verus! {

/// A derived address together with the bump that reproduces it.
#[derive(Clone, Copy, Debug, PartialEq, Eq)]
pub struct Pda {
    pub address: Address,
    pub bump: u8,
}

impl Default for Pda {
    fn default() -> (p: Pda)
        ensures
            p.address.is_zero(),
            p.bump == 0,
    {
        Pda { address: Address::default(), bump: 0 }
    }
}

/// The pricing curve of a market. It is chosen at creation and never changes.
#[derive(Clone, Copy, Debug, PartialEq, Eq, Structural)]
pub enum Curve {
    Linear,
    Quadratic,
}

impl Default for Curve {
    fn default() -> (c: Curve)
        ensures
            c == Curve::Linear,
    {
        Curve::Linear
    }
}

impl Curve {
    /// The curve that a selector names: 0 the linear one, 1 the quadratic
    /// one, and no other number any.
    pub open spec fn of_selector(num: u8) -> Option<Curve> {
        if num == 0 {
            Some(Curve::Linear)
        } else if num == 1 {
            Some(Curve::Quadratic)
        } else {
            None
        }
    }

    /// The curve that a selector names, if it names one.
    pub fn from(num: u8) -> (r: Option<Curve>)
        ensures
            r == Curve::of_selector(num),
    {
        if num == 0 {
            Some(Curve::Linear)
        } else if num == 1 {
            Some(Curve::Quadratic)
        } else {
            None
        }
    }
}

/// The record of one market. There is one per target asset.
#[derive(Debug, PartialEq, Eq)]
pub struct Market {
    /// Display name. Its normalized form is unique among markets.
    pub name: String,
    /// Who created the market. It confers no right.
    pub creator: Address,
    pub base_mint: Address,
    pub target_mint: Address,
    /// Target units destroyed by sponsored burns. It never decreases. The
    /// curve counts them as still minted: see `curve_supply`.
    pub amount_burned: u64,
    /// The account that keeps the base asset that buyers paid in.
    pub base_treasury: Pda,
    /// The derived authority that alone mints the target asset and pays
    /// out of the treasury.
    pub authority: Pda,
    pub curve: Curve,
    pub bump: u8,
}

/// A market record with its name as plain characters.
pub struct MarketView {
    pub name: Seq<char>,
    pub creator: Address,
    pub base_mint: Address,
    pub target_mint: Address,
    pub amount_burned: u64,
    pub base_treasury: Pda,
    pub authority: Pda,
    pub curve: Curve,
    pub bump: u8,
}

impl View for Market {
    type V = MarketView;

    open spec fn view(&self) -> MarketView {
        MarketView {
            name: self.name@,
            creator: self.creator,
            base_mint: self.base_mint,
            target_mint: self.target_mint,
            amount_burned: self.amount_burned,
            base_treasury: self.base_treasury,
            authority: self.authority,
            curve: self.curve,
            bump: self.bump,
        }
    }
}

impl Market {
    /// The supply that the market's curve is priced from: every target
    /// unit that was minted and not sold back. That is what is outstanding
    /// together with what sponsors burned, so that a sponsored burn moves
    /// no price. There is none where the two do not add up within the
    /// amount width.
    pub open spec fn curve_supply(&self, outstanding: u64) -> Result<u64, ErrorCode> {
        if outstanding + self.amount_burned > u64::MAX {
            Err(ErrorCode::SupplyOverflow)
        } else {
            Ok((outstanding + self.amount_burned) as u64)
        }
    }

    /// The supply that the curve is priced from, where `outstanding` units
    /// are outstanding. It fails with `SupplyOverflow` where that supply
    /// leaves the amount width.
    pub fn minted_supply(&self, outstanding: u64) -> (r: Result<u64, ErrorCode>)
        ensures
            r == self.curve_supply(outstanding),
    {
        match outstanding.checked_add(self.amount_burned) {
            Some(minted) => Ok(minted),
            None => Err(ErrorCode::SupplyOverflow),
        }
    }

    /// The seeds that stand for the market's authority: its tag, the
    /// target asset, and the bump that was stored at creation.
    pub open spec fn signer(&self) -> SignerSeeds {
        SignerSeeds {
            seed: Seed::MarketAuthority,
            key: self.target_mint,
            bump: self.authority.bump,
        }
    }

    /// The seeds that stand for the market's authority.
    pub fn authority_seeds(&self) -> (seeds: SignerSeeds)
        ensures
            seeds == self.signer(),
    {
        SignerSeeds {
            seed: Seed::MarketAuthority,
            key: self.target_mint,
            bump: self.authority.bump,
        }
    }
}

impl Clone for Market {
    fn clone(&self) -> (m: Market)
        ensures
            m == *self,
    {
        Market {
            name: self.name.clone(),
            creator: self.creator,
            base_mint: self.base_mint,
            target_mint: self.target_mint,
            amount_burned: self.amount_burned,
            base_treasury: self.base_treasury,
            authority: self.authority,
            curve: self.curve,
            bump: self.bump,
        }
    }
}

impl Default for Market {
    /// An empty record: no name, zero addresses, nothing burned, the
    /// linear curve.
    fn default() -> (m: Market)
        ensures
            m.name@ == Seq::<char>::empty(),
            m.creator.is_zero(),
            m.base_mint.is_zero(),
            m.target_mint.is_zero(),
            m.amount_burned == 0,
            m.base_treasury.address.is_zero(),
            m.base_treasury.bump == 0,
            m.authority.address.is_zero(),
            m.authority.bump == 0,
            m.curve == Curve::Linear,
            m.bump == 0,
    {
        Market {
            name: String::new(),
            creator: Address::default(),
            base_mint: Address::default(),
            target_mint: Address::default(),
            amount_burned: 0,
            base_treasury: Pda::default(),
            authority: Pda::default(),
            curve: Curve::default(),
            bump: 0,
        }
    }
}

/// The record that holds a market name, so that no second market can take
/// it. It is written once, with the market, and never changed.
#[derive(Debug, PartialEq, Eq)]
pub struct MarketAttribution {
    /// The normalized name.
    pub name: Vec<u8>,
    /// The target asset of the market that holds the name.
    pub target_mint: Address,
}

/// An attribution record with its name as plain bytes.
pub struct MarketAttributionView {
    pub name: Seq<u8>,
    pub target_mint: Address,
}

impl View for MarketAttribution {
    type V = MarketAttributionView;

    open spec fn view(&self) -> MarketAttributionView {
        MarketAttributionView { name: self.name@, target_mint: self.target_mint }
    }
}

impl MarketView {
    /// The attribution that is written together with this market: its
    /// normalized name, bound to its target asset.
    pub open spec fn attribution(self) -> MarketAttributionView {
        MarketAttributionView { name: normalized(self.name), target_mint: self.target_mint }
    }
}

impl Clone for MarketAttribution {
    fn clone(&self) -> (a: MarketAttribution)
        ensures
            a@ == self@,
    {
        MarketAttribution { name: self.name.clone(), target_mint: self.target_mint }
    }
}

} // verus!
