//! The domain tags under which a market's program-controlled addresses are
//! derived, and the seeds that sign for them.

use vstd::prelude::*;
use crate::state::address::Address;
use crate::utils::error_code::ErrorCode;

verus! {

/// `market` in ASCII.
pub const MARKET_SEED: [u8; 6] = [109, 97, 114, 107, 101, 116];

/// `attribution` in ASCII.
pub const MARKET_ATTRIBUTION_SEED: [u8; 11] = [
    97, 116, 116, 114, 105, 98, 117, 116, 105, 111, 110,
];

/// `base_treasury` in ASCII.
pub const BASE_TREASURY_SEED: [u8; 13] = [
    98, 97, 115, 101, 95, 116, 114, 101, 97, 115, 117, 114, 121,
];

/// `market_auth` in ASCII.
pub const MARKET_AUTHORITY_SEED: [u8; 11] = [
    109, 97, 114, 107, 101, 116, 95, 97, 117, 116, 104,
];

/// `treasury` in ASCII.
pub const TREASURY_SEED: [u8; 8] = [116, 114, 101, 97, 115, 117, 114, 121];

/// A fixed domain tag. Each kind of derived address has its own.
#[derive(Clone, Copy, Debug, PartialEq, Eq)]
pub enum Seed {
    /// The market record of a target asset.
    Market,
    /// The record that holds a market name.
    MarketAttribution,
    /// The account that keeps the base asset paid in.
    BaseTreasury,
    /// The authority that mints and pays out.
    MarketAuthority,
    /// The account that keeps the native coin paid in at a fixed-price
    /// market.
    Treasury,
}

impl Seed {
    /// The tag's bytes.
    pub open spec fn bytes(self) -> Seq<u8> {
        match self {
            Seed::Market => MARKET_SEED@,
            Seed::MarketAttribution => MARKET_ATTRIBUTION_SEED@,
            Seed::BaseTreasury => BASE_TREASURY_SEED@,
            Seed::MarketAuthority => MARKET_AUTHORITY_SEED@,
            Seed::Treasury => TREASURY_SEED@,
        }
    }

    /// The tag's bytes.
    pub fn to_vec(&self) -> (v: Vec<u8>)
        ensures
            v@ == self.bytes(),
    {
        match self {
            Seed::Market => vec![109u8, 97, 114, 107, 101, 116],
            Seed::MarketAttribution => vec![97u8, 116, 116, 114, 105, 98, 117, 116, 105, 111, 110],
            Seed::BaseTreasury => vec![
                98u8, 97, 115, 101, 95, 116, 114, 101, 97, 115, 117, 114, 121,
            ],
            Seed::MarketAuthority => vec![109u8, 97, 114, 107, 101, 116, 95, 97, 117, 116, 104],
            Seed::Treasury => vec![116u8, 114, 101, 97, 115, 117, 114, 121],
        }
    }
}

/// How to recompute a derived address: the tag, the key it is bound to, and
/// the bump that was stored when the address was first derived. It stands
/// for the authority itself: there is no key to hold, only these seeds.
#[derive(Clone, Copy, Debug, PartialEq, Eq)]
pub struct SignerSeeds {
    pub seed: Seed,
    pub key: Address,
    pub bump: u8,
}

impl SignerSeeds {
    /// The seeds in the order in which they are hashed.
    pub open spec fn bytes(self) -> Seq<Seq<u8>> {
        seq![self.seed.bytes(), self.key.bytes@, seq![self.bump]]
    }

    /// The seeds in the order in which they are hashed.
    pub fn to_vec(&self) -> (v: Vec<Vec<u8>>)
        ensures
            v.deep_view() == self.bytes(),
    {
        let tag = self.seed.to_vec();
        let key = self.key.to_vec();
        let bump = vec![self.bump];
        let v = vec![tag, key, bump];
        proof {
            assert(v@[0].deep_view() =~= self.seed.bytes());
            assert(v@[1].deep_view() =~= self.key.bytes@);
            assert(v@[2].deep_view() =~= seq![self.bump]);
        }
        v
    }
}

/// What is made of a bump that a caller gave for a derived address:
/// nothing is wrong where it is the bump under which the address was
/// derived, and the caller is turned away where it is another, or where no
/// address was derived at all.
pub open spec fn checked_bump(given: u8, derived: Option<u8>) -> Result<(), ErrorCode> {
    if derived == Some(given) {
        Ok(())
    } else {
        Err(ErrorCode::Unauthorized)
    }
}

/// Holds the bump that a caller gave against the one under which the
/// address was derived. It fails with `Unauthorized` where they differ.
pub fn check_bump(given: u8, derived: Option<u8>) -> (r: Result<(), ErrorCode>)
    ensures
        r == checked_bump(given, derived),
{
    match derived {
        Some(bump) => if bump == given {
            Ok(())
        } else {
            Err(ErrorCode::Unauthorized)
        },
        None => Err(ErrorCode::Unauthorized),
    }
}

} // verus!
