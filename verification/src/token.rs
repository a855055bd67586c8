//! What the library knows of the token program: the accounts it reads, and
//! the requests it hands back for the caller to carry out. The caller
//! carries them out in their order, and gives the whole operation up at the
//! first that fails.

use vstd::prelude::*;
use crate::state::address::Address;
use crate::utils::error_code::ErrorCode;
use crate::utils::seeds::SignerSeeds;

verus! {

/// An asset class, as read before the operation.
#[derive(Clone, Copy, Debug, PartialEq, Eq)]
pub struct Mint {
    pub address: Address,
    /// Units outstanding.
    pub supply: u64,
}

/// An account that holds units of one asset class for one owner.
#[derive(Clone, Copy, Debug, PartialEq, Eq)]
pub struct TokenAccount {
    pub address: Address,
    pub mint: Address,
    pub owner: Address,
    pub amount: u64,
    /// False while nothing has been created at the address yet.
    pub is_initialized: bool,
}

/// Move units from one account to another of the same asset class.
#[derive(Clone, Copy, Debug, PartialEq, Eq)]
pub struct Transfer {
    pub from: Address,
    pub to: Address,
    pub authority: Address,
}

/// Create units of an asset class in an account.
#[derive(Clone, Copy, Debug, PartialEq, Eq)]
pub struct MintTo {
    pub mint: Address,
    pub to: Address,
    pub authority: Address,
}

/// Destroy units of an asset class held in an account.
#[derive(Clone, Copy, Debug, PartialEq, Eq)]
pub struct Burn {
    pub mint: Address,
    pub from: Address,
    pub authority: Address,
}

/// Move native coin from one account to another.
#[derive(Clone, Copy, Debug, PartialEq, Eq)]
pub struct TransferLamports {
    pub from: Address,
    pub to: Address,
}

/// Create the account that holds an asset class for a wallet.
#[derive(Clone, Copy, Debug, PartialEq, Eq)]
pub struct Create {
    pub payer: Address,
    pub associated_token: Address,
    pub authority: Address,
    pub mint: Address,
}

/// Create an asset class at a given address.
#[derive(Clone, Copy, Debug, PartialEq, Eq)]
pub struct InitializeMint {
    pub mint: Address,
    /// Who pays for the storage.
    pub payer: Address,
}

/// Create an account for an asset class at a given address.
#[derive(Clone, Copy, Debug, PartialEq, Eq)]
pub struct InitializeAccount {
    pub account: Address,
    pub mint: Address,
    /// Who owns the account.
    pub authority: Address,
    /// Who pays for the storage.
    pub payer: Address,
}

/// A request together with the program it is for and, where a derived
/// authority has to sign, the seeds that stand for it.
#[derive(Debug, PartialEq, Eq)]
pub struct CpiContext<T> {
    pub program: Address,
    pub accounts: T,
    pub signer_seeds: Option<SignerSeeds>,
}

impl<T: Copy> Clone for CpiContext<T> {
    fn clone(&self) -> (ctx: Self)
        ensures
            ctx == *self,
    {
        *self
    }
}

impl<T: Copy> Copy for CpiContext<T> {

}

impl<T> CpiContext<T> {
    /// A request that the accounts' own holder signs.
    pub fn new(program: Address, accounts: T) -> (ctx: Self)
        ensures
            ctx == (CpiContext { program, accounts, signer_seeds: None }),
    {
        CpiContext { program, accounts, signer_seeds: None }
    }

    /// The same request, signed by the authority that the seeds derive.
    pub fn with_signer(self, signer_seeds: SignerSeeds) -> (ctx: Self)
        ensures
            ctx == (CpiContext {
                program: self.program,
                accounts: self.accounts,
                signer_seeds: Some(signer_seeds),
            }),
    {
        CpiContext {
            program: self.program,
            accounts: self.accounts,
            signer_seeds: Some(signer_seeds),
        }
    }
}

/// One request to another program, with its amount where it has one. All
/// but the last are for the token program and its companion that keeps a
/// wallet's accounts.
#[derive(Clone, Copy, Debug, PartialEq, Eq)]
pub enum Invocation {
    Create(CpiContext<Create>),
    Transfer(CpiContext<Transfer>, u64),
    MintTo(CpiContext<MintTo>, u64),
    Burn(CpiContext<Burn>, u64),
    /// The asset class, its decimals and the authority that alone may mint.
    InitializeMint(CpiContext<InitializeMint>, u8, Address),
    InitializeAccount(CpiContext<InitializeAccount>),
    /// A request to the system program, not to the token program: native
    /// coin changes hands.
    TransferLamports(CpiContext<TransferLamports>, u64),
}

/// What an operation decided: the requests in their order, or the refusal.
pub open spec fn planned(r: Result<Vec<Invocation>, ErrorCode>) -> Result<
    Seq<Invocation>,
    ErrorCode,
> {
    match r {
        Ok(invocations) => Ok(invocations@),
        Err(e) => Err(e),
    }
}

} // verus!
