//! Calls into the token program that a request makes.

use vstd::prelude::*;

use crate::address::SignerSeeds;
use crate::key::Pubkey;

verus! {

/// Moves tokens from one token account to another.
#[derive(Clone, Copy, Debug, PartialEq, Eq)]
pub struct Transfer {
    pub from: Pubkey,
    pub to: Pubkey,
    /// The owner of the tokens, who signs.
    pub authority: Pubkey,
    pub amount: u64,
    /// The seeds with which the program signs for the authority, where it does.
    pub signer: Option<SignerSeeds>,
}

/// Mints new tokens to a token account.
#[derive(Clone, Copy, Debug, PartialEq, Eq)]
pub struct MintTo {
    pub mint: Pubkey,
    pub to: Pubkey,
    /// The authority of the mint, who signs.
    pub authority: Pubkey,
    pub amount: u64,
    /// The seeds with which the program signs for the authority, where it does.
    pub signer: Option<SignerSeeds>,
}

/// Burns tokens of a token account.
#[derive(Clone, Copy, Debug, PartialEq, Eq)]
pub struct Burn {
    pub mint: Pubkey,
    pub from: Pubkey,
    /// The owner of the tokens, who signs.
    pub authority: Pubkey,
    pub amount: u64,
    /// The seeds with which the program signs for the authority, where it does.
    pub signer: Option<SignerSeeds>,
}

} // verus!
