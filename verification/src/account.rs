//! What a request sees of the accounts that it is given.

use vstd::prelude::*;

use crate::error::ErrorCode;
use crate::key::Pubkey;

verus! {

/// An account as the runtime hands it in: its key, and what the transaction lets the
/// program do with it.
#[derive(Clone, Copy, Debug, PartialEq, Eq)]
pub struct AccountInfo {
    pub key: Pubkey,
    pub is_signer: bool,
    pub is_writable: bool,
}

/// An account that holds a record of the type `T`.
#[derive(Clone, Copy, Debug, PartialEq, Eq)]
pub struct Account<T> {
    pub info: AccountInfo,
    pub data: T,
}

/// An account that is to hold a new record of the type `T`.
#[derive(Clone, Copy, Debug, PartialEq, Eq)]
pub struct NewAccount<T> {
    pub info: AccountInfo,
    /// The tag in front of the record: zero as long as none was written.
    pub discriminator: u64,
    /// Whether the account holds the rent for its size.
    pub rent_exempt: bool,
    pub data: T,
}

impl<T> NewAccount<T> {
    /// Whether a new record may be written: the account must hold none, be writable
    /// and hold its rent.
    pub open spec fn zeroed(self) -> Result<(), ErrorCode> {
        if self.discriminator != 0 {
            Err(ErrorCode::ConstraintZero)
        } else if !self.info.is_writable {
            Err(ErrorCode::ConstraintMut)
        } else if !self.rent_exempt {
            Err(ErrorCode::ConstraintRentExempt)
        } else {
            Ok(())
        }
    }

    /// Checks that a new record may be written.
    pub fn check_zeroed(&self) -> (r: Result<(), ErrorCode>)
        ensures
            r == self.zeroed(),
    {
        if self.discriminator != 0 {
            return Err(ErrorCode::ConstraintZero);
        }
        if !self.info.is_writable {
            return Err(ErrorCode::ConstraintMut);
        }
        if !self.rent_exempt {
            return Err(ErrorCode::ConstraintRentExempt);
        }
        Ok(())
    }
}

/// An account that is created within the request, to hold a new record of the type `T`.
#[derive(Debug, PartialEq, Eq)]
pub struct CreatedAccount<T> {
    pub info: AccountInfo,
    /// Whether the address was in use before: the account held data, with a tag or
    /// without, or belonged to a program.
    pub in_use: bool,
    /// What the system program replied when it was asked to create the account.
    pub reply: Result<(), ErrorCode>,
    /// Whether the account holds the rent for its size.
    pub rent_exempt: bool,
    pub data: T,
}

impl<T> CreatedAccount<T> {
    /// Whether the account was created: the system program's error is handed on, and an
    /// address that was in use is refused whatever the reply.
    pub open spec fn created(self) -> Result<(), ErrorCode> {
        match self.reply {
            Err(e) => Err(e),
            Ok(_) => if self.in_use {
                Err(ErrorCode::AccountAlreadyInUse)
            } else {
                Ok(())
            },
        }
    }

    /// Checks that the account was created.
    pub fn check_created(&self) -> (r: Result<(), ErrorCode>)
        ensures
            r == self.created(),
    {
        match self.reply {
            Err(e) => Err(e),
            Ok(_) => if self.in_use {
                Err(ErrorCode::AccountAlreadyInUse)
            } else {
                Ok(())
            },
        }
    }
}

/// What the program reads of a token account.
#[derive(Clone, Copy, Debug, PartialEq, Eq)]
pub struct TokenAccount {
    /// The mint of the tokens.
    pub mint: Pubkey,
    /// Who may move the tokens.
    pub owner: Pubkey,
    /// How many tokens there are.
    pub amount: u64,
}

/// What the program reads of a mint.
#[derive(Clone, Copy, Debug, PartialEq, Eq)]
pub struct Mint {
    /// How many tokens there are in all.
    pub supply: u64,
    /// How many decimal places an amount has.
    pub decimals: u8,
}

/// What the program reads of the clock.
#[derive(Clone, Copy, Debug, PartialEq, Eq)]
pub struct Clock {
    pub unix_timestamp: i64,
}

} // verus!
