//! Why a request is refused.

use vstd::prelude::*;

verus! {

/// The reasons for which a request is refused. A refused request changes nothing.
#[derive(Clone, Copy, Debug, PartialEq, Eq, Structural)]
pub enum ErrorCode {
    /// An account that must be writable is not.
    ConstraintMut,
    /// A record names another account than the one that was passed.
    ConstraintHasOne,
    /// Accounts that must agree with each other do not.
    ConstraintRaw,
    /// An account does not have the address that its seeds give.
    ConstraintSeeds,
    /// An account that is to hold a new record does not hold the rent for it.
    ConstraintRentExempt,
    /// An account that is to hold a new record holds one already.
    ConstraintZero,
    /// An account that must sign did not.
    AccountNotSigner,
    /// The address of an account that is to be created is in use already.
    AccountAlreadyInUse,
    /// An account that is to be created could not be, for want of a privilege or of
    /// funds.
    AccountNotCreated,
    /// A record does not allow the request.
    InvalidAccountData,
}

} // verus!
