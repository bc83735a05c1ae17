//! The manager: which programs the pools work with.

use vstd::prelude::*;

use crate::account::{Account, AccountInfo, CreatedAccount};
use crate::address::{find_manager, manager_address, manager_exists};
use crate::error::ErrorCode;
use crate::key::{lemma_key_is_its_bytes, Pubkey};

verus! {

/// The record of a manager.
#[derive(Clone, Copy, Debug, PartialEq, Eq)]
pub struct PoolManagerInfo {
    pub authority: Pubkey,
    /// The program that keeps lockers.
    pub locker_manager_program: Pubkey,
    /// The program that decides when a locker may be emptied.
    pub reward_keeper_program: Pubkey,
}

/// The accounts of `initialize`.
pub struct Initialize {
    pub authority: AccountInfo,
    pub locker_manager_program: AccountInfo,
    pub reward_keeper_program: AccountInfo,
    pub pool_manager_info: CreatedAccount<PoolManagerInfo>,
}

impl Initialize {
    /// Whether the accounts are accepted, where the manager's address is `address`: the
    /// authority signs, and the account of the record was created, at this address. The
    /// account is created before anything else about it is looked at.
    pub open spec fn outcome(self, address: Seq<u8>) -> Result<(), ErrorCode> {
        if !self.authority.is_signer {
            Err(ErrorCode::AccountNotSigner)
        } else if self.pool_manager_info.created() is Err {
            self.pool_manager_info.created()
        } else if self.pool_manager_info.info.key@ != address {
            Err(ErrorCode::ConstraintSeeds)
        } else if !self.pool_manager_info.info.is_writable {
            Err(ErrorCode::ConstraintMut)
        } else if !self.pool_manager_info.rent_exempt {
            Err(ErrorCode::ConstraintRentExempt)
        } else if !self.authority.is_writable {
            Err(ErrorCode::ConstraintMut)
        } else {
            Ok(())
        }
    }

    /// The accounts once the record is written: it names the signer as authority, and
    /// the two programs.
    pub open spec fn written(self) -> Initialize {
        Initialize {
            pool_manager_info: CreatedAccount {
                data: PoolManagerInfo {
                    authority: self.authority.key,
                    locker_manager_program: self.locker_manager_program.key,
                    reward_keeper_program: self.reward_keeper_program.key,
                },
                ..self.pool_manager_info
            },
            ..self
        }
    }

    /// Checks the accounts, where the manager's address is `address`.
    pub fn check(&self, address: &Pubkey) -> (r: Result<(), ErrorCode>)
        ensures
            r == self.outcome(address@),
    {
        proof {
            lemma_key_is_its_bytes(self.pool_manager_info.info.key, *address);
        }
        if !self.authority.is_signer {
            return Err(ErrorCode::AccountNotSigner);
        }
        self.pool_manager_info.check_created()?;
        if self.pool_manager_info.info.key != *address {
            return Err(ErrorCode::ConstraintSeeds);
        }
        if !self.pool_manager_info.info.is_writable {
            return Err(ErrorCode::ConstraintMut);
        }
        if !self.pool_manager_info.rent_exempt {
            return Err(ErrorCode::ConstraintRentExempt);
        }
        if !self.authority.is_writable {
            return Err(ErrorCode::ConstraintMut);
        }
        Ok(())
    }
}

/// Writes the record of a manager, where its address is `address`.
pub fn initialize_at(accounts: &mut Initialize, address: &Pubkey) -> (r: Result<(), ErrorCode>)
    ensures
        r == old(accounts).outcome(address@),
        r is Err ==> *final(accounts) == *old(accounts),
        r is Ok ==> *final(accounts) == old(accounts).written(),
{
    accounts.check(address)?;
    let info = PoolManagerInfo {
        authority: accounts.authority.key,
        locker_manager_program: accounts.locker_manager_program.key,
        reward_keeper_program: accounts.reward_keeper_program.key,
    };
    accounts.pool_manager_info.data = info;
    Ok(())
}

/// Writes the record of the manager with the number `pool_manager_nonce`.
pub fn initialize(
    accounts: &mut Initialize,
    program_id: &Pubkey,
    pool_manager_nonce: u64,
) -> (r: Result<(), ErrorCode>)
    requires
        old(accounts).authority.is_signer ==> manager_exists(pool_manager_nonce, *program_id),
    ensures
        r == old(accounts).outcome(manager_address(pool_manager_nonce, *program_id)),
        r is Err ==> *final(accounts) == *old(accounts),
        r is Ok ==> *final(accounts) == old(accounts).written(),
{
    if !accounts.authority.is_signer {
        return Err(ErrorCode::AccountNotSigner);
    }
    let address = find_manager(pool_manager_nonce, program_id).unwrap();
    initialize_at(accounts, &address)
}

/// Writes the record of the manager with the number `pool_manager_nonce`; `None`,
/// and nothing changed, where no address can be derived for that number.
pub fn try_initialize(
    accounts: &mut Initialize,
    program_id: &Pubkey,
    pool_manager_nonce: u64,
) -> (r: Option<Result<(), ErrorCode>>)
    ensures
        r is None <==> old(accounts).authority.is_signer && !manager_exists(
            pool_manager_nonce,
            *program_id,
        ),
        r is None ==> *final(accounts) == *old(accounts),
        r matches Some(result) ==> {
            &&& result == old(accounts).outcome(manager_address(pool_manager_nonce, *program_id))
            &&& result is Err ==> *final(accounts) == *old(accounts)
            &&& result is Ok ==> *final(accounts) == old(accounts).written()
        },
{
    if accounts.authority.is_signer && find_manager(pool_manager_nonce, program_id).is_none() {
        return None;
    }
    Some(initialize(accounts, program_id, pool_manager_nonce))
}

/// The accounts of `set_locker_manager` and `set_authority`.
pub struct Auth {
    pub authority: AccountInfo,
    pub pool_manager_info: Account<PoolManagerInfo>,
}

impl Auth {
    /// Whether the accounts are accepted, where the manager's address is `address`.
    /// Any signer will do.
    pub open spec fn outcome(self, address: Seq<u8>) -> Result<(), ErrorCode> {
        if !self.authority.is_signer {
            Err(ErrorCode::AccountNotSigner)
        } else if self.pool_manager_info.info.key@ != address {
            Err(ErrorCode::ConstraintSeeds)
        } else if !self.pool_manager_info.info.is_writable {
            Err(ErrorCode::ConstraintMut)
        } else {
            Ok(())
        }
    }

    /// The accounts with another record of the manager.
    pub open spec fn with_info(self, info: PoolManagerInfo) -> Auth {
        Auth {
            pool_manager_info: Account { data: info, ..self.pool_manager_info },
            ..self
        }
    }

    /// The accounts once the record names another program for lockers.
    pub open spec fn with_locker_manager(self, locker_manager_program: Pubkey) -> Auth {
        self.with_info(
            PoolManagerInfo { locker_manager_program, ..self.pool_manager_info.data },
        )
    }

    /// The accounts once the record names another authority.
    pub open spec fn with_authority(self, authority: Pubkey) -> Auth {
        self.with_info(PoolManagerInfo { authority, ..self.pool_manager_info.data })
    }

    /// Checks the accounts, where the manager's address is `address`.
    pub fn check(&self, address: &Pubkey) -> (r: Result<(), ErrorCode>)
        ensures
            r == self.outcome(address@),
    {
        proof {
            lemma_key_is_its_bytes(self.pool_manager_info.info.key, *address);
        }
        if !self.authority.is_signer {
            return Err(ErrorCode::AccountNotSigner);
        }
        if self.pool_manager_info.info.key != *address {
            return Err(ErrorCode::ConstraintSeeds);
        }
        if !self.pool_manager_info.info.is_writable {
            return Err(ErrorCode::ConstraintMut);
        }
        Ok(())
    }
}

/// Names another program for lockers, where the manager's address is `address`.
pub fn set_locker_manager_at(
    accounts: &mut Auth,
    address: &Pubkey,
    locker_manager_program: Pubkey,
) -> (r: Result<(), ErrorCode>)
    ensures
        r == old(accounts).outcome(address@),
        r is Err ==> *final(accounts) == *old(accounts),
        r is Ok ==> *final(accounts) == old(accounts).with_locker_manager(locker_manager_program),
{
    accounts.check(address)?;
    accounts.pool_manager_info.data.locker_manager_program = locker_manager_program;
    Ok(())
}

/// Names another program for lockers in the record of the manager with the number
/// `pool_manager_nonce`.
pub fn set_locker_manager(
    accounts: &mut Auth,
    program_id: &Pubkey,
    pool_manager_nonce: u64,
    locker_manager_program: Pubkey,
) -> (r: Result<(), ErrorCode>)
    requires
        old(accounts).authority.is_signer ==> manager_exists(pool_manager_nonce, *program_id),
    ensures
        r == old(accounts).outcome(manager_address(pool_manager_nonce, *program_id)),
        r is Err ==> *final(accounts) == *old(accounts),
        r is Ok ==> *final(accounts) == old(accounts).with_locker_manager(locker_manager_program),
{
    if !accounts.authority.is_signer {
        return Err(ErrorCode::AccountNotSigner);
    }
    let address = find_manager(pool_manager_nonce, program_id).unwrap();
    set_locker_manager_at(accounts, &address, locker_manager_program)
}

/// Names another program for lockers in the record of the manager with the number
/// `pool_manager_nonce`; `None`, and nothing changed, where no address can be derived
/// for that number.
pub fn try_set_locker_manager(
    accounts: &mut Auth,
    program_id: &Pubkey,
    pool_manager_nonce: u64,
    locker_manager_program: Pubkey,
) -> (r: Option<Result<(), ErrorCode>>)
    ensures
        r is None <==> old(accounts).authority.is_signer && !manager_exists(
            pool_manager_nonce,
            *program_id,
        ),
        r is None ==> *final(accounts) == *old(accounts),
        r matches Some(result) ==> {
            &&& result == old(accounts).outcome(manager_address(pool_manager_nonce, *program_id))
            &&& result is Err ==> *final(accounts) == *old(accounts)
            &&& result is Ok ==> *final(accounts) == old(accounts).with_locker_manager(
                locker_manager_program,
            )
        },
{
    if accounts.authority.is_signer && find_manager(pool_manager_nonce, program_id).is_none() {
        return None;
    }
    Some(set_locker_manager(accounts, program_id, pool_manager_nonce, locker_manager_program))
}

/// Names another authority, where the manager's address is `address`.
pub fn set_authority_at(
    accounts: &mut Auth,
    address: &Pubkey,
    new_authority: Pubkey,
) -> (r: Result<(), ErrorCode>)
    ensures
        r == old(accounts).outcome(address@),
        r is Err ==> *final(accounts) == *old(accounts),
        r is Ok ==> *final(accounts) == old(accounts).with_authority(new_authority),
{
    accounts.check(address)?;
    accounts.pool_manager_info.data.authority = new_authority;
    Ok(())
}

/// Names another authority in the record of the manager with the number
/// `pool_manager_nonce`.
pub fn set_authority(
    accounts: &mut Auth,
    program_id: &Pubkey,
    pool_manager_nonce: u64,
    new_authority: Pubkey,
) -> (r: Result<(), ErrorCode>)
    requires
        old(accounts).authority.is_signer ==> manager_exists(pool_manager_nonce, *program_id),
    ensures
        r == old(accounts).outcome(manager_address(pool_manager_nonce, *program_id)),
        r is Err ==> *final(accounts) == *old(accounts),
        r is Ok ==> *final(accounts) == old(accounts).with_authority(new_authority),
{
    if !accounts.authority.is_signer {
        return Err(ErrorCode::AccountNotSigner);
    }
    let address = find_manager(pool_manager_nonce, program_id).unwrap();
    set_authority_at(accounts, &address, new_authority)
}

/// Names another authority in the record of the manager with the number
/// `pool_manager_nonce`; `None`, and nothing changed, where no address can be derived
/// for that number.
pub fn try_set_authority(
    accounts: &mut Auth,
    program_id: &Pubkey,
    pool_manager_nonce: u64,
    new_authority: Pubkey,
) -> (r: Option<Result<(), ErrorCode>>)
    ensures
        r is None <==> old(accounts).authority.is_signer && !manager_exists(
            pool_manager_nonce,
            *program_id,
        ),
        r is None ==> *final(accounts) == *old(accounts),
        r matches Some(result) ==> {
            &&& result == old(accounts).outcome(manager_address(pool_manager_nonce, *program_id))
            &&& result is Err ==> *final(accounts) == *old(accounts)
            &&& result is Ok ==> *final(accounts) == old(accounts).with_authority(new_authority)
        },
{
    if accounts.authority.is_signer && find_manager(pool_manager_nonce, program_id).is_none() {
        return None;
    }
    Some(set_authority(accounts, program_id, pool_manager_nonce, new_authority))
}

} // verus!
