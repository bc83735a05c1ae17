//! Stakers.

use vstd::prelude::*;

use crate::account::{Account, AccountInfo, NewAccount, TokenAccount};
use crate::error::ErrorCode;
use crate::key::Pubkey;
use crate::pool::Pool;

verus! {

/// The token accounts of a staker.
#[derive(Clone, Copy, Debug, PartialEq, Eq)]
pub struct StakerVault {
    /// Tokens that were deposited and are free.
    pub vault: Pubkey,
    /// Tokens that are staked.
    pub vault_staked: Pubkey,
    /// Tokens that were unstaked and are held back.
    pub vault_pending_withdrawal: Pubkey,
    /// Tokens of the pool.
    pub vault_pool_token: Pubkey,
}

impl StakerVault {
    /// The four keys agree.
    pub fn same(&self, other: &StakerVault) -> (r: bool)
        ensures
            r == (*self == *other),
    {
        self.vault == other.vault && self.vault_staked == other.vault_staked
            && self.vault_pending_withdrawal == other.vault_pending_withdrawal
            && self.vault_pool_token == other.vault_pool_token
    }
}

/// Someone's place in a pool.
#[derive(Clone, Copy, Debug, PartialEq, Eq)]
pub struct Staker {
    /// The pool.
    pub pool: Pubkey,
    /// Who stakes, and gets the rewards.
    pub beneficiary: Pubkey,
    /// An account of the beneficiary's choice.
    pub metadata: Pubkey,
    /// The token accounts for tokens that are free to go anywhere.
    pub staker_vault: StakerVault,
    /// The token accounts for tokens that belong to a locker.
    pub staker_vault_locked: StakerVault,
    /// The cursor after that of the last reward that was claimed.
    pub rewards_cursor: u32,
    /// When the stake last changed.
    pub last_stake_ts: i64,
    /// The bump of the address that owns the token accounts.
    pub nonce: u8,
}

/// The accounts of `create_staker`.
pub struct CreateStaker {
    pub pool: Account<Pool>,
    pub staker: NewAccount<Staker>,
    pub beneficiary: AccountInfo,
}

impl CreateStaker {
    /// Whether the accounts are accepted: the beneficiary signs, and the record is
    /// new.
    pub open spec fn outcome(self) -> Result<(), ErrorCode> {
        if !self.beneficiary.is_signer {
            Err(ErrorCode::AccountNotSigner)
        } else {
            self.staker.zeroed()
        }
    }

    /// The accounts once the record says who the staker is.
    pub open spec fn created(self, nonce: u8) -> CreateStaker {
        CreateStaker {
            staker: NewAccount {
                data: Staker {
                    pool: self.pool.info.key,
                    beneficiary: self.beneficiary.key,
                    nonce,
                    ..self.staker.data
                },
                ..self.staker
            },
            ..self
        }
    }

    /// Checks the accounts.
    pub fn check(&self) -> (r: Result<(), ErrorCode>)
        ensures
            r == self.outcome(),
    {
        if !self.beneficiary.is_signer {
            return Err(ErrorCode::AccountNotSigner);
        }
        self.staker.check_zeroed()
    }
}

/// Writes who a new staker is and which pool they are in. The rest of the record
/// stays as it is in the new account.
pub fn create_staker(accounts: &mut CreateStaker, nonce: u8) -> (r: Result<(), ErrorCode>)
    ensures
        r == old(accounts).outcome(),
        r is Err ==> *final(accounts) == *old(accounts),
        r is Ok ==> *final(accounts) == old(accounts).created(nonce),
{
    accounts.check()?;
    accounts.staker.data.pool = accounts.pool.info.key;
    accounts.staker.data.beneficiary = accounts.beneficiary.key;
    accounts.staker.data.nonce = nonce;
    Ok(())
}

/// The accounts of `update_staker`.
pub struct UpdateStaker {
    pub staker: Account<Staker>,
    pub beneficiary: AccountInfo,
}

impl UpdateStaker {
    /// Whether the accounts are accepted: the beneficiary of the staker signs.
    pub open spec fn outcome(self) -> Result<(), ErrorCode> {
        if !self.beneficiary.is_signer {
            Err(ErrorCode::AccountNotSigner)
        } else if !self.staker.info.is_writable {
            Err(ErrorCode::ConstraintMut)
        } else if self.staker.data.beneficiary != self.beneficiary.key {
            Err(ErrorCode::ConstraintHasOne)
        } else {
            Ok(())
        }
    }

    /// The accounts once the staker has other metadata, where some is given.
    pub open spec fn updated(self, metadata: Option<Pubkey>) -> UpdateStaker {
        UpdateStaker {
            staker: Account {
                data: Staker {
                    metadata: match metadata {
                        Some(key) => key,
                        None => self.staker.data.metadata,
                    },
                    ..self.staker.data
                },
                ..self.staker
            },
            ..self
        }
    }

    /// Checks the accounts.
    pub fn check(&self) -> (r: Result<(), ErrorCode>)
        ensures
            r == self.outcome(),
    {
        if !self.beneficiary.is_signer {
            return Err(ErrorCode::AccountNotSigner);
        }
        if !self.staker.info.is_writable {
            return Err(ErrorCode::ConstraintMut);
        }
        if self.staker.data.beneficiary != self.beneficiary.key {
            return Err(ErrorCode::ConstraintHasOne);
        }
        Ok(())
    }
}

/// Gives a staker other metadata, where some is given.
pub fn update_staker(accounts: &mut UpdateStaker, metadata: Option<Pubkey>) -> (r: Result<
    (),
    ErrorCode,
>)
    ensures
        r == old(accounts).outcome(),
        r is Err ==> *final(accounts) == *old(accounts),
        r is Ok ==> *final(accounts) == old(accounts).updated(metadata),
{
    accounts.check()?;
    if let Some(key) = metadata {
        accounts.staker.data.metadata = key;
    }
    Ok(())
}

/// The token accounts of a staker, as they are handed in.
#[derive(Clone, Copy, Debug, PartialEq, Eq)]
pub struct StakerVaultAccounts {
    pub vault: Account<TokenAccount>,
    pub vault_staked: Account<TokenAccount>,
    pub vault_pending_withdrawal: Account<TokenAccount>,
    pub vault_pool_token: Account<TokenAccount>,
}

impl StakerVaultAccounts {
    /// Whether the accounts are accepted: all are writable and have one owner, and
    /// the three for staked tokens have one mint.
    pub open spec fn outcome(self) -> Result<(), ErrorCode> {
        let owner = self.vault_pool_token.data.owner;
        let mint = self.vault.data.mint;
        if !self.vault.info.is_writable {
            Err(ErrorCode::ConstraintMut)
        } else if self.vault.data.owner != owner {
            Err(ErrorCode::ConstraintRaw)
        } else if !self.vault_staked.info.is_writable {
            Err(ErrorCode::ConstraintMut)
        } else if self.vault_staked.data.owner != owner || self.vault_staked.data.mint != mint {
            Err(ErrorCode::ConstraintRaw)
        } else if !self.vault_pending_withdrawal.info.is_writable {
            Err(ErrorCode::ConstraintMut)
        } else if self.vault_pending_withdrawal.data.owner != owner
            || self.vault_pending_withdrawal.data.mint != mint {
            Err(ErrorCode::ConstraintRaw)
        } else if !self.vault_pool_token.info.is_writable {
            Err(ErrorCode::ConstraintMut)
        } else {
            Ok(())
        }
    }

    /// The keys of the accounts.
    pub open spec fn keys(self) -> StakerVault {
        StakerVault {
            vault: self.vault.info.key,
            vault_staked: self.vault_staked.info.key,
            vault_pending_withdrawal: self.vault_pending_withdrawal.info.key,
            vault_pool_token: self.vault_pool_token.info.key,
        }
    }

    /// Checks the accounts.
    pub fn check(&self) -> (r: Result<(), ErrorCode>)
        ensures
            r == self.outcome(),
    {
        let owner = self.vault_pool_token.data.owner;
        let mint = self.vault.data.mint;
        if !self.vault.info.is_writable {
            return Err(ErrorCode::ConstraintMut);
        }
        if self.vault.data.owner != owner {
            return Err(ErrorCode::ConstraintRaw);
        }
        if !self.vault_staked.info.is_writable {
            return Err(ErrorCode::ConstraintMut);
        }
        if self.vault_staked.data.owner != owner || self.vault_staked.data.mint != mint {
            return Err(ErrorCode::ConstraintRaw);
        }
        if !self.vault_pending_withdrawal.info.is_writable {
            return Err(ErrorCode::ConstraintMut);
        }
        if self.vault_pending_withdrawal.data.owner != owner
            || self.vault_pending_withdrawal.data.mint != mint {
            return Err(ErrorCode::ConstraintRaw);
        }
        if !self.vault_pool_token.info.is_writable {
            return Err(ErrorCode::ConstraintMut);
        }
        Ok(())
    }
}

impl From<&StakerVaultAccounts> for StakerVault {
    fn from(accs: &StakerVaultAccounts) -> (r: Self) {
        StakerVault {
            vault_pool_token: accs.vault_pool_token.info.key,
            vault: accs.vault.info.key,
            vault_staked: accs.vault_staked.info.key,
            vault_pending_withdrawal: accs.vault_pending_withdrawal.info.key,
        }
    }
}

impl vstd::std_specs::convert::FromSpecImpl<&StakerVaultAccounts> for StakerVault {
    open spec fn obeys_from_spec() -> bool {
        true
    }

    open spec fn from_spec(accs: &StakerVaultAccounts) -> Self {
        accs.keys()
    }
}

/// Whether token accounts suit a pool: they are owned by `authority`, and have the
/// pool's mints.
pub open spec fn vaults_suit_pool(
    vaults: StakerVaultAccounts,
    pool: Pool,
    authority: Pubkey,
) -> bool {
    &&& vaults.vault_pool_token.data.owner == authority
    &&& vaults.vault_pool_token.data.mint == pool.pool_mint
    &&& vaults.vault.data.mint == pool.mint
}

/// Tests whether token accounts suit a pool.
fn check_vaults_suit_pool(
    vaults: &StakerVaultAccounts,
    pool: &Pool,
    authority: &Pubkey,
) -> (r: bool)
    ensures
        r == vaults_suit_pool(*vaults, *pool, *authority),
{
    vaults.vault_pool_token.data.owner == *authority && vaults.vault_pool_token.data.mint
        == pool.pool_mint && vaults.vault.data.mint == pool.mint
}

/// The accounts of `update_staker_vault`.
pub struct UpdateStakerVault {
    pub pool: Account<Pool>,
    pub staker: Account<Staker>,
    pub staker_vault: StakerVaultAccounts,
    pub staker_vault_authority: AccountInfo,
}

impl UpdateStakerVault {
    /// Whether the accounts are accepted: the token accounts agree with each other,
    /// the pool and the authority. No signature is asked for.
    pub open spec fn outcome(self) -> Result<(), ErrorCode> {
        if self.staker_vault.outcome() is Err {
            self.staker_vault.outcome()
        } else if !self.staker.info.is_writable {
            Err(ErrorCode::ConstraintMut)
        } else if !vaults_suit_pool(
            self.staker_vault,
            self.pool.data,
            self.staker_vault_authority.key,
        ) {
            Err(ErrorCode::ConstraintRaw)
        } else {
            Ok(())
        }
    }

    /// The accounts once the token accounts are recorded.
    pub open spec fn recorded(self) -> UpdateStakerVault {
        UpdateStakerVault {
            staker: Account {
                data: Staker { staker_vault: self.staker_vault.keys(), ..self.staker.data },
                ..self.staker
            },
            ..self
        }
    }

    /// Checks the accounts.
    pub fn check(&self) -> (r: Result<(), ErrorCode>)
        ensures
            r == self.outcome(),
    {
        self.staker_vault.check()?;
        if !self.staker.info.is_writable {
            return Err(ErrorCode::ConstraintMut);
        }
        if !check_vaults_suit_pool(
            &self.staker_vault,
            &self.pool.data,
            &self.staker_vault_authority.key,
        ) {
            return Err(ErrorCode::ConstraintRaw);
        }
        Ok(())
    }
}

/// Records the token accounts of a staker.
pub fn update_staker_vault(accounts: &mut UpdateStakerVault, _nonce: u8) -> (r: Result<
    (),
    ErrorCode,
>)
    ensures
        r == old(accounts).outcome(),
        r is Err ==> *final(accounts) == *old(accounts),
        r is Ok ==> *final(accounts) == old(accounts).recorded(),
{
    accounts.check()?;
    accounts.staker.data.staker_vault = StakerVault::from(&accounts.staker_vault);
    Ok(())
}

/// The accounts of `update_staker_vault_locked`.
pub struct UpdateStakerVaultLocked {
    pub pool: Account<Pool>,
    pub staker: Account<Staker>,
    pub staker_vault_locked: StakerVaultAccounts,
    pub staker_vault_authority: AccountInfo,
}

impl UpdateStakerVaultLocked {
    /// Whether the accounts are accepted: the token accounts agree with each other,
    /// the pool and the authority. No signature is asked for.
    pub open spec fn outcome(self) -> Result<(), ErrorCode> {
        if self.staker_vault_locked.outcome() is Err {
            self.staker_vault_locked.outcome()
        } else if !self.staker.info.is_writable {
            Err(ErrorCode::ConstraintMut)
        } else if !vaults_suit_pool(
            self.staker_vault_locked,
            self.pool.data,
            self.staker_vault_authority.key,
        ) {
            Err(ErrorCode::ConstraintRaw)
        } else {
            Ok(())
        }
    }

    /// The accounts once the token accounts are recorded.
    pub open spec fn recorded(self) -> UpdateStakerVaultLocked {
        UpdateStakerVaultLocked {
            staker: Account {
                data: Staker {
                    staker_vault_locked: self.staker_vault_locked.keys(),
                    ..self.staker.data
                },
                ..self.staker
            },
            ..self
        }
    }

    /// Checks the accounts.
    pub fn check(&self) -> (r: Result<(), ErrorCode>)
        ensures
            r == self.outcome(),
    {
        self.staker_vault_locked.check()?;
        if !self.staker.info.is_writable {
            return Err(ErrorCode::ConstraintMut);
        }
        if !check_vaults_suit_pool(
            &self.staker_vault_locked,
            &self.pool.data,
            &self.staker_vault_authority.key,
        ) {
            return Err(ErrorCode::ConstraintRaw);
        }
        Ok(())
    }
}

/// Records the token accounts of a staker for tokens that belong to a locker.
pub fn update_staker_vault_locked(
    accounts: &mut UpdateStakerVaultLocked,
    _nonce: u8,
) -> (r: Result<(), ErrorCode>)
    ensures
        r == old(accounts).outcome(),
        r is Err ==> *final(accounts) == *old(accounts),
        r is Ok ==> *final(accounts) == old(accounts).recorded(),
{
    accounts.check()?;
    accounts.staker.data.staker_vault_locked = StakerVault::from(&accounts.staker_vault_locked);
    Ok(())
}

} // verus!
