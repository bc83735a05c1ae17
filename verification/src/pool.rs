//! Pools.

use vstd::prelude::*;

use crate::account::{Account, AccountInfo, Mint, NewAccount};
use crate::error::ErrorCode;
use crate::key::Pubkey;
use crate::queue::RewardQueue;

verus! {

/// A pool: tokens of one mint are staked in it, for tokens of the pool's own mint.
#[derive(Clone, Copy, Debug, PartialEq, Eq)]
pub struct Pool {
    /// Who may change the pool.
    pub authority: Pubkey,
    /// The bump of the address that may mint the pool's tokens.
    pub nonce: u8,
    /// How long unstaked tokens are held back, in seconds.
    pub withdrawal_timelock: i64,
    /// The account of the ring of reward events.
    pub reward_event_q: Pubkey,
    /// The mint of the tokens that are staked.
    pub mint: Pubkey,
    /// The mint of the pool's own tokens.
    pub pool_mint: Pubkey,
    /// How many staked tokens one token of the pool stands for.
    pub stake_rate: u64,
}

/// The accounts of `create_pool`.
pub struct CreatePool {
    pub pool: NewAccount<Pool>,
    pub reward_event_q: NewAccount<RewardQueue>,
    pub pool_mint: Account<Mint>,
}

impl CreatePool {
    /// Whether the accounts are accepted: both records are new, and the pool's tokens
    /// are indivisible.
    pub open spec fn outcome(self) -> Result<(), ErrorCode> {
        if self.pool.zeroed() is Err {
            self.pool.zeroed()
        } else if self.reward_event_q.zeroed() is Err {
            self.reward_event_q.zeroed()
        } else if self.pool_mint.data.decimals != 0 {
            Err(ErrorCode::ConstraintRaw)
        } else {
            Ok(())
        }
    }

    /// The record of the new pool.
    pub open spec fn record(
        self,
        mint: Pubkey,
        authority: Pubkey,
        nonce: u8,
        withdrawal_timelock: i64,
        stake_rate: u64,
    ) -> Pool {
        Pool {
            authority,
            nonce,
            withdrawal_timelock,
            reward_event_q: self.reward_event_q.info.key,
            mint,
            pool_mint: self.pool_mint.info.key,
            stake_rate,
        }
    }

    /// `after` is what the accounts are once the record of the pool is written and its
    /// ring has `reward_q_len` slots.
    pub open spec fn created(self, record: Pool, reward_q_len: u32, after: CreatePool) -> bool {
        &&& after.reward_event_q.data@ == self.reward_event_q.data@.resize(reward_q_len as nat)
        &&& after == CreatePool {
            pool: NewAccount { data: record, ..self.pool },
            reward_event_q: NewAccount {
                data: after.reward_event_q.data,
                ..self.reward_event_q
            },
            ..self
        }
    }

    /// Checks the accounts.
    pub fn check(&self) -> (r: Result<(), ErrorCode>)
        ensures
            r == self.outcome(),
    {
        self.pool.check_zeroed()?;
        self.reward_event_q.check_zeroed()?;
        if self.pool_mint.data.decimals != 0 {
            return Err(ErrorCode::ConstraintRaw);
        }
        Ok(())
    }
}

/// Writes the record of a new pool, and gives its ring of reward events
/// `reward_q_len` slots.
pub fn create_pool(
    accounts: &mut CreatePool,
    mint: Pubkey,
    authority: Pubkey,
    nonce: u8,
    withdrawal_timelock: i64,
    stake_rate: u64,
    reward_q_len: u32,
) -> (r: Result<(), ErrorCode>)
    ensures
        r == old(accounts).outcome(),
        r is Err ==> *final(accounts) == *old(accounts),
        r is Ok ==> old(accounts).created(
            old(accounts).record(mint, authority, nonce, withdrawal_timelock, stake_rate),
            reward_q_len,
            *final(accounts),
        ),
{
    accounts.check()?;
    let pool = Pool {
        authority,
        nonce,
        withdrawal_timelock,
        reward_event_q: accounts.reward_event_q.info.key,
        mint,
        pool_mint: accounts.pool_mint.info.key,
        stake_rate,
    };
    accounts.pool.data = pool;
    accounts.reward_event_q.data.resize(reward_q_len);
    Ok(())
}

/// The accounts of `update_pool`.
pub struct UpdatePool {
    pub pool: Account<Pool>,
    pub authority: AccountInfo,
}

impl UpdatePool {
    /// Whether the accounts are accepted: the authority of the pool signs.
    pub open spec fn outcome(self) -> Result<(), ErrorCode> {
        if !self.authority.is_signer {
            Err(ErrorCode::AccountNotSigner)
        } else if !self.pool.info.is_writable {
            Err(ErrorCode::ConstraintMut)
        } else if self.pool.data.authority != self.authority.key {
            Err(ErrorCode::ConstraintHasOne)
        } else {
            Ok(())
        }
    }

    /// The accounts once the pool has another authority or another timelock, where one is
    /// given.
    pub open spec fn updated(
        self,
        new_authority: Option<Pubkey>,
        withdrawal_timelock: Option<i64>,
    ) -> UpdatePool {
        UpdatePool {
            pool: Account {
                data: Pool {
                    authority: match new_authority {
                        Some(key) => key,
                        None => self.pool.data.authority,
                    },
                    withdrawal_timelock: match withdrawal_timelock {
                        Some(seconds) => seconds,
                        None => self.pool.data.withdrawal_timelock,
                    },
                    ..self.pool.data
                },
                ..self.pool
            },
            ..self
        }
    }

    /// Checks the accounts.
    pub fn check(&self) -> (r: Result<(), ErrorCode>)
        ensures
            r == self.outcome(),
    {
        if !self.authority.is_signer {
            return Err(ErrorCode::AccountNotSigner);
        }
        if !self.pool.info.is_writable {
            return Err(ErrorCode::ConstraintMut);
        }
        if self.pool.data.authority != self.authority.key {
            return Err(ErrorCode::ConstraintHasOne);
        }
        Ok(())
    }
}

/// Gives a pool another authority, another timelock, both or neither.
pub fn update_pool(
    accounts: &mut UpdatePool,
    new_authority: Option<Pubkey>,
    withdrawal_timelock: Option<i64>,
) -> (r: Result<(), ErrorCode>)
    ensures
        r == old(accounts).outcome(),
        r is Err ==> *final(accounts) == *old(accounts),
        r is Ok ==> *final(accounts) == old(accounts).updated(new_authority, withdrawal_timelock),
{
    accounts.check()?;
    if let Some(key) = new_authority {
        accounts.pool.data.authority = key;
    }
    if let Some(seconds) = withdrawal_timelock {
        accounts.pool.data.withdrawal_timelock = seconds;
    }
    Ok(())
}

} // verus!
