//! What each request does once it is accepted.
//!
//! Each law says, field by field, what the calls of a request are and what becomes of its
//! accounts. A refused request makes no call and changes nothing.

use vstd::prelude::*;

use crate::address::SignerSeeds;
use crate::error::ErrorCode;
use crate::key::Pubkey;
use crate::manager::{Auth, Initialize};
use crate::pool::{CreatePool, UpdatePool};
use crate::rewards::{
    ClaimReward, ClaimRewardCommon, ClaimRewardToLocker, DropReward, ExpireReward, RewarderKind,
};
use crate::staker::{
    CreateStaker, StakerVaultAccounts, UpdateStaker, UpdateStakerVault, UpdateStakerVaultLocked,
};
use crate::staking::{Deposit, EndUnstake, Stake, StartUnstake, Withdraw};

verus! {

// ---------------------------------------------------------------------------
// Managers
// ---------------------------------------------------------------------------

/// `initialize` names the signer as authority, and the two programs that were passed, and
/// changes nothing else.
pub proof fn law_initialize_writes(accounts: Initialize)
    ensures
        ({
            let after = accounts.written();
            let record = after.pool_manager_info.data;
            &&& record.authority == accounts.authority.key
            &&& record.locker_manager_program == accounts.locker_manager_program.key
            &&& record.reward_keeper_program == accounts.reward_keeper_program.key
            &&& after.pool_manager_info.info == accounts.pool_manager_info.info
            &&& after.pool_manager_info.in_use == accounts.pool_manager_info.in_use
            &&& after.pool_manager_info.reply == accounts.pool_manager_info.reply
            &&& after.pool_manager_info.rent_exempt == accounts.pool_manager_info.rent_exempt
            &&& after.authority == accounts.authority
            &&& after.locker_manager_program == accounts.locker_manager_program
            &&& after.reward_keeper_program == accounts.reward_keeper_program
        }),
{
}

/// `set_locker_manager` names the new program for lockers, and changes nothing else.
pub proof fn law_set_locker_manager_writes(accounts: Auth, locker_manager_program: Pubkey)
    ensures
        ({
            let after = accounts.with_locker_manager(locker_manager_program);
            let was = accounts.pool_manager_info.data;
            let record = after.pool_manager_info.data;
            &&& record.locker_manager_program == locker_manager_program
            &&& record.authority == was.authority
            &&& record.reward_keeper_program == was.reward_keeper_program
            &&& after.pool_manager_info.info == accounts.pool_manager_info.info
            &&& after.authority == accounts.authority
        }),
{
}

/// `set_authority` names the new authority, and changes nothing else.
pub proof fn law_set_authority_writes(accounts: Auth, authority: Pubkey)
    ensures
        ({
            let after = accounts.with_authority(authority);
            let was = accounts.pool_manager_info.data;
            let record = after.pool_manager_info.data;
            &&& record.authority == authority
            &&& record.locker_manager_program == was.locker_manager_program
            &&& record.reward_keeper_program == was.reward_keeper_program
            &&& after.pool_manager_info.info == accounts.pool_manager_info.info
            &&& after.authority == accounts.authority
        }),
{
}

// ---------------------------------------------------------------------------
// Pools
// ---------------------------------------------------------------------------

/// A new pool has what was asked for, and the ring and the mint that were passed. Its
/// ring has as many slots as were asked for, those that were there already kept and the
/// new ones empty, and its cursors stay. Nothing else changes.
pub proof fn law_create_pool_writes(
    accounts: CreatePool,
    mint: Pubkey,
    authority: Pubkey,
    nonce: u8,
    withdrawal_timelock: i64,
    stake_rate: u64,
    reward_q_len: u32,
    after: CreatePool,
)
    requires
        accounts.created(
            accounts.record(mint, authority, nonce, withdrawal_timelock, stake_rate),
            reward_q_len,
            after,
        ),
    ensures
        after.pool.data.authority == authority,
        after.pool.data.nonce == nonce,
        after.pool.data.withdrawal_timelock == withdrawal_timelock,
        after.pool.data.reward_event_q == accounts.reward_event_q.info.key,
        after.pool.data.mint == mint,
        after.pool.data.pool_mint == accounts.pool_mint.info.key,
        after.pool.data.stake_rate == stake_rate,
        after.pool.info == accounts.pool.info,
        after.pool.discriminator == accounts.pool.discriminator,
        after.pool.rent_exempt == accounts.pool.rent_exempt,
        after.reward_event_q.info == accounts.reward_event_q.info,
        after.reward_event_q.discriminator == accounts.reward_event_q.discriminator,
        after.reward_event_q.rent_exempt == accounts.reward_event_q.rent_exempt,
        after.reward_event_q.data@.slots.len() == reward_q_len,
        after.reward_event_q.data@.head == accounts.reward_event_q.data@.head,
        after.reward_event_q.data@.tail == accounts.reward_event_q.data@.tail,
        forall|i: int|
            0 <= i < reward_q_len && i < accounts.reward_event_q.data@.slots.len()
                ==> #[trigger] after.reward_event_q.data@.slots[i]
                == accounts.reward_event_q.data@.slots[i],
        forall|i: int|
            accounts.reward_event_q.data@.slots.len() <= i < reward_q_len ==> {
                let event = #[trigger] after.reward_event_q.data@.slots[i];
                event.ts == 0 && !event.locked && event.rewarder == crate::key::zero_key()
            },
        after.pool_mint == accounts.pool_mint,
{
}

/// Changing a pool replaces the authority and the timelock where one is given, and
/// changes nothing else.
pub proof fn law_update_pool_writes(
    accounts: UpdatePool,
    new_authority: Option<Pubkey>,
    withdrawal_timelock: Option<i64>,
)
    ensures
        ({
            let after = accounts.updated(new_authority, withdrawal_timelock);
            let was = accounts.pool.data;
            let record = after.pool.data;
            &&& new_authority matches Some(key) ==> record.authority == key
            &&& new_authority is None ==> record.authority == was.authority
            &&& withdrawal_timelock matches Some(t) ==> record.withdrawal_timelock == t
            &&& withdrawal_timelock is None ==> record.withdrawal_timelock
                == was.withdrawal_timelock
            &&& record.nonce == was.nonce
            &&& record.reward_event_q == was.reward_event_q
            &&& record.mint == was.mint
            &&& record.pool_mint == was.pool_mint
            &&& record.stake_rate == was.stake_rate
            &&& after.pool.info == accounts.pool.info
            &&& after.authority == accounts.authority
        }),
{
}

// ---------------------------------------------------------------------------
// Stakers
// ---------------------------------------------------------------------------

/// A new staker has the pool and the beneficiary that were passed and the bump that was
/// given; the rest of the record, and all else, stays as it was.
pub proof fn law_create_staker_writes(accounts: CreateStaker, nonce: u8)
    ensures
        ({
            let after = accounts.created(nonce);
            let was = accounts.staker.data;
            let record = after.staker.data;
            &&& record.pool == accounts.pool.info.key
            &&& record.beneficiary == accounts.beneficiary.key
            &&& record.nonce == nonce
            &&& record.metadata == was.metadata
            &&& record.staker_vault == was.staker_vault
            &&& record.staker_vault_locked == was.staker_vault_locked
            &&& record.rewards_cursor == was.rewards_cursor
            &&& record.last_stake_ts == was.last_stake_ts
            &&& after.staker.info == accounts.staker.info
            &&& after.staker.discriminator == accounts.staker.discriminator
            &&& after.staker.rent_exempt == accounts.staker.rent_exempt
            &&& after.pool == accounts.pool
            &&& after.beneficiary == accounts.beneficiary
        }),
{
}

/// Changing a staker replaces the metadata where some is given, and changes nothing else.
pub proof fn law_update_staker_writes(accounts: UpdateStaker, metadata: Option<Pubkey>)
    ensures
        ({
            let after = accounts.updated(metadata);
            let was = accounts.staker.data;
            let record = after.staker.data;
            &&& metadata matches Some(key) ==> record.metadata == key
            &&& metadata is None ==> record.metadata == was.metadata
            &&& record.pool == was.pool
            &&& record.beneficiary == was.beneficiary
            &&& record.staker_vault == was.staker_vault
            &&& record.staker_vault_locked == was.staker_vault_locked
            &&& record.rewards_cursor == was.rewards_cursor
            &&& record.last_stake_ts == was.last_stake_ts
            &&& record.nonce == was.nonce
            &&& after.staker.info == accounts.staker.info
            &&& after.beneficiary == accounts.beneficiary
        }),
{
}

/// Each key of the token accounts of a staker is recorded in its own place.
pub proof fn law_vault_keys(vaults: StakerVaultAccounts)
    ensures
        vaults.keys().vault == vaults.vault.info.key,
        vaults.keys().vault_staked == vaults.vault_staked.info.key,
        vaults.keys().vault_pending_withdrawal == vaults.vault_pending_withdrawal.info.key,
        vaults.keys().vault_pool_token == vaults.vault_pool_token.info.key,
{
}

/// Recording token accounts puts their keys into the free set of the staker, and changes
/// nothing else.
pub proof fn law_update_staker_vault_writes(accounts: UpdateStakerVault)
    ensures
        ({
            let after = accounts.recorded();
            let was = accounts.staker.data;
            let record = after.staker.data;
            let vaults = accounts.staker_vault;
            &&& record.staker_vault.vault == vaults.vault.info.key
            &&& record.staker_vault.vault_staked == vaults.vault_staked.info.key
            &&& record.staker_vault.vault_pending_withdrawal
                == vaults.vault_pending_withdrawal.info.key
            &&& record.staker_vault.vault_pool_token == vaults.vault_pool_token.info.key
            &&& record.staker_vault_locked == was.staker_vault_locked
            &&& record.pool == was.pool
            &&& record.beneficiary == was.beneficiary
            &&& record.metadata == was.metadata
            &&& record.rewards_cursor == was.rewards_cursor
            &&& record.last_stake_ts == was.last_stake_ts
            &&& record.nonce == was.nonce
            &&& after.staker.info == accounts.staker.info
            &&& after.pool == accounts.pool
            &&& after.staker_vault == accounts.staker_vault
            &&& after.staker_vault_authority == accounts.staker_vault_authority
        }),
{
}

/// Recording token accounts for tokens of a locker puts their keys into the locked set of
/// the staker, and changes nothing else.
pub proof fn law_update_staker_vault_locked_writes(accounts: UpdateStakerVaultLocked)
    ensures
        ({
            let after = accounts.recorded();
            let was = accounts.staker.data;
            let record = after.staker.data;
            let vaults = accounts.staker_vault_locked;
            &&& record.staker_vault_locked.vault == vaults.vault.info.key
            &&& record.staker_vault_locked.vault_staked == vaults.vault_staked.info.key
            &&& record.staker_vault_locked.vault_pending_withdrawal
                == vaults.vault_pending_withdrawal.info.key
            &&& record.staker_vault_locked.vault_pool_token == vaults.vault_pool_token.info.key
            &&& record.staker_vault == was.staker_vault
            &&& record.pool == was.pool
            &&& record.beneficiary == was.beneficiary
            &&& record.metadata == was.metadata
            &&& record.rewards_cursor == was.rewards_cursor
            &&& record.last_stake_ts == was.last_stake_ts
            &&& record.nonce == was.nonce
            &&& after.staker.info == accounts.staker.info
            &&& after.pool == accounts.pool
            &&& after.staker_vault_locked == accounts.staker_vault_locked
            &&& after.staker_vault_authority == accounts.staker_vault_authority
        }),
{
}

// ---------------------------------------------------------------------------
// Staking
// ---------------------------------------------------------------------------

/// An accepted deposit moves exactly the amount that was asked for from the depositor's
/// account to the free account of the staker, with the beneficiary's own signature.
pub proof fn law_deposit_moves(accounts: Deposit, amount: u64)
    ensures
        accounts.outcome() matches Err(e) ==> accounts.deposited(amount) matches Err(f) && f == e,
        accounts.outcome() is Ok ==> {
            &&& accounts.deposited(amount) matches Ok(t)
            &&& t.from == accounts.depositor.key
            &&& t.to == accounts.vault.info.key
            &&& t.to == accounts.staker.data.staker_vault.vault
            &&& t.authority == accounts.depositor_authority.key
            &&& t.authority == accounts.staker.data.beneficiary
            &&& t.amount == amount
            &&& t.signer is None
        },
{
}

/// An accepted stake moves the pool tokens times the rate from the free account of the
/// staker to the staked one, and mints the pool tokens to the pool token account of the
/// staker's free set. The program signs as the staker's address for the one, as the
/// pool's for the other.
pub proof fn law_stake_moves(
    accounts: Stake,
    vault_authority: Option<Seq<u8>>,
    mint_authority: Option<Seq<u8>>,
    pool_token_amount: u64,
)
    requires
        accounts.outcome(vault_authority, mint_authority) is Ok,
        pool_token_amount * accounts.pool.data.stake_rate <= u64::MAX,
    ensures
        ({
            let set = accounts.staker.data.staker_vault;
            let r = accounts.staked(
                accounts.outcome(vault_authority, mint_authority),
                pool_token_amount,
            ).0;
            &&& r matches Ok((t, m))
            &&& t.from == set.vault
            &&& t.from == accounts.staker_vault.vault.info.key
            &&& t.to == set.vault_staked
            &&& t.to == accounts.staker_vault.vault_staked.info.key
            &&& t.authority == accounts.staker_vault_authority.key
            &&& t.amount == pool_token_amount * accounts.pool.data.stake_rate
            &&& t.signer == Some(
                SignerSeeds::Record {
                    pool: accounts.pool.info.key,
                    record: accounts.staker.info.key,
                    bump: accounts.staker.data.nonce,
                },
            )
            &&& m.mint == accounts.pool.data.pool_mint
            &&& m.mint == accounts.pool_mint.key
            &&& m.to == set.vault_pool_token
            &&& m.to == accounts.staker_vault.vault_pool_token.info.key
            &&& m.authority == accounts.pool_mint_authority.key
            &&& m.amount == pool_token_amount
            &&& m.signer == Some(
                SignerSeeds::Pool {
                    pool: accounts.pool.info.key,
                    bump: accounts.pool.data.nonce,
                },
            )
        }),
{
    assert(accounts.staker_vault.keys().vault == accounts.staker.data.staker_vault.vault);
    assert(accounts.staker_vault.keys().vault_staked
        == accounts.staker.data.staker_vault.vault_staked);
    assert(accounts.staker_vault.keys().vault_pool_token
        == accounts.staker.data.staker_vault.vault_pool_token);
}

/// An accepted stake notes the time of the clock in the staker's record, and changes
/// nothing else; a refused one makes no call and changes nothing at all.
pub proof fn law_stake_writes(
    accounts: Stake,
    outcome: Result<(), ErrorCode>,
    pool_token_amount: u64,
)
    ensures
        ({
            let (r, after) = accounts.staked(outcome, pool_token_amount);
            let was = accounts.staker.data;
            let record = after.staker.data;
            &&& outcome matches Err(e) ==> {
                &&& r matches Err(f)
                &&& f == e
                &&& record.last_stake_ts == was.last_stake_ts
            }
            &&& outcome is Ok ==> {
                &&& r is Ok
                &&& record.last_stake_ts == accounts.clock.unix_timestamp
            }
            &&& record.pool == was.pool
            &&& record.beneficiary == was.beneficiary
            &&& record.metadata == was.metadata
            &&& record.staker_vault == was.staker_vault
            &&& record.staker_vault_locked == was.staker_vault_locked
            &&& record.rewards_cursor == was.rewards_cursor
            &&& record.nonce == was.nonce
            &&& after.staker.info == accounts.staker.info
            &&& after.pool == accounts.pool
            &&& after.reward_event_q == accounts.reward_event_q
            &&& after.pool_mint == accounts.pool_mint
            &&& after.beneficiary == accounts.beneficiary
            &&& after.staker_vault == accounts.staker_vault
            &&& after.staker_vault_authority == accounts.staker_vault_authority
            &&& after.pool_mint_authority == accounts.pool_mint_authority
            &&& after.clock == accounts.clock
        }),
{
}

/// Starting to unstake burns the pool tokens from the pool token account of the staker's
/// free set, and moves the pool tokens times the rate from the staked account of that set
/// to its pending one. The program signs as the staker's address for both.
pub proof fn law_start_unstake_moves(
    accounts: StartUnstake,
    vault_authority: Option<Seq<u8>>,
    pool_token_amount: u64,
    locked: bool,
)
    requires
        accounts.outcome(vault_authority) is Ok,
        pool_token_amount * accounts.pool.data.stake_rate <= u64::MAX,
    ensures
        ({
            let set = accounts.staker.data.staker_vault;
            let signer = SignerSeeds::Record {
                pool: accounts.pool.info.key,
                record: accounts.staker.info.key,
                bump: accounts.staker.data.nonce,
            };
            let r = accounts.unstaking(
                accounts.outcome(vault_authority),
                pool_token_amount,
                locked,
            ).0;
            &&& r matches Ok((b, t))
            &&& b.mint == accounts.pool.data.pool_mint
            &&& b.mint == accounts.pool_mint.key
            &&& b.from == set.vault_pool_token
            &&& b.from == accounts.staker_vault.vault_pool_token.info.key
            &&& b.authority == accounts.staker_vault_authority.key
            &&& b.amount == pool_token_amount
            &&& b.signer == Some(signer)
            &&& t.from == set.vault_staked
            &&& t.from == accounts.staker_vault.vault_staked.info.key
            &&& t.to == set.vault_pending_withdrawal
            &&& t.to == accounts.staker_vault.vault_pending_withdrawal.info.key
            &&& t.authority == accounts.staker_vault_authority.key
            &&& t.amount == pool_token_amount * accounts.pool.data.stake_rate
            &&& t.signer == Some(signer)
        }),
{
    assert(accounts.staker_vault.keys().vault_staked
        == accounts.staker.data.staker_vault.vault_staked);
    assert(accounts.staker_vault.keys().vault_pending_withdrawal
        == accounts.staker.data.staker_vault.vault_pending_withdrawal);
    assert(accounts.staker_vault.keys().vault_pool_token
        == accounts.staker.data.staker_vault.vault_pool_token);
}

/// Starting to unstake writes a receipt with the pool, the staker, the pool's mint, the
/// time, the time plus the timelock, as many tokens as were moved, and the flag that was
/// given, not used up. The time is noted in the staker's record. Nothing else changes.
pub proof fn law_start_unstake_writes(
    accounts: StartUnstake,
    pool_token_amount: u64,
    locked: bool,
)
    requires
        pool_token_amount * accounts.pool.data.stake_rate <= u64::MAX,
        i64::MIN <= accounts.clock.unix_timestamp + accounts.pool.data.withdrawal_timelock
            <= i64::MAX,
    ensures
        ({
            let after = accounts.unstaking(Ok(()), pool_token_amount, locked).1;
            let was = accounts.staker.data;
            let record = after.staker.data;
            let receipt = after.pending_withdrawal.data;
            &&& receipt.pool == accounts.pool.info.key
            &&& receipt.staker == accounts.staker.info.key
            &&& !receipt.burned
            &&& receipt.pool_mint == accounts.pool.data.pool_mint
            &&& receipt.start_ts == accounts.clock.unix_timestamp
            &&& receipt.end_ts == accounts.clock.unix_timestamp
                + accounts.pool.data.withdrawal_timelock
            &&& receipt.amount == pool_token_amount * accounts.pool.data.stake_rate
            &&& receipt.locked == locked
            &&& record.last_stake_ts == accounts.clock.unix_timestamp
            &&& record.pool == was.pool
            &&& record.beneficiary == was.beneficiary
            &&& record.metadata == was.metadata
            &&& record.staker_vault == was.staker_vault
            &&& record.staker_vault_locked == was.staker_vault_locked
            &&& record.rewards_cursor == was.rewards_cursor
            &&& record.nonce == was.nonce
            &&& after.pending_withdrawal.info == accounts.pending_withdrawal.info
            &&& after.pending_withdrawal.discriminator
                == accounts.pending_withdrawal.discriminator
            &&& after.pending_withdrawal.rent_exempt == accounts.pending_withdrawal.rent_exempt
            &&& after.staker.info == accounts.staker.info
            &&& after.pool == accounts.pool
            &&& after.reward_event_q == accounts.reward_event_q
            &&& after.pool_mint == accounts.pool_mint
            &&& after.beneficiary == accounts.beneficiary
            &&& after.staker_vault == accounts.staker_vault
            &&& after.staker_vault_authority == accounts.staker_vault_authority
            &&& after.clock == accounts.clock
        }),
{
}

/// Ending to unstake moves the amount on the receipt from the pending account to the
/// free one, within the locked set of the staker for a locked receipt and within the free
/// set for any other. The program signs as the staker's address.
pub proof fn law_end_unstake_moves(accounts: EndUnstake, vault_authority: Option<Seq<u8>>)
    requires
        accounts.outcome(vault_authority) is Ok,
    ensures
        ({
            let staker = accounts.staker.data;
            let receipt = accounts.pending_withdrawal.data;
            &&& accounts.unstaked(accounts.outcome(vault_authority)).0 matches Ok(t)
            &&& t.from == accounts.vault_pending_withdrawal.key
            &&& t.to == accounts.vault.key
            &&& receipt.locked ==> t.from == staker.staker_vault_locked.vault_pending_withdrawal
                && t.to == staker.staker_vault_locked.vault
            &&& !receipt.locked ==> t.from == staker.staker_vault.vault_pending_withdrawal && t.to
                == staker.staker_vault.vault
            &&& t.authority == accounts.staker_vault_authority.key
            &&& t.amount == receipt.amount
            &&& t.signer == Some(
                SignerSeeds::Record {
                    pool: accounts.pool.info.key,
                    record: accounts.staker.info.key,
                    bump: staker.nonce,
                },
            )
        }),
{
}

/// Ending to unstake uses the receipt up, and changes nothing else.
pub proof fn law_end_unstake_writes(accounts: EndUnstake)
    ensures
        ({
            let after = accounts.unstaked(Ok(())).1;
            let was = accounts.pending_withdrawal.data;
            let receipt = after.pending_withdrawal.data;
            &&& receipt.burned
            &&& receipt.pool == was.pool
            &&& receipt.staker == was.staker
            &&& receipt.pool_mint == was.pool_mint
            &&& receipt.start_ts == was.start_ts
            &&& receipt.end_ts == was.end_ts
            &&& receipt.amount == was.amount
            &&& receipt.locked == was.locked
            &&& after.pending_withdrawal.info == accounts.pending_withdrawal.info
            &&& after.pool == accounts.pool
            &&& after.staker == accounts.staker
            &&& after.beneficiary == accounts.beneficiary
            &&& after.vault == accounts.vault
            &&& after.vault_pending_withdrawal == accounts.vault_pending_withdrawal
            &&& after.staker_vault_authority == accounts.staker_vault_authority
        }),
{
}

/// An accepted withdrawal moves exactly the amount that was asked for from the free
/// account of the staker to the account that was passed. The program signs as the
/// staker's address.
pub proof fn law_withdraw_moves(
    accounts: Withdraw,
    vault_authority: Option<Seq<u8>>,
    amount: u64,
)
    requires
        accounts.outcome(vault_authority) is Ok,
    ensures
        accounts.withdrawn(accounts.outcome(vault_authority), amount) matches Ok(t) && {
            &&& t.from == accounts.vault.info.key
            &&& t.from == accounts.staker.data.staker_vault.vault
            &&& t.to == accounts.depositor.key
            &&& t.authority == accounts.staker_vault_authority.key
            &&& t.amount == amount
            &&& t.signer == Some(
                SignerSeeds::Record {
                    pool: accounts.pool.info.key,
                    record: accounts.staker.info.key,
                    bump: accounts.staker.data.nonce,
                },
            )
        },
{
}

// ---------------------------------------------------------------------------
// Rewards
// ---------------------------------------------------------------------------

/// Dropping a reward moves all of it from the depositor's account to the vault of the
/// reward, with the signature of the tokens' owner.
pub proof fn law_drop_reward_moves(accounts: DropReward, total: u64)
    ensures
        accounts.transfer(total).from == accounts.depositor.key,
        accounts.transfer(total).to == accounts.rewarder_vault.info.key,
        accounts.transfer(total).authority == accounts.depositor_authority.key,
        accounts.transfer(total).amount == total,
        accounts.transfer(total).signer is None,
{
}

/// A dropped reward has what was asked for, the pool, the vault and its mint, the supply
/// of pool tokens at that time, the time, and who gave it; it is not expired. Its cursor
/// is the head that the pool's ring had before.
pub proof fn law_drop_reward_records(
    accounts: DropReward,
    kind: RewarderKind,
    total: u64,
    expiry_ts: i64,
    expiry_receiver: Pubkey,
    nonce: u8,
    after: DropReward,
)
    requires
        accounts.reward_event_q.data@.head < u32::MAX,
        accounts.dropped(
            kind,
            accounts.reward(kind, total, expiry_ts, expiry_receiver, nonce),
            after,
        ),
    ensures
        ({
            let record = after.rewarder.data;
            &&& record.reward_event_q_cursor == accounts.reward_event_q.data@.head
            &&& record.pool == accounts.pool.info.key
            &&& record.vault == accounts.rewarder_vault.info.key
            &&& record.mint == accounts.rewarder_vault.data.mint
            &&& record.nonce == nonce
            &&& record.pool_token_supply == accounts.pool_mint.data.supply
            &&& record.start_ts == accounts.clock.unix_timestamp
            &&& record.expiry_ts == expiry_ts
            &&& record.expiry_receiver == expiry_receiver
            &&& record.from == accounts.depositor_authority.key
            &&& record.total == total
            &&& !record.expired
            &&& record.kind == kind
        }),
{
}

/// Dropping a reward writes one event into the pool's ring, in the slot of the reward's
/// cursor: it names the reward and the time, and says whether it is one for lockers. All
/// other slots stay, the head moves by one, and the tail moves by one exactly when the
/// ring was full. Nothing but the ring and the reward's record changes.
pub proof fn law_drop_reward_announces(
    accounts: DropReward,
    kind: RewarderKind,
    total: u64,
    expiry_ts: i64,
    expiry_receiver: Pubkey,
    nonce: u8,
    after: DropReward,
)
    requires
        0 < accounts.reward_event_q.data@.slots.len(),
        accounts.dropped(
            kind,
            accounts.reward(kind, total, expiry_ts, expiry_receiver, nonce),
            after,
        ),
    ensures
        ({
            let was = accounts.reward_event_q.data@;
            let ring = after.reward_event_q.data@;
            let n = was.slots.len() as int;
            let slot = was.head as int % n;
            &&& ring.slots.len() == n
            &&& ring.slots[slot].rewarder == accounts.rewarder.info.key
            &&& ring.slots[slot].ts == accounts.clock.unix_timestamp
            &&& ring.slots[slot].locked <==> kind is Locked
            &&& forall|i: int|
                0 <= i < n && i != slot ==> #[trigger] ring.slots[i] == was.slots[i]
            &&& ring.head == was.head + 1
            &&& (was.head + 1) as int % n == was.tail as int % n ==> ring.tail == was.tail + 1
            &&& (was.head + 1) as int % n != was.tail as int % n ==> ring.tail == was.tail
            &&& after.reward_event_q.info == accounts.reward_event_q.info
            &&& after.rewarder.info == accounts.rewarder.info
            &&& after.rewarder.discriminator == accounts.rewarder.discriminator
            &&& after.rewarder.rent_exempt == accounts.rewarder.rent_exempt
            &&& after.pool == accounts.pool
            &&& after.pool_mint == accounts.pool_mint
            &&& after.rewarder_vault == accounts.rewarder_vault
            &&& after.depositor == accounts.depositor
            &&& after.depositor_authority == accounts.depositor_authority
            &&& after.clock == accounts.clock
        }),
{
    let was = accounts.reward_event_q.data@;
    crate::queue::law_append_writes_one_slot(was, accounts.event(kind));
}

/// Of two rewards that are dropped on one pool, the record of the later one has the
/// larger cursor, however many others were dropped between them.
pub proof fn law_later_reward_has_larger_cursor(
    first: DropReward,
    first_kind: RewarderKind,
    first_total: u64,
    first_after: DropReward,
    between: Seq<crate::queue::RewardEvent>,
    second: DropReward,
    second_kind: RewarderKind,
    second_total: u64,
    second_after: DropReward,
    expiry_ts: i64,
    expiry_receiver: Pubkey,
    nonce: u8,
)
    requires
        0 < first.reward_event_q.data@.slots.len(),
        first.dropped(
            first_kind,
            first.reward(first_kind, first_total, expiry_ts, expiry_receiver, nonce),
            first_after,
        ),
        second.reward_event_q.data@ == first_after.reward_event_q.data@.append_all(between),
        second.reward_event_q.data@.head < u32::MAX,
        second.dropped(
            second_kind,
            second.reward(second_kind, second_total, expiry_ts, expiry_receiver, nonce),
            second_after,
        ),
    ensures
        first_after.rewarder.data.reward_event_q_cursor
            < second_after.rewarder.data.reward_event_q_cursor,
        second_after.rewarder.data.reward_event_q_cursor
            - first_after.rewarder.data.reward_event_q_cursor == between.len() + 1,
{
    let ring = first.reward_event_q.data@;
    crate::queue::law_append_writes_one_slot(ring, first.event(first_kind));
    crate::queue::law_append_all_counts(first_after.reward_event_q.data@, between);
}

/// `paid` is what `tokens` of `supply` pool tokens get of `total`, rounded down: that much
/// is due, and one more would not be.
proof fn lemma_share_is_rounded_down(tokens: int, total: int, supply: int, paid: int)
    requires
        0 <= tokens,
        0 <= total,
        0 < supply,
        paid == (tokens * total) / supply,
    ensures
        paid * supply <= tokens * total < (paid + 1) * supply,
        tokens == supply ==> paid == total,
        0 <= paid <= tokens * total,
{
    let product = tokens * total;
    vstd::arithmetic::div_mod::lemma_fundamental_div_mod(product, supply);
    assert(0 <= product) by (nonlinear_arith)
        requires
            product == tokens * total,
            0 <= tokens,
            0 <= total,
    ;
    assert(paid * supply <= product < (paid + 1) * supply && 0 <= paid <= product)
        by (nonlinear_arith)
        requires
            0 < supply,
            0 <= product,
            product == supply * paid + product % supply,
            0 <= product % supply < supply,
    ;
    if tokens == supply {
        assert(paid == total) by (nonlinear_arith)
            requires
                0 < supply,
                tokens == supply,
                product == tokens * total,
                paid * supply <= product < (paid + 1) * supply,
        ;
    }
}

/// A direct claim pays the exact share of all pool tokens of the staker, free and locked,
/// in the whole reward, rounded down; who holds all pool tokens gets all of it.
pub proof fn law_claim_pays_the_exact_share(accounts: ClaimReward, authority: Option<Seq<u8>>)
    requires
        accounts.outcome(authority) is Ok,
        accounts.common.claimable(),
    ensures
        ({
            let supply = accounts.common.rewarder.data.pool_token_supply;
            let total = accounts.common.rewarder.data.total;
            let tokens = accounts.common.staker_vault_pool_token.data.amount
                + accounts.common.staker_vault_locked_pool_token.data.amount;
            &&& accounts.claimed(accounts.outcome(authority)).0 matches Ok(t)
            &&& t.amount * supply <= tokens * total < (t.amount + 1) * supply
            &&& tokens == supply ==> t.amount == total
        }),
{
    lemma_share_is_rounded_down(
        accounts.common.staker_vault_pool_token.data.amount
            + accounts.common.staker_vault_locked_pool_token.data.amount,
        accounts.common.rewarder.data.total as int,
        accounts.common.rewarder.data.pool_token_supply as int,
        accounts.common.reward(),
    );
}

/// A claim into a locker deposits the exact share of all pool tokens of the staker, free
/// and locked, in the whole reward, rounded down; who holds all pool tokens gets all of
/// it.
pub proof fn law_claim_to_locker_pays_the_exact_share(
    accounts: ClaimRewardToLocker,
    authority: Option<Seq<u8>>,
    manager: Seq<u8>,
    nonce: u8,
    locker_accounts: Seq<Pubkey>,
)
    requires
        accounts.outcome(authority, manager) is Ok,
        accounts.common.claimable(),
    ensures
        ({
            let supply = accounts.common.rewarder.data.pool_token_supply;
            let total = accounts.common.rewarder.data.total;
            let tokens = accounts.common.staker_vault_pool_token.data.amount
                + accounts.common.staker_vault_locked_pool_token.data.amount;
            let r = accounts.claimed(
                accounts.outcome(authority, manager),
                nonce,
                locker_accounts,
            ).0;
            &&& r matches Ok(call)
            &&& call.deposit_amount * supply <= tokens * total < (call.deposit_amount + 1) * supply
            &&& tokens == supply ==> call.deposit_amount == total
        }),
{
    lemma_share_is_rounded_down(
        accounts.common.staker_vault_pool_token.data.amount
            + accounts.common.staker_vault_locked_pool_token.data.amount,
        accounts.common.rewarder.data.total as int,
        accounts.common.rewarder.data.pool_token_supply as int,
        accounts.common.reward(),
    );
}

/// A direct claim pays from the vault of the reward to the account that was passed. The
/// program signs as the reward's address.
pub proof fn law_claim_moves(accounts: ClaimReward, authority: Option<Seq<u8>>)
    requires
        accounts.outcome(authority) is Ok,
    ensures
        accounts.claimed(accounts.outcome(authority)).0 matches Ok(t) && {
            &&& t.from == accounts.common.vault.key
            &&& t.from == accounts.common.rewarder.data.vault
            &&& t.to == accounts.to.key
            &&& t.authority == accounts.common.rewarder_vault_authority.key
            &&& t.signer == Some(
                SignerSeeds::Record {
                    pool: accounts.common.pool.info.key,
                    record: accounts.common.rewarder.info.key,
                    bump: accounts.common.rewarder.data.nonce,
                },
            )
        },
{
}

/// Both claims move the staker's cursor just past that of the reward, and change nothing
/// else in the accounts that they have in common.
pub proof fn law_claim_writes(common: ClaimRewardCommon)
    requires
        common.rewarder.data.reward_event_q_cursor < u32::MAX,
    ensures
        ({
            let after = common.claimed();
            let was = common.staker.data;
            let record = after.staker.data;
            &&& record.rewards_cursor == common.rewarder.data.reward_event_q_cursor + 1
            &&& record.pool == was.pool
            &&& record.beneficiary == was.beneficiary
            &&& record.metadata == was.metadata
            &&& record.staker_vault == was.staker_vault
            &&& record.staker_vault_locked == was.staker_vault_locked
            &&& record.last_stake_ts == was.last_stake_ts
            &&& record.nonce == was.nonce
            &&& after.staker.info == common.staker.info
            &&& after.pool == common.pool
            &&& after.beneficiary == common.beneficiary
            &&& after.staker_vault_pool_token == common.staker_vault_pool_token
            &&& after.staker_vault_locked_pool_token == common.staker_vault_locked_pool_token
            &&& after.rewarder == common.rewarder
            &&& after.vault == common.vault
            &&& after.rewarder_vault_authority == common.rewarder_vault_authority
        }),
{
}

/// An accepted claim changes the accounts that both claims have in common, and no other.
pub proof fn law_claims_write_the_common_accounts(
    direct: ClaimReward,
    locker: ClaimRewardToLocker,
    nonce: u8,
    locker_accounts: Seq<Pubkey>,
)
    ensures
        direct.claimed(Ok(())).1.common == direct.common.claimed(),
        direct.claimed(Ok(())).1.to == direct.to,
        ({
            let after = locker.claimed(Ok(()), nonce, locker_accounts).1;
            &&& after.common == locker.common.claimed()
            &&& after.pool_manager_info == locker.pool_manager_info
            &&& after.locker_manager_program == locker.locker_manager_program
            &&& after.reward_keeper_program == locker.reward_keeper_program
        }),
{
}

/// A claim into a locker makes a locker with the schedule of the reward, whatever its
/// other fields are, for the staker's beneficiary and with the bump that was given, out
/// of the accounts that were passed; only the owner of the tokens is the owner of the
/// reward's vault. The program signs as the reward's address.
pub proof fn law_claim_to_locker_calls(
    accounts: ClaimRewardToLocker,
    authority: Option<Seq<u8>>,
    manager: Seq<u8>,
    nonce: u8,
    locker_accounts: Seq<Pubkey>,
    s: i64,
    e: i64,
    p: u64,
)
    requires
        accounts.outcome(authority, manager) is Ok,
        accounts.common.rewarder.data.kind == (RewarderKind::Locked {
            start_ts: s,
            end_ts: e,
            period_count: p,
        }),
    ensures
        ({
            let r = accounts.claimed(
                accounts.outcome(authority, manager),
                nonce,
                locker_accounts,
            ).0;
            &&& r matches Ok(call)
            &&& call.start_ts == s
            &&& call.end_ts == e
            &&& call.period_count == p
            &&& call.program == accounts.locker_manager_program.key
            &&& call.program == accounts.pool_manager_info.data.locker_manager_program
            &&& call.locker == locker_accounts[0]
            &&& call.vault == locker_accounts[1]
            &&& call.depositor == locker_accounts[2]
            &&& call.depositor_authority == accounts.common.rewarder_vault_authority.key
            &&& call.token_program == locker_accounts[4]
            &&& call.clock == locker_accounts[5]
            &&& call.rent == locker_accounts[6]
            &&& call.beneficiary == accounts.common.staker.data.beneficiary
            &&& call.nonce == nonce
            &&& call.reward_keeper matches Some(keeper)
            &&& keeper.program == accounts.reward_keeper_program.key
            &&& keeper.program == accounts.pool_manager_info.data.reward_keeper_program
            &&& keeper.metadata == accounts.common.staker.info.key
            &&& call.signer == (SignerSeeds::Record {
                pool: accounts.common.pool.info.key,
                record: accounts.common.rewarder.info.key,
                bump: accounts.common.rewarder.data.nonce,
            })
        }),
{
}

/// A reward that was dropped with a schedule is paid into lockers with that schedule.
pub proof fn law_locker_keeps_the_schedule_of_the_drop(
    drop: DropReward,
    s: i64,
    e: i64,
    p: u64,
    total: u64,
    expiry_ts: i64,
    expiry_receiver: Pubkey,
    bump: u8,
    dropped: DropReward,
    claim: ClaimRewardToLocker,
    authority: Option<Seq<u8>>,
    manager: Seq<u8>,
    nonce: u8,
    locker_accounts: Seq<Pubkey>,
)
    requires
        drop.dropped(
            RewarderKind::Locked { start_ts: s, end_ts: e, period_count: p },
            drop.reward(
                RewarderKind::Locked { start_ts: s, end_ts: e, period_count: p },
                total,
                expiry_ts,
                expiry_receiver,
                bump,
            ),
            dropped,
        ),
        claim.common.rewarder.data == dropped.rewarder.data,
        claim.outcome(authority, manager) is Ok,
    ensures
        ({
            let r = claim.claimed(claim.outcome(authority, manager), nonce, locker_accounts).0;
            &&& r matches Ok(call)
            &&& call.start_ts == s
            &&& call.end_ts == e
            &&& call.period_count == p
        }),
{
}

/// What is dropped is what is shared out: a claim on a dropped reward pays the share in
/// the tokens that were put into the vault, by the supply of that time.
pub proof fn law_claim_shares_what_was_dropped(
    drop: DropReward,
    kind: RewarderKind,
    total: u64,
    expiry_ts: i64,
    expiry_receiver: Pubkey,
    bump: u8,
    dropped: DropReward,
    claim: ClaimReward,
    authority: Option<Seq<u8>>,
)
    requires
        drop.dropped(
            kind,
            drop.reward(kind, total, expiry_ts, expiry_receiver, bump),
            dropped,
        ),
        claim.common.rewarder.data == dropped.rewarder.data,
        claim.outcome(authority) is Ok,
        claim.common.claimable(),
    ensures
        ({
            let filled = drop.transfer(total);
            let supply = drop.pool_mint.data.supply;
            let tokens = claim.common.staker_vault_pool_token.data.amount
                + claim.common.staker_vault_locked_pool_token.data.amount;
            &&& claim.claimed(claim.outcome(authority)).0 matches Ok(t)
            &&& t.from == filled.to
            &&& t.amount * supply <= tokens * filled.amount < (t.amount + 1) * supply
        }),
{
    law_claim_pays_the_exact_share(claim, authority);
}

/// Expiring a reward pays all that is in its vault, whatever that is, to the account that
/// was passed. The program signs as the reward's address.
pub proof fn law_expire_moves(accounts: ExpireReward, authority: Option<Seq<u8>>)
    requires
        accounts.expiry_receiver.is_signer,
        accounts.expiry_receiver.key == accounts.rewarder.data.expiry_receiver,
        accounts.pool.info.key == accounts.rewarder.data.pool,
        accounts.vault.info.key == accounts.rewarder.data.vault,
        authority == Some(accounts.rewarder_vault_authority.key.bytes@),
        accounts.rewarder.info.is_writable,
        accounts.vault.info.is_writable,
        accounts.expiry_receiver_token.is_writable,
    ensures
        accounts.expired(accounts.outcome(authority)).0 matches Ok(t) && {
            &&& t.from == accounts.vault.info.key
            &&& t.to == accounts.expiry_receiver_token.key
            &&& t.authority == accounts.rewarder_vault_authority.key
            &&& t.amount == accounts.vault.data.amount
            &&& t.signer == Some(
                SignerSeeds::Record {
                    pool: accounts.pool.info.key,
                    record: accounts.rewarder.info.key,
                    bump: accounts.rewarder.data.nonce,
                },
            )
        },
{
}

/// Expiring a reward marks it as expired, and changes nothing else.
pub proof fn law_expire_writes(accounts: ExpireReward)
    ensures
        ({
            let after = accounts.expired(Ok(())).1;
            let was = accounts.rewarder.data;
            let record = after.rewarder.data;
            &&& record.expired
            &&& record.pool == was.pool
            &&& record.vault == was.vault
            &&& record.mint == was.mint
            &&& record.nonce == was.nonce
            &&& record.pool_token_supply == was.pool_token_supply
            &&& record.reward_event_q_cursor == was.reward_event_q_cursor
            &&& record.start_ts == was.start_ts
            &&& record.expiry_ts == was.expiry_ts
            &&& record.expiry_receiver == was.expiry_receiver
            &&& record.from == was.from
            &&& record.total == was.total
            &&& record.kind == was.kind
            &&& after.rewarder.info == accounts.rewarder.info
            &&& after.pool == accounts.pool
            &&& after.vault == accounts.vault
            &&& after.rewarder_vault_authority == accounts.rewarder_vault_authority
            &&& after.expiry_receiver == accounts.expiry_receiver
            &&& after.expiry_receiver_token == accounts.expiry_receiver_token
        }),
{
}

// ---------------------------------------------------------------------------
// Refusals
// ---------------------------------------------------------------------------

/// A refused request hands on the reason, makes no call, and leaves all accounts as they
/// were.
pub proof fn law_refusal_changes_nothing(
    stake: Stake,
    start: StartUnstake,
    end: EndUnstake,
    withdraw: Withdraw,
    claim: ClaimReward,
    claim_to_locker: ClaimRewardToLocker,
    expire: ExpireReward,
    reason: ErrorCode,
    amount: u64,
    locked: bool,
    nonce: u8,
    locker_accounts: Seq<Pubkey>,
)
    ensures
        stake.staked(Err(reason), amount).0 matches Err(e) && e == reason,
        stake.staked(Err(reason), amount).1 == stake,
        start.unstaking(Err(reason), amount, locked).0 matches Err(e) && e == reason,
        start.unstaking(Err(reason), amount, locked).1 == start,
        end.unstaked(Err(reason)).0 matches Err(e) && e == reason,
        end.unstaked(Err(reason)).1 == end,
        withdraw.withdrawn(Err(reason), amount) matches Err(e) && e == reason,
        claim.claimed(Err(reason)).0 matches Err(e) && e == reason,
        claim.claimed(Err(reason)).1 == claim,
        claim_to_locker.claimed(Err(reason), nonce, locker_accounts).0 matches Err(e) && e
            == reason,
        claim_to_locker.claimed(Err(reason), nonce, locker_accounts).1 == claim_to_locker,
        expire.expired(Err(reason)).0 matches Err(e) && e == reason,
        expire.expired(Err(reason)).1 == expire,
{
}

} // verus!
