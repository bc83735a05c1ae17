//! What holds across requests.

use vstd::prelude::*;

use crate::address::{manager_address, manager_seeds, SignerSeeds};
use crate::error::ErrorCode;
use crate::key::{lemma_key_is_its_bytes, Pubkey};
use crate::manager::{Auth, Initialize};
use crate::pool::{CreatePool, Pool, UpdatePool};
use crate::queue::{
    law_append_all_counts, law_append_keeps_order, law_event_reads_back,
    law_fresh_ring_is_in_order, RewardEvent, Ring,
};
use crate::rewards::{
    share, ClaimReward, ClaimRewardCommon, ClaimRewardToLocker, DropReward, ExpireReward, Rewarder,
    RewarderKind,
};
use crate::staker::{
    CreateStaker, Staker, UpdateStaker, UpdateStakerVault, UpdateStakerVaultLocked,
};
use crate::staking::{selected_vaults, Deposit, EndUnstake, Stake, StartUnstake, Withdraw};
use crate::token::Transfer;

verus! {

// ---------------------------------------------------------------------------
// Who may do what
// ---------------------------------------------------------------------------

/// A pool is changed exactly when its account is writable and its own authority signs.
pub proof fn law_pool_changes_by_its_authority(accounts: UpdatePool)
    ensures
        accounts.outcome() is Ok <==> {
            &&& accounts.authority.is_signer
            &&& accounts.authority.key == accounts.pool.data.authority
            &&& accounts.pool.info.is_writable
        },
{
}

/// A staker's metadata is changed exactly when the staker's account is writable and
/// their beneficiary signs.
pub proof fn law_staker_changes_by_beneficiary(accounts: UpdateStaker)
    ensures
        accounts.outcome() is Ok <==> {
            &&& accounts.beneficiary.is_signer
            &&& accounts.beneficiary.key == accounts.staker.data.beneficiary
            &&& accounts.staker.info.is_writable
        },
{
}

/// A new pool is changed by the authority that it was created with, and by nobody else.
pub proof fn law_new_pool_belongs_to_its_authority(
    create: CreatePool,
    update: UpdatePool,
    mint: Pubkey,
    authority: Pubkey,
    nonce: u8,
    withdrawal_timelock: i64,
    stake_rate: u64,
)
    requires
        update.pool.data == create.record(mint, authority, nonce, withdrawal_timelock, stake_rate),
        update.pool.info.is_writable,
    ensures
        update.outcome() is Ok <==> update.authority.is_signer && update.authority.key == authority,
{
}

/// Once a pool is handed over, it is changed by its new authority, and by nobody else.
pub proof fn law_pool_is_handed_over(
    first: UpdatePool,
    second: UpdatePool,
    new_authority: Pubkey,
    withdrawal_timelock: Option<i64>,
)
    requires
        first.outcome() is Ok,
        second.pool == first.updated(Some(new_authority), withdrawal_timelock).pool,
    ensures
        second.outcome() is Ok <==> second.authority.is_signer && second.authority.key
            == new_authority,
{
}

/// A new staker belongs to the beneficiary who signed for it, and to nobody else.
pub proof fn law_new_staker_belongs_to_its_beneficiary(
    create: CreateStaker,
    update: UpdateStaker,
    nonce: u8,
)
    requires
        create.outcome() is Ok,
        update.staker.data == create.created(nonce).staker.data,
        update.staker.info.is_writable,
    ensures
        create.beneficiary.is_signer,
        update.outcome() is Ok <==> update.beneficiary.is_signer && update.beneficiary.key
            == create.beneficiary.key,
{
}

/// Only a staker's beneficiary deposits, only tokens of their own, and only into the
/// staker's vault.
pub proof fn law_deposit_by_beneficiary(accounts: Deposit)
    requires
        accounts.outcome() is Ok,
    ensures
        accounts.beneficiary.is_signer,
        accounts.beneficiary.key == accounts.staker.data.beneficiary,
        accounts.depositor_authority.is_signer,
        accounts.depositor_authority.key == accounts.staker.data.beneficiary,
        accounts.vault.info.key == accounts.staker.data.staker_vault.vault,
{
}

/// Only a staker's beneficiary stakes, only in the staker's pool, and only between the
/// staker's own token accounts.
pub proof fn law_stake_by_beneficiary(accounts: Stake, program_id: Pubkey)
    requires
        accounts.outcome_in(program_id) is Ok,
    ensures
        accounts.beneficiary.is_signer,
        accounts.beneficiary.key == accounts.staker.data.beneficiary,
        accounts.staker.data.pool == accounts.pool.info.key,
        accounts.staker_vault.keys() == accounts.staker.data.staker_vault,
        accounts.pool_mint.key == accounts.pool.data.pool_mint,
{
}

/// Only a staker's beneficiary unstakes, only from the staker's pool, and only between
/// the staker's own token accounts.
pub proof fn law_start_unstake_by_beneficiary(accounts: StartUnstake, program_id: Pubkey)
    requires
        accounts.outcome_in(program_id) is Ok,
    ensures
        accounts.beneficiary.is_signer,
        accounts.beneficiary.key == accounts.staker.data.beneficiary,
        accounts.staker.data.pool == accounts.pool.info.key,
        accounts.staker_vault.keys() == accounts.staker.data.staker_vault,
        accounts.pool_mint.key == accounts.pool.data.pool_mint,
{
}

/// Only a staker's beneficiary ends unstaking, only with an unused receipt of that staker
/// for that pool, and only within the token accounts that the receipt is about.
pub proof fn law_end_unstake_by_beneficiary(accounts: EndUnstake, program_id: Pubkey)
    requires
        accounts.outcome_in(program_id) is Ok,
    ensures
        accounts.beneficiary.is_signer,
        accounts.beneficiary.key == accounts.staker.data.beneficiary,
        accounts.pending_withdrawal.data.staker == accounts.staker.info.key,
        accounts.pending_withdrawal.data.pool == accounts.pool.info.key,
        !accounts.pending_withdrawal.data.burned,
        ({
            let set = selected_vaults(
                accounts.staker.data,
                accounts.pending_withdrawal.data.locked,
            );
            let transfer = accounts.unstaked(accounts.outcome_in(program_id)).0->Ok_0;
            transfer.from == set.vault_pending_withdrawal && transfer.to == set.vault
        }),
{
}

/// Only a staker's beneficiary withdraws, and only from the staker's vault.
pub proof fn law_withdraw_by_beneficiary(accounts: Withdraw, program_id: Pubkey)
    requires
        accounts.outcome_in(program_id) is Ok,
    ensures
        accounts.beneficiary.is_signer,
        accounts.beneficiary.key == accounts.staker.data.beneficiary,
        accounts.staker.data.pool == accounts.pool.info.key,
        accounts.vault.info.key == accounts.staker.data.staker_vault.vault,
{
}

/// Only a staker's beneficiary claims, only a reward of the staker's pool, only from
/// its vault, and only on the staker's own pool tokens.
pub proof fn law_claim_by_beneficiary(common: ClaimRewardCommon, program_id: Pubkey)
    requires
        common.outcome(common.authority_in(program_id)) is Ok,
    ensures
        common.beneficiary.is_signer,
        common.beneficiary.key == common.staker.data.beneficiary,
        common.staker.data.pool == common.rewarder.data.pool,
        common.vault.key == common.rewarder.data.vault,
        common.staker_vault_pool_token.info.key
            == common.staker.data.staker_vault.vault_pool_token,
        common.staker_vault_locked_pool_token.info.key
            == common.staker.data.staker_vault_locked.vault_pool_token,
{
}

/// Only the expiry receiver that a reward names expires it.
pub proof fn law_expire_by_expiry_receiver(accounts: ExpireReward, program_id: Pubkey)
    requires
        accounts.outcome_in(program_id) is Ok,
    ensures
        accounts.expiry_receiver.is_signer,
        accounts.expiry_receiver.key == accounts.rewarder.data.expiry_receiver,
        accounts.vault.info.key == accounts.rewarder.data.vault,
{
}

/// A record is written only where none is: a request that would write one into an
/// account with a tag in front, or create an account that is in use, is refused.
pub proof fn law_records_are_not_overwritten(
    pool: CreatePool,
    staker: CreateStaker,
    receipt: StartUnstake,
    reward: DropReward,
    manager: Initialize,
    program_id: Pubkey,
    pool_manager_nonce: u64,
)
    ensures
        pool.pool.discriminator != 0 ==> pool.outcome() is Err,
        pool.reward_event_q.discriminator != 0 ==> pool.outcome() is Err,
        staker.staker.discriminator != 0 ==> staker.outcome() is Err,
        receipt.pending_withdrawal.discriminator != 0 ==> receipt.outcome_in(program_id) is Err,
        reward.rewarder.discriminator != 0 ==> reward.outcome() is Err,
        manager.pool_manager_info.in_use ==> manager.outcome(
            manager_address(pool_manager_nonce, program_id),
        ) is Err,
{
}

/// What a request changes in a pool, a staker, a receipt, a ring or a rewarder can be
/// kept: the account of every record that an accepted request changes is writable.
pub proof fn law_changed_records_are_writable(
    pool: UpdatePool,
    staker: UpdateStaker,
    vault: UpdateStakerVault,
    vault_locked: UpdateStakerVaultLocked,
    stake: Stake,
    start: StartUnstake,
    end: EndUnstake,
    drop: DropReward,
    claim: ClaimReward,
    claim_to_locker: ClaimRewardToLocker,
    expire: ExpireReward,
    program_id: Pubkey,
    pool_manager_nonce: u64,
)
    ensures
        pool.outcome() is Ok ==> pool.pool.info.is_writable,
        staker.outcome() is Ok ==> staker.staker.info.is_writable,
        vault.outcome() is Ok ==> vault.staker.info.is_writable,
        vault_locked.outcome() is Ok ==> vault_locked.staker.info.is_writable,
        stake.outcome_in(program_id) is Ok ==> stake.staker.info.is_writable,
        start.outcome_in(program_id) is Ok ==> start.staker.info.is_writable
            && start.pending_withdrawal.info.is_writable,
        end.outcome_in(program_id) is Ok ==> end.pending_withdrawal.info.is_writable,
        drop.outcome() is Ok ==> drop.reward_event_q.info.is_writable
            && drop.rewarder.info.is_writable,
        claim.outcome_in(program_id) is Ok ==> claim.common.staker.info.is_writable,
        claim_to_locker.outcome_in(program_id, pool_manager_nonce) is Ok
            ==> claim_to_locker.common.staker.info.is_writable,
        expire.outcome_in(program_id) is Ok ==> expire.rewarder.info.is_writable,
{
}

// ---------------------------------------------------------------------------
// What the program signs
// ---------------------------------------------------------------------------

/// Different records, and different bumps, have different seeds.
pub proof fn law_seeds_tell_records_apart(a: SignerSeeds, b: SignerSeeds)
    ensures
        a.seeds() == b.seeds() <==> a == b,
{
    if a.seeds() == b.seeds() {
        assert(a.seeds().len() == b.seeds().len());
        assert(a.seeds()[0] == b.seeds()[0]);
        assert(a.seeds()[1] == b.seeds()[1]);
        match (a, b) {
            (
                SignerSeeds::Pool { pool: pool_a, bump: bump_a },
                SignerSeeds::Pool { pool: pool_b, bump: bump_b },
            ) => {
                lemma_key_is_its_bytes(pool_a, pool_b);
                assert(seq![bump_a][0] == seq![bump_b][0]);
            },
            (
                SignerSeeds::Record { pool: pool_a, record: record_a, bump: bump_a },
                SignerSeeds::Record { pool: pool_b, record: record_b, bump: bump_b },
            ) => {
                assert(a.seeds()[2] == b.seeds()[2]);
                lemma_key_is_its_bytes(pool_a, pool_b);
                lemma_key_is_its_bytes(record_a, record_b);
                assert(seq![bump_a][0] == seq![bump_b][0]);
            },
            _ => {},
        }
    }
}

/// Managers with different numbers have different seeds.
pub proof fn law_seeds_tell_managers_apart(a: u64, b: u64)
    ensures
        manager_seeds(a) == manager_seeds(b) <==> a == b,
{
    if manager_seeds(a) == manager_seeds(b) {
        vstd::bytes::lemma_auto_spec_u64_to_from_le_bytes();
        assert(manager_seeds(a)[1] == manager_seeds(b)[1]);
        assert(vstd::bytes::spec_u64_from_le_bytes(vstd::bytes::spec_u64_to_le_bytes(a)) == a);
        assert(vstd::bytes::spec_u64_from_le_bytes(vstd::bytes::spec_u64_to_le_bytes(b)) == b);
    }
}

/// The seeds that both calls of `stake` are signed with give the authorities of these
/// calls.
pub proof fn law_stake_signs_for_its_authorities(
    accounts: Stake,
    program_id: Pubkey,
    pool_token_amount: u64,
)
    requires
        accounts.outcome_in(program_id) is Ok,
    ensures
        ({
            let (transfer, mint_to) = accounts.staked(
                accounts.outcome_in(program_id),
                pool_token_amount,
            ).0->Ok_0;
            &&& transfer.signer is Some
            &&& transfer.signer->0.address(program_id) == Some(transfer.authority@)
            &&& mint_to.signer is Some
            &&& mint_to.signer->0.address(program_id) == Some(mint_to.authority@)
        }),
{
}

/// The seeds that both calls of `start_unstake` are signed with give the authorities
/// of these calls.
pub proof fn law_start_unstake_signs_for_its_authority(
    accounts: StartUnstake,
    program_id: Pubkey,
    pool_token_amount: u64,
    locked: bool,
)
    requires
        accounts.outcome_in(program_id) is Ok,
    ensures
        ({
            let (burn, transfer) = accounts.unstaking(
                accounts.outcome_in(program_id),
                pool_token_amount,
                locked,
            ).0->Ok_0;
            &&& burn.signer is Some
            &&& burn.signer->0.address(program_id) == Some(burn.authority@)
            &&& transfer.signer is Some
            &&& transfer.signer->0.address(program_id) == Some(transfer.authority@)
        }),
{
}

/// A transfer that the program signs is signed with the seeds of its authority.
pub open spec fn signed_by_authority(transfer: Transfer, program_id: Pubkey) -> bool {
    &&& transfer.signer is Some
    &&& transfer.signer->0.address(program_id) == Some(transfer.authority@)
}

/// The call of `end_unstake` is signed with the seeds of its authority.
pub proof fn law_end_unstake_signs_for_its_authority(accounts: EndUnstake, program_id: Pubkey)
    requires
        accounts.outcome_in(program_id) is Ok,
    ensures
        signed_by_authority(
            accounts.unstaked(accounts.outcome_in(program_id)).0->Ok_0,
            program_id,
        ),
{
}

/// The call of `withdraw` is signed with the seeds of its authority.
pub proof fn law_withdraw_signs_for_its_authority(
    accounts: Withdraw,
    program_id: Pubkey,
    amount: u64,
)
    requires
        accounts.outcome_in(program_id) is Ok,
    ensures
        signed_by_authority(
            accounts.withdrawn(accounts.outcome_in(program_id), amount)->Ok_0,
            program_id,
        ),
{
}

/// The call of `claim_reward` is signed with the seeds of its authority.
pub proof fn law_claim_signs_for_its_authority(accounts: ClaimReward, program_id: Pubkey)
    requires
        accounts.outcome_in(program_id) is Ok,
    ensures
        signed_by_authority(
            accounts.claimed(accounts.outcome_in(program_id)).0->Ok_0,
            program_id,
        ),
{
}

/// The call of `claim_reward_to_locker` is signed with the seeds of the owner of the
/// tokens.
pub proof fn law_claim_to_locker_signs_for_its_authority(
    accounts: ClaimRewardToLocker,
    program_id: Pubkey,
    pool_manager_nonce: u64,
    nonce: u8,
    locker_accounts: Seq<Pubkey>,
)
    requires
        accounts.outcome_in(program_id, pool_manager_nonce) is Ok,
    ensures
        accounts.call(nonce, locker_accounts).signer.address(program_id) == Some(
            accounts.call(nonce, locker_accounts).depositor_authority@,
        ),
{
}

/// The call of `expire_reward` is signed with the seeds of its authority.
pub proof fn law_expire_signs_for_its_authority(accounts: ExpireReward, program_id: Pubkey)
    requires
        accounts.outcome_in(program_id) is Ok,
    ensures
        signed_by_authority(
            accounts.expired(accounts.outcome_in(program_id)).0->Ok_0,
            program_id,
        ),
{
}

// ---------------------------------------------------------------------------
// Staking and unstaking
// ---------------------------------------------------------------------------

/// Token accounts that were recorded with `update_staker_vault` are the ones that
/// `stake` and `start_unstake` ask for, whatever else is changed in the staker's record
/// meanwhile.
pub proof fn law_recorded_vaults_are_accepted(
    update: UpdateStakerVault,
    stake: Stake,
    unstake: StartUnstake,
)
    requires
        update.outcome() is Ok,
        stake.staker_vault == update.staker_vault,
        stake.staker.data.staker_vault == update.staker_vault.keys(),
        unstake.staker_vault == update.staker_vault,
        unstake.staker.data.staker_vault == update.staker_vault.keys(),
    ensures
        stake.staker_vault.outcome() is Ok,
        stake.staker_vault.keys() == stake.staker.data.staker_vault,
        unstake.staker_vault.outcome() is Ok,
        unstake.staker_vault.keys() == unstake.staker.data.staker_vault,
{
}

/// A claim counts the pool tokens in the very accounts that were recorded with
/// `update_staker_vault` and `update_staker_vault_locked`.
pub proof fn law_claim_counts_recorded_vaults(
    update: UpdateStakerVault,
    update_locked: UpdateStakerVaultLocked,
    common: ClaimRewardCommon,
    program_id: Pubkey,
)
    requires
        common.outcome(common.authority_in(program_id)) is Ok,
        common.staker.data.staker_vault == update.staker_vault.keys(),
        common.staker.data.staker_vault_locked == update_locked.staker_vault_locked.keys(),
    ensures
        common.staker_vault_pool_token.info.key == update.staker_vault.vault_pool_token.info.key,
        common.staker_vault_locked_pool_token.info.key
            == update_locked.staker_vault_locked.vault_pool_token.info.key,
{
}

/// The staked tokens of a pool are as many as its pool tokens stand for.
pub open spec fn backed(pool: Pool, pool_tokens: int, staked: int) -> bool {
    staked == pool_tokens * pool.stake_rate
}

/// Staking keeps the pool tokens backed: as many tokens are put to the staked ones as
/// the new pool tokens stand for.
pub proof fn law_stake_keeps_pool_tokens_backed(
    accounts: Stake,
    program_id: Pubkey,
    pool_token_amount: u64,
    pool_tokens: int,
    staked: int,
)
    requires
        accounts.outcome_in(program_id) is Ok,
        accounts.countable(pool_token_amount),
        backed(accounts.pool.data, pool_tokens, staked),
    ensures
        ({
            let (transfer, mint_to) = accounts.staked(
                accounts.outcome_in(program_id),
                pool_token_amount,
            ).0->Ok_0;
            backed(accounts.pool.data, pool_tokens + mint_to.amount, staked + transfer.amount)
        }),
{
    let rate = accounts.pool.data.stake_rate as int;
    let more = pool_token_amount as int;
    assert((pool_tokens + more) * rate == pool_tokens * rate + more * rate) by (nonlinear_arith);
    assert(0 <= more * rate) by (nonlinear_arith)
        requires
            0 <= more,
            0 <= rate,
    ;
}

/// Unstaking keeps the pool tokens backed: as many tokens leave the staked ones as the
/// burned pool tokens stood for.
pub proof fn law_unstake_keeps_pool_tokens_backed(
    accounts: StartUnstake,
    program_id: Pubkey,
    pool_token_amount: u64,
    locked: bool,
    pool_tokens: int,
    staked: int,
)
    requires
        accounts.outcome_in(program_id) is Ok,
        accounts.countable(pool_token_amount),
        backed(accounts.pool.data, pool_tokens, staked),
    ensures
        ({
            let (burn, transfer) = accounts.unstaking(
                accounts.outcome_in(program_id),
                pool_token_amount,
                locked,
            ).0->Ok_0;
            backed(accounts.pool.data, pool_tokens - burn.amount, staked - transfer.amount)
        }),
{
    let rate = accounts.pool.data.stake_rate as int;
    let less = pool_token_amount as int;
    assert((pool_tokens - less) * rate == pool_tokens * rate - less * rate) by (nonlinear_arith);
    assert(0 <= less * rate) by (nonlinear_arith)
        requires
            0 <= less,
            0 <= rate,
    ;
}

/// Changing a pool keeps its pool tokens backed: what one of them stands for never
/// changes.
pub proof fn law_update_keeps_pool_tokens_backed(
    accounts: UpdatePool,
    new_authority: Option<Pubkey>,
    withdrawal_timelock: Option<i64>,
    pool_tokens: int,
    staked: int,
)
    requires
        backed(accounts.pool.data, pool_tokens, staked),
    ensures
        backed(
            accounts.updated(new_authority, withdrawal_timelock).pool.data,
            pool_tokens,
            staked,
        ),
{
}

/// Withdrawing as many tokens as were deposited takes them from where they were put, and
/// back to where they came from when the same account is passed.
pub proof fn law_withdraw_takes_deposit_back(
    deposit: Deposit,
    withdraw: Withdraw,
    program_id: Pubkey,
    amount: u64,
)
    requires
        deposit.outcome() is Ok,
        withdraw.outcome_in(program_id) is Ok,
        withdraw.staker.data == deposit.staker.data,
    ensures
        ({
            let into = deposit.deposited(amount)->Ok_0;
            let back = withdraw.withdrawn(withdraw.outcome_in(program_id), amount)->Ok_0;
            &&& back.from == into.to
            &&& back.amount == into.amount
            &&& withdraw.depositor == deposit.depositor ==> back.to == into.from
        }),
{
}

/// Unstaking as many pool tokens as were staked takes back what staking did: the same
/// number of pool tokens is burned from where they were minted to, and the same number
/// of staked tokens leaves the vault that they came into.
pub proof fn law_unstake_takes_stake_back(
    stake: Stake,
    unstake: StartUnstake,
    program_id: Pubkey,
    pool_token_amount: u64,
    locked: bool,
)
    requires
        stake.outcome_in(program_id) is Ok,
        unstake.outcome_in(program_id) is Ok,
        unstake.pool.info.key == stake.pool.info.key,
        unstake.pool.data == stake.pool.data,
        unstake.staker.info.key == stake.staker.info.key,
        unstake.staker.data == stake.staked(
            stake.outcome_in(program_id),
            pool_token_amount,
        ).1.staker.data,
    ensures
        ({
            let (stake_transfer, mint_to) = stake.staked(
                stake.outcome_in(program_id),
                pool_token_amount,
            ).0->Ok_0;
            let (burn, unstake_transfer) = unstake.unstaking(
                unstake.outcome_in(program_id),
                pool_token_amount,
                locked,
            ).0->Ok_0;
            &&& burn.mint == mint_to.mint
            &&& burn.from == mint_to.to
            &&& burn.amount == mint_to.amount
            &&& unstake_transfer.from == stake_transfer.to
            &&& unstake_transfer.amount == stake_transfer.amount
            &&& unstake_transfer.authority == stake_transfer.authority
        }),
{
    lemma_key_is_its_bytes(stake.staker_vault_authority.key, unstake.staker_vault_authority.key);
    assert(stake.staker_vault.keys() == unstake.staker_vault.keys());
    assert(stake.staker_vault.vault_pool_token.info.key
        == stake.staker_vault.keys().vault_pool_token);
    assert(unstake.staker_vault.vault_pool_token.info.key
        == unstake.staker_vault.keys().vault_pool_token);
    assert(stake.staker_vault.vault_staked.info.key == stake.staker_vault.keys().vault_staked);
    assert(unstake.staker_vault.vault_staked.info.key
        == unstake.staker_vault.keys().vault_staked);
}

/// The receipt of `start_unstake` gives back, once, exactly the tokens that were held
/// back: `end_unstake` takes it for the same pool and staker, whenever its accounts are
/// otherwise in order and its two vaults are those of the set that the receipt is about,
/// and hands out the amount that `start_unstake` moved.
///
/// `start_unstake` holds the tokens back in the staker's free set whatever the receipt
/// says. So a locked receipt is paid from the locked set, out of tokens that must be
/// there already, where that set names other accounts.
pub proof fn law_receipt_is_honoured(
    start: StartUnstake,
    end: EndUnstake,
    program_id: Pubkey,
    pool_token_amount: u64,
    locked: bool,
)
    requires
        start.outcome_in(program_id) is Ok,
        end.pool.info.key == start.pool.info.key,
        end.staker.info.key == start.staker.info.key,
        end.staker.data.nonce == start.staker.data.nonce,
        end.staker.data.pool == start.staker.data.pool,
        end.staker.data.beneficiary == start.staker.data.beneficiary,
        end.beneficiary.key == start.beneficiary.key,
        end.beneficiary.is_signer,
        end.staker_vault_authority.key == start.staker_vault_authority.key,
        end.pending_withdrawal.data == start.receipt(pool_token_amount, locked),
        end.pending_withdrawal.info.is_writable,
        end.vault.is_writable,
        end.vault_pending_withdrawal.is_writable,
        end.vault.key == selected_vaults(end.staker.data, locked).vault,
        end.vault_pending_withdrawal.key == selected_vaults(
            end.staker.data,
            locked,
        ).vault_pending_withdrawal,
    ensures
        end.outcome_in(program_id) is Ok,
        end.unstaked(end.outcome_in(program_id)).0->Ok_0.amount == start.unstaking(
            start.outcome_in(program_id),
            pool_token_amount,
            locked,
        ).0->Ok_0.1.amount,
{
}

/// A receipt is used up by `end_unstake`: the next request with it is refused, whatever
/// accounts are passed with it.
pub proof fn law_receipt_works_once(
    first: EndUnstake,
    second: EndUnstake,
    program_id: Pubkey,
)
    requires
        first.outcome_in(program_id) is Ok,
        second.pending_withdrawal == first.unstaked(
            first.outcome_in(program_id),
        ).1.pending_withdrawal,
    ensures
        second.outcome_in(program_id) is Err,
        first.unstaked(first.outcome_in(program_id)).1.outcome_in(program_id) == Err::<(), _>(
            ErrorCode::ConstraintRaw,
        ),
{
}

/// The time between the two ends of a receipt is the timelock of the pool.
pub proof fn law_receipt_spans_the_timelock(
    accounts: StartUnstake,
    pool_token_amount: u64,
    locked: bool,
)
    requires
        accounts.countable(pool_token_amount),
    ensures
        ({
            let receipt = accounts.receipt(pool_token_amount, locked);
            receipt.end_ts - receipt.start_ts == accounts.pool.data.withdrawal_timelock
        }),
{
}

/// Tokens that are staked, unstaked and handed out again come back in full: each of the
/// three transfers moves as many tokens, and the last one moves them between the vaults
/// of the set that the receipt is about. When that is the free set, as for every receipt
/// that is not locked, each transfer starts where the one before ended, and the last ends
/// where the first started. A locked receipt hands out as many tokens within the locked
/// set instead.
pub proof fn law_staked_tokens_come_back(
    stake: Stake,
    start: StartUnstake,
    end: EndUnstake,
    program_id: Pubkey,
    pool_token_amount: u64,
    locked: bool,
)
    requires
        stake.outcome_in(program_id) is Ok,
        start.outcome_in(program_id) is Ok,
        end.outcome_in(program_id) is Ok,
        start.pool.info.key == stake.pool.info.key,
        start.pool.data == stake.pool.data,
        start.staker.info.key == stake.staker.info.key,
        start.staker.data == stake.staked(
            stake.outcome_in(program_id),
            pool_token_amount,
        ).1.staker.data,
        end.pending_withdrawal.data == start.receipt(pool_token_amount, locked),
        end.staker.data.staker_vault == start.staker.data.staker_vault,
        end.staker.data.staker_vault_locked == start.staker.data.staker_vault_locked,
    ensures
        ({
            let into = stake.staked(stake.outcome_in(program_id), pool_token_amount).0->Ok_0.0;
            let out = start.unstaking(
                start.outcome_in(program_id),
                pool_token_amount,
                locked,
            ).0->Ok_0.1;
            let back = end.unstaked(end.outcome_in(program_id)).0->Ok_0;
            let set = selected_vaults(start.staker.data, locked);
            &&& into.amount == out.amount == back.amount
            &&& into.to == out.from
            &&& back.from == set.vault_pending_withdrawal
            &&& back.to == set.vault
            &&& set == start.staker.data.staker_vault ==> out.to == back.from && back.to
                == into.from
            &&& !locked ==> set == start.staker.data.staker_vault
        }),
{
    law_unstake_takes_stake_back(stake, start, program_id, pool_token_amount, locked);
    assert(start.staker_vault.vault_pending_withdrawal.info.key
        == start.staker_vault.keys().vault_pending_withdrawal);
    assert(stake.staker_vault.vault.info.key == stake.staker_vault.keys().vault);
}

// ---------------------------------------------------------------------------
// Rewards
// ---------------------------------------------------------------------------

/// Two shares together are no more than the share of both holdings together.
proof fn lemma_shares_add_up(a: int, b: int, total: int, supply: int)
    requires
        0 < supply,
    ensures
        share(a, total, supply) + share(b, total, supply) <= share(a + b, total, supply),
{
    let x = a * total;
    let y = b * total;
    let z = (a + b) * total;
    assert(z == x + y) by (nonlinear_arith)
        requires
            x == a * total,
            y == b * total,
            z == (a + b) * total,
    ;
    vstd::arithmetic::div_mod::lemma_fundamental_div_mod(x, supply);
    vstd::arithmetic::div_mod::lemma_fundamental_div_mod(y, supply);
    vstd::arithmetic::div_mod::lemma_fundamental_div_mod(z, supply);
    let qx = x / supply;
    let qy = y / supply;
    let qz = z / supply;
    assert(qx + qy <= qz) by (nonlinear_arith)
        requires
            0 < supply,
            z == x + y,
            supply * qx <= x,
            supply * qy <= y,
            z < supply * qz + supply,
    ;
}

/// A larger holding has no smaller share.
pub proof fn law_share_grows_with_the_holding(a: int, b: int, total: int, supply: int)
    requires
        a <= b,
        0 <= total,
        0 < supply,
    ensures
        share(a, total, supply) <= share(b, total, supply),
{
    assert(a * total <= b * total) by (nonlinear_arith)
        requires
            a <= b,
            0 <= total,
    ;
    vstd::arithmetic::div_mod::lemma_div_is_ordered(a * total, b * total, supply);
}

/// Who holds all pool tokens gets the whole reward.
pub proof fn law_sole_holder_gets_everything(total: int, supply: int)
    requires
        0 <= total,
        0 < supply,
    ensures
        share(supply, total, supply) == total,
{
    assert(supply * total == total * supply) by (nonlinear_arith);
    vstd::arithmetic::div_mod::lemma_div_by_multiple(total, supply);
}

/// How many pool tokens the stakers of these claims hold.
pub open spec fn all_pool_tokens(claims: Seq<ClaimRewardCommon>) -> int
    decreases claims.len(),
{
    if claims.len() == 0 {
        0
    } else {
        all_pool_tokens(claims.drop_last()) + claims.last().pool_tokens()
    }
}

/// How much these claims pay.
pub open spec fn all_rewards(claims: Seq<ClaimRewardCommon>) -> int
    decreases claims.len(),
{
    if claims.len() == 0 {
        0
    } else {
        all_rewards(claims.drop_last()) + claims.last().reward()
    }
}

/// Claims pay no more than the share of all pool tokens that they are made on.
proof fn lemma_rewards_add_up(claims: Seq<ClaimRewardCommon>, rewarder: Rewarder)
    requires
        0 < rewarder.pool_token_supply,
        forall|i: int| 0 <= i < claims.len() ==> (#[trigger] claims[i]).rewarder.data == rewarder,
    ensures
        all_rewards(claims) <= share(
            all_pool_tokens(claims),
            rewarder.total as int,
            rewarder.pool_token_supply as int,
        ),
    decreases claims.len(),
{
    let total = rewarder.total as int;
    let supply = rewarder.pool_token_supply as int;
    if claims.len() == 0 {
        assert(0 * total == 0) by (nonlinear_arith);
        vstd::arithmetic::div_mod::lemma_div_basics(supply);
    } else {
        lemma_rewards_add_up(claims.drop_last(), rewarder);
        lemma_shares_add_up(
            all_pool_tokens(claims.drop_last()),
            claims.last().pool_tokens(),
            total,
            supply,
        );
    }
}

/// However many stakers claim a reward, together they are paid no more than it has, as
/// long as they hold no more pool tokens than there were when it was dropped.
pub proof fn law_claims_stay_within_the_reward(
    claims: Seq<ClaimRewardCommon>,
    rewarder: Rewarder,
)
    requires
        0 < rewarder.pool_token_supply,
        forall|i: int| 0 <= i < claims.len() ==> (#[trigger] claims[i]).rewarder.data == rewarder,
        all_pool_tokens(claims) <= rewarder.pool_token_supply,
    ensures
        all_rewards(claims) <= rewarder.total,
{
    let total = rewarder.total as int;
    let supply = rewarder.pool_token_supply as int;
    lemma_rewards_add_up(claims, rewarder);
    law_share_grows_with_the_holding(all_pool_tokens(claims), supply, total, supply);
    law_sole_holder_gets_everything(total, supply);
}

/// Both ways to claim pay the same amount.
pub proof fn law_both_claims_pay_the_same(
    direct: ClaimReward,
    locked: ClaimRewardToLocker,
    nonce: u8,
    locker_accounts: Seq<Pubkey>,
)
    requires
        direct.common == locked.common,
    ensures
        direct.claimed(Ok(())).0->Ok_0.amount == locked.call(nonce, locker_accounts).deposit_amount,
{
}

/// A claim takes the staker's cursor just past that of the reward, and changes nothing
/// else in the staker's record.
pub proof fn law_claim_goes_past_the_reward(common: ClaimRewardCommon)
    requires
        common.claimable(),
    ensures
        common.claimed().staker.data.rewards_cursor
            == common.rewarder.data.reward_event_q_cursor + 1,
        common.claimed().staker.data == (Staker {
            rewards_cursor: common.claimed().staker.data.rewards_cursor,
            ..common.staker.data
        }),
{
}

/// A reward can be found by its cursor: the pool's ring names its rewarder there, and
/// whether it is paid into lockers, until as many rewards as the ring has slots have
/// come after it.
pub proof fn law_reward_is_announced(
    before: DropReward,
    kind: RewarderKind,
    reward: Rewarder,
    after: DropReward,
    later: Seq<RewardEvent>,
)
    requires
        before.reward_event_q.data@.can_append(),
        before.dropped(kind, reward, after),
        reward.reward_event_q_cursor == before.cursor(),
        later.len() < before.reward_event_q.data@.capacity(),
    ensures
        ({
            let ring = after.reward_event_q.data@.append_all(later);
            let event = ring.event(reward.reward_event_q_cursor as nat);
            &&& event.rewarder == before.rewarder.info.key
            &&& event.ts == before.clock.unix_timestamp
            &&& event.locked <==> kind != RewarderKind::Unlocked
        }),
{
    law_event_reads_back(before.reward_event_q.data@, before.event(kind), later);
}

/// A pool that was created on an account without events has a ring in order with the
/// slots that were asked for, and dropping rewards keeps it in order.
pub proof fn law_ring_of_a_pool_is_in_order(
    create: CreatePool,
    record: Pool,
    reward_q_len: u32,
    created: CreatePool,
    drop: DropReward,
    kind: RewarderKind,
    reward: Rewarder,
    dropped: DropReward,
)
    requires
        create.reward_event_q.data@ == (Ring { head: 0, tail: 0, slots: Seq::empty() }),
        0 < reward_q_len,
        create.created(record, reward_q_len, created),
        drop.dropped(kind, reward, dropped),
    ensures
        created.reward_event_q.data@.wf(),
        created.reward_event_q.data@.capacity() == reward_q_len,
        drop.reward_event_q.data@.wf() ==> dropped.reward_event_q.data@.wf(),
        drop.reward_event_q.data@.wf() ==> dropped.reward_event_q.data@.capacity()
            == drop.reward_event_q.data@.capacity(),
{
    law_fresh_ring_is_in_order(reward_q_len as nat);
    if drop.reward_event_q.data@.wf() {
        law_append_keeps_order(drop.reward_event_q.data@, drop.event(kind));
    }
}

/// Every reward on a pool has a cursor of its own: that of a later reward is larger.
pub proof fn law_rewards_have_their_own_cursors(
    first: DropReward,
    kind: RewarderKind,
    reward: Rewarder,
    after: DropReward,
    between: Seq<RewardEvent>,
    second: DropReward,
)
    requires
        first.reward_event_q.data@.can_append(),
        first.dropped(kind, reward, after),
        second.reward_event_q.data@ == after.reward_event_q.data@.append_all(between),
        second.reward_event_q.data@.can_append(),
    ensures
        first.cursor() < second.cursor(),
{
    let ring = first.reward_event_q.data@;
    assert(0 <= ring.index_of(ring.head) < ring.capacity());
    law_append_all_counts(after.reward_event_q.data@, between);
}

/// A reward that was dropped is one that the stakers of the pool may claim: `claim_reward`
/// refuses it neither for its pool nor for its vault.
pub proof fn law_dropped_reward_names_pool_and_vault(
    drop: DropReward,
    claim: ClaimReward,
    program_id: Pubkey,
    kind: RewarderKind,
    total: u64,
    expiry_ts: i64,
    expiry_receiver: Pubkey,
    nonce: u8,
)
    requires
        claim.common.rewarder.info.key == drop.rewarder.info.key,
        claim.common.rewarder.data == drop.reward(kind, total, expiry_ts, expiry_receiver, nonce),
        claim.common.pool.info.key == drop.pool.info.key,
        claim.common.vault.key == drop.rewarder_vault.info.key,
        claim.common.vault.is_writable,
        claim.common.beneficiary.is_signer,
        claim.common.staker.info.is_writable,
        claim.common.staker.data.pool == claim.common.pool.info.key,
        claim.common.staker.data.beneficiary == claim.common.beneficiary.key,
        claim.common.staker_vault_pool_token.info.key
            == claim.common.staker.data.staker_vault.vault_pool_token,
        claim.common.staker_vault_locked_pool_token.info.key
            == claim.common.staker.data.staker_vault_locked.vault_pool_token,
        claim.common.authority_in(program_id) == Some(
            claim.common.rewarder_vault_authority.key@,
        ),
        claim.to.is_writable,
    ensures
        claim.outcome_in(program_id) is Ok,
{
}

/// A reward that is paid directly is never paid into a locker.
pub proof fn law_unlocked_reward_needs_no_locker(
    accounts: ClaimRewardToLocker,
    program_id: Pubkey,
    pool_manager_nonce: u64,
)
    requires
        accounts.common.rewarder.data.kind == RewarderKind::Unlocked,
    ensures
        accounts.outcome_in(program_id, pool_manager_nonce) is Err,
{
}

/// What is left of a reward goes, from the vault that it was put into, to the expiry
/// receiver that was named when it was dropped.
pub proof fn law_reward_expires_as_it_was_dropped(
    drop: DropReward,
    expire: ExpireReward,
    program_id: Pubkey,
    kind: RewarderKind,
    total: u64,
    expiry_ts: i64,
    expiry_receiver: Pubkey,
    nonce: u8,
)
    requires
        expire.rewarder.data == drop.reward(kind, total, expiry_ts, expiry_receiver, nonce),
        expire.outcome_in(program_id) is Ok,
    ensures
        expire.expiry_receiver.is_signer,
        expire.expiry_receiver.key == expiry_receiver,
        expire.expired(expire.outcome_in(program_id)).0->Ok_0.from == drop.transfer(total).to,
        expire.expired(expire.outcome_in(program_id)).0->Ok_0.amount == expire.vault.data.amount,
{
}

// ---------------------------------------------------------------------------
// The manager
// ---------------------------------------------------------------------------

/// A reward that is paid into a locker goes to the program for lockers that the manager
/// names, for the staker's beneficiary, and the program that the manager names decides
/// when the locker may be emptied, looking at the staker.
pub proof fn law_locker_is_made_by_the_managers_programs(
    accounts: ClaimRewardToLocker,
    program_id: Pubkey,
    pool_manager_nonce: u64,
    nonce: u8,
    locker_accounts: Seq<Pubkey>,
)
    requires
        accounts.outcome_in(program_id, pool_manager_nonce) is Ok,
    ensures
        ({
            let call = accounts.call(nonce, locker_accounts);
            let manager = accounts.pool_manager_info.data;
            &&& call.program == manager.locker_manager_program
            &&& call.beneficiary == accounts.common.beneficiary.key
            &&& call.reward_keeper is Some
            &&& call.reward_keeper->0.program == manager.reward_keeper_program
            &&& call.reward_keeper->0.metadata == accounts.common.staker.info.key
        }),
{
}

/// A reward goes to a locker once: a second request for the same staker and reward is
/// refused, whatever else is passed with it.
pub proof fn law_reward_goes_to_a_locker_once(
    first: ClaimRewardToLocker,
    second: ClaimRewardToLocker,
    program_id: Pubkey,
    pool_manager_nonce: u64,
    nonce: u8,
    locker_accounts: Seq<Pubkey>,
)
    requires
        first.outcome_in(program_id, pool_manager_nonce) is Ok,
        first.payable(locker_accounts),
        second.common.staker.data == first.claimed(
            Ok(()),
            nonce,
            locker_accounts,
        ).1.common.staker.data,
        second.common.rewarder.data == first.common.rewarder.data,
    ensures
        second.outcome_in(program_id, pool_manager_nonce) is Err,
{
}

/// A reward that was claimed directly does not go to a locker afterwards.
pub proof fn law_claimed_reward_goes_to_no_locker(
    first: ClaimReward,
    second: ClaimRewardToLocker,
    program_id: Pubkey,
    pool_manager_nonce: u64,
)
    requires
        first.outcome_in(program_id) is Ok,
        first.common.claimable(),
        second.common.staker.data == first.claimed(Ok(())).1.common.staker.data,
        second.common.rewarder.data == first.common.rewarder.data,
    ensures
        second.outcome_in(program_id, pool_manager_nonce) is Err,
{
}

/// With the record that `initialize` wrote, rewards are paid into lockers of the program
/// that was named then, and of no other.
pub proof fn law_lockers_follow_initialize(
    initialize: Initialize,
    claim: ClaimRewardToLocker,
    program_id: Pubkey,
    pool_manager_nonce: u64,
)
    requires
        claim.pool_manager_info.data == initialize.written().pool_manager_info.data,
        claim.outcome_in(program_id, pool_manager_nonce) is Ok,
    ensures
        claim.locker_manager_program.key == initialize.locker_manager_program.key,
        claim.reward_keeper_program.key == initialize.reward_keeper_program.key,
{
}

/// With the record that `set_locker_manager` changed, rewards are paid into lockers of
/// the program that was named last, and of no other.
pub proof fn law_lockers_follow_set_locker_manager(
    set: Auth,
    claim: ClaimRewardToLocker,
    program_id: Pubkey,
    pool_manager_nonce: u64,
    locker_manager_program: Pubkey,
)
    requires
        claim.pool_manager_info.data == set.with_locker_manager(
            locker_manager_program,
        ).pool_manager_info.data,
        claim.outcome_in(program_id, pool_manager_nonce) is Ok,
    ensures
        claim.locker_manager_program.key == locker_manager_program,
        claim.reward_keeper_program.key == set.pool_manager_info.data.reward_keeper_program,
{
}

/// Naming another authority and naming another program for lockers do not touch each
/// other: either order gives the same record.
pub proof fn law_manager_changes_commute(
    accounts: Auth,
    authority: Pubkey,
    locker_manager_program: Pubkey,
)
    ensures
        accounts.with_authority(authority).with_locker_manager(locker_manager_program)
            == accounts.with_locker_manager(locker_manager_program).with_authority(authority),
{
}

} // verus!
