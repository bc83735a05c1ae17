//! When each request is accepted, and what its refusal says.
//!
//! Each law goes through the answers that a request may get and says, of the accounts
//! themselves, when it gets them. The answers exclude each other, so each comes exactly
//! then; in particular a request that has nothing wrong with it is accepted.

use vstd::prelude::*;

use crate::account::{CreatedAccount, NewAccount};
use crate::address::{
    is_canonical_bump, manager_address, manager_exists, manager_seeds, program_address,
    SignerSeeds,
};
use crate::error::ErrorCode;
use crate::key::{optional_bytes, zero_key, Pubkey};
use crate::manager::{Auth, Initialize};
use crate::pool::{CreatePool, UpdatePool};
use crate::rewards::{
    ClaimReward, ClaimRewardCommon, ClaimRewardToLocker, DropReward, ExpireReward,
};
use crate::staker::{
    CreateStaker, StakerVaultAccounts, UpdateStaker, UpdateStakerVault, UpdateStakerVaultLocked,
};
use crate::staking::{Deposit, EndUnstake, Stake, StartUnstake, Withdraw};

verus! {

// ---------------------------------------------------------------------------
// Keys and addresses
// ---------------------------------------------------------------------------

/// A key is seen as its 32 bytes in order, an absent key as nothing, and the zero key
/// as 32 zeros.
pub proof fn law_key_is_seen_as_its_bytes(key: Pubkey)
    ensures
        key@ == key.bytes@,
        key@.len() == 32,
        optional_bytes(Some(key)) == Some(key.bytes@),
        optional_bytes(None) is None,
        forall|i: int| 0 <= i < 32 ==> #[trigger] zero_key().bytes@[i] == 0,
{
}

/// The address that the program signs for with the seeds of a pool comes from the pool's
/// key and the bump, in this order.
pub proof fn law_pool_address(pool: Pubkey, bump: u8, program_id: Pubkey)
    ensures
        (SignerSeeds::Pool { pool, bump }).address(program_id) == program_address(
            seq![pool.bytes@, seq![bump]],
            program_id.bytes@,
        ),
{
}

/// The address that the program signs for with the seeds of a record comes from the
/// pool's key, the record's key and the bump, in this order.
pub proof fn law_record_address(pool: Pubkey, record: Pubkey, bump: u8, program_id: Pubkey)
    ensures
        (SignerSeeds::Record { pool, record, bump }).address(program_id) == program_address(
            seq![pool.bytes@, record.bytes@, seq![bump]],
            program_id.bytes@,
        ),
{
}

/// The seeds of a manager are the word `pool-manager` and its number, the lowest byte
/// first.
pub proof fn law_manager_seeds(nonce: u64)
    ensures
        manager_seeds(nonce).len() == 2,
        manager_seeds(nonce)[0].len() == "pool-manager"@.len(),
        forall|i: int|
            0 <= i < 12 ==> #[trigger] manager_seeds(nonce)[0][i] as int == "pool-manager"@[i] as int,
        manager_seeds(nonce)[1] == vstd::bytes::spec_u64_to_le_bytes(nonce),
{
    reveal_strlit("pool-manager");
}

/// A manager has an address exactly when some bump from 1 up gives one, and it is that
/// of the largest such bump.
pub proof fn law_manager_address(nonce: u64, program_id: Pubkey, bump: u8)
    requires
        1 <= bump,
        program_address(manager_seeds(nonce).push(seq![bump]), program_id.bytes@) is Some,
        forall|b: u8|
            bump < b ==> #[trigger] program_address(
                manager_seeds(nonce).push(seq![b]),
                program_id.bytes@,
            ) is None,
    ensures
        manager_exists(nonce, program_id),
        program_address(manager_seeds(nonce).push(seq![bump]), program_id.bytes@) == Some(
            manager_address(nonce, program_id),
        ),
{
    let seeds = manager_seeds(nonce);
    assert(is_canonical_bump(seeds, program_id@, bump));
    let found = choose|b: u8| is_canonical_bump(seeds, program_id@, b);
    assert(program_address(seeds.push(seq![found]), program_id@) is Some);
    assert(found == bump);
}

/// A manager has no address when no bump from 1 up gives one.
pub proof fn law_manager_without_address(nonce: u64, program_id: Pubkey)
    requires
        forall|b: u8|
            1 <= b ==> #[trigger] program_address(
                manager_seeds(nonce).push(seq![b]),
                program_id.bytes@,
            ) is None,
    ensures
        !manager_exists(nonce, program_id),
{
}

// ---------------------------------------------------------------------------
// New accounts
// ---------------------------------------------------------------------------

/// A new record may be written into an account without a tag that is writable and holds
/// its rent; a tag is reported first, and missing rent last.
pub proof fn law_new_account<T>(account: NewAccount<T>)
    ensures
        match account.zeroed() {
            Ok(_) => account.discriminator == 0 && account.info.is_writable && account.rent_exempt,
            Err(ErrorCode::ConstraintZero) => account.discriminator != 0,
            Err(ErrorCode::ConstraintMut) => account.discriminator == 0
                && !account.info.is_writable,
            Err(ErrorCode::ConstraintRentExempt) => account.discriminator == 0
                && account.info.is_writable && !account.rent_exempt,
            Err(_) => false,
        },
{
}

/// An account is created exactly when the system program says so and its address was not
/// in use; an error of the system program is handed on as it is.
pub proof fn law_created_account<T>(account: CreatedAccount<T>)
    ensures
        account.created() is Ok <==> account.reply is Ok && !account.in_use,
        account.reply is Err ==> account.created() == account.reply,
        account.reply is Ok && account.in_use ==> account.created() == Err::<(), _>(
            ErrorCode::AccountAlreadyInUse,
        ),
{
}

// ---------------------------------------------------------------------------
// Managers
// ---------------------------------------------------------------------------

/// `initialize` is accepted exactly when the authority signs and is writable, and the
/// account was created at the manager's address, writable and with its rent.
pub proof fn law_initialize_is_accepted(accounts: Initialize, address: Seq<u8>)
    ensures
        accounts.outcome(address) is Ok <==> {
            &&& accounts.authority.is_signer
            &&& accounts.authority.is_writable
            &&& accounts.pool_manager_info.reply is Ok
            &&& !accounts.pool_manager_info.in_use
            &&& accounts.pool_manager_info.info.key.bytes@ == address
            &&& accounts.pool_manager_info.info.is_writable
            &&& accounts.pool_manager_info.rent_exempt
        },
{
}

/// `initialize` first asks for the signature, then for the account to be created, then
/// for its address, its being writable, its rent, and last for a writable authority.
pub proof fn law_initialize_is_refused(accounts: Initialize, address: Seq<u8>)
    ensures
        ({
            let account = accounts.pool_manager_info;
            let r = accounts.outcome(address);
            let created = accounts.authority.is_signer && account.reply is Ok && !account.in_use;
            let there = created && account.info.key.bytes@ == address;
            &&& !accounts.authority.is_signer ==> r == Err::<(), _>(ErrorCode::AccountNotSigner)
            &&& accounts.authority.is_signer && account.reply is Err ==> r == account.reply
            &&& accounts.authority.is_signer && account.reply is Ok && account.in_use ==> r
                == Err::<(), _>(ErrorCode::AccountAlreadyInUse)
            &&& created && account.info.key.bytes@ != address ==> r == Err::<(), _>(
                ErrorCode::ConstraintSeeds,
            )
            &&& there && !account.info.is_writable ==> r == Err::<(), _>(ErrorCode::ConstraintMut)
            &&& there && account.info.is_writable && !account.rent_exempt ==> r == Err::<(), _>(
                ErrorCode::ConstraintRentExempt,
            )
            &&& there && account.info.is_writable && account.rent_exempt
                && !accounts.authority.is_writable ==> r == Err::<(), _>(ErrorCode::ConstraintMut)
        }),
{
}

/// A manager's record is changed exactly when someone signs and the account is the one
/// at the manager's address, writable.
pub proof fn law_manager_change_is_answered(accounts: Auth, address: Seq<u8>)
    ensures
        ({
            let signed = accounts.authority.is_signer;
            let there = accounts.pool_manager_info.info.key.bytes@ == address;
            let writable = accounts.pool_manager_info.info.is_writable;
            match accounts.outcome(address) {
                Ok(_) => signed && there && writable,
                Err(ErrorCode::AccountNotSigner) => !signed,
                Err(ErrorCode::ConstraintSeeds) => signed && !there,
                Err(ErrorCode::ConstraintMut) => signed && there && !writable,
                Err(_) => false,
            }
        }),
{
}

// ---------------------------------------------------------------------------
// Pools
// ---------------------------------------------------------------------------

/// A pool is created exactly when both its accounts are new and its mint has no decimal
/// places. What is wrong with the pool's account is reported before what is wrong with
/// the ring's, and the mint comes last.
pub proof fn law_create_pool_is_answered(accounts: CreatePool)
    ensures
        ({
            let p = accounts.pool;
            let q = accounts.reward_event_q;
            let p_new = p.discriminator == 0 && p.info.is_writable && p.rent_exempt;
            let q_new = q.discriminator == 0 && q.info.is_writable && q.rent_exempt;
            match accounts.outcome() {
                Ok(_) => p_new && q_new && accounts.pool_mint.data.decimals == 0,
                Err(ErrorCode::ConstraintZero) => p.discriminator != 0 || p_new
                    && q.discriminator != 0,
                Err(ErrorCode::ConstraintMut) => p.discriminator == 0 && !p.info.is_writable
                    || p_new && q.discriminator == 0 && !q.info.is_writable,
                Err(ErrorCode::ConstraintRentExempt) => p.discriminator == 0
                    && p.info.is_writable && !p.rent_exempt || p_new && q.discriminator == 0
                    && q.info.is_writable && !q.rent_exempt,
                Err(ErrorCode::ConstraintRaw) => p_new && q_new
                    && accounts.pool_mint.data.decimals != 0,
                Err(_) => false,
            }
        }),
{
}

/// A pool is changed exactly when its authority signs and its account is writable.
pub proof fn law_update_pool_is_answered(accounts: UpdatePool)
    ensures
        ({
            let signed = accounts.authority.is_signer;
            let writable = accounts.pool.info.is_writable;
            let own = accounts.pool.data.authority == accounts.authority.key;
            match accounts.outcome() {
                Ok(_) => signed && writable && own,
                Err(ErrorCode::AccountNotSigner) => !signed,
                Err(ErrorCode::ConstraintMut) => signed && !writable,
                Err(ErrorCode::ConstraintHasOne) => signed && writable && !own,
                Err(_) => false,
            }
        }),
{
}

// ---------------------------------------------------------------------------
// Stakers
// ---------------------------------------------------------------------------

/// A staker is created exactly when the beneficiary signs and the account is new.
pub proof fn law_create_staker_is_answered(accounts: CreateStaker)
    ensures
        ({
            let signed = accounts.beneficiary.is_signer;
            let s = accounts.staker;
            match accounts.outcome() {
                Ok(_) => signed && s.discriminator == 0 && s.info.is_writable && s.rent_exempt,
                Err(ErrorCode::AccountNotSigner) => !signed,
                Err(ErrorCode::ConstraintZero) => signed && s.discriminator != 0,
                Err(ErrorCode::ConstraintMut) => signed && s.discriminator == 0
                    && !s.info.is_writable,
                Err(ErrorCode::ConstraintRentExempt) => signed && s.discriminator == 0
                    && s.info.is_writable && !s.rent_exempt,
                Err(_) => false,
            }
        }),
{
}

/// A staker's metadata is changed exactly when the beneficiary signs and the account is
/// writable.
pub proof fn law_update_staker_is_answered(accounts: UpdateStaker)
    ensures
        ({
            let signed = accounts.beneficiary.is_signer;
            let writable = accounts.staker.info.is_writable;
            let own = accounts.staker.data.beneficiary == accounts.beneficiary.key;
            match accounts.outcome() {
                Ok(_) => signed && writable && own,
                Err(ErrorCode::AccountNotSigner) => !signed,
                Err(ErrorCode::ConstraintMut) => signed && !writable,
                Err(ErrorCode::ConstraintHasOne) => signed && writable && !own,
                Err(_) => false,
            }
        }),
{
}

/// The token accounts of a staker go together exactly when all four are writable and
/// have the owner of the one for pool tokens, and the other three have one mint.
pub proof fn law_vaults_are_answered(vaults: StakerVaultAccounts)
    ensures
        ({
            let owner = vaults.vault_pool_token.data.owner;
            let mint = vaults.vault.data.mint;
            let free = vaults.vault.data.owner == owner;
            let staked = vaults.vault_staked.data.owner == owner && vaults.vault_staked.data.mint
                == mint;
            let pending = vaults.vault_pending_withdrawal.data.owner == owner
                && vaults.vault_pending_withdrawal.data.mint == mint;
            let w1 = vaults.vault.info.is_writable;
            let w2 = vaults.vault_staked.info.is_writable;
            let w3 = vaults.vault_pending_withdrawal.info.is_writable;
            let w4 = vaults.vault_pool_token.info.is_writable;
            match vaults.outcome() {
                Ok(_) => w1 && w2 && w3 && w4 && free && staked && pending,
                Err(ErrorCode::ConstraintMut) => {
                    ||| !w1
                    ||| free && !w2
                    ||| free && w2 && staked && !w3
                    ||| free && w2 && staked && w3 && pending && !w4
                },
                Err(ErrorCode::ConstraintRaw) => {
                    ||| w1 && !free
                    ||| w1 && free && w2 && !staked
                    ||| w1 && free && w2 && staked && w3 && !pending
                },
                Err(_) => false,
            }
        }),
{
}

/// Token accounts are recorded exactly when they go together, the staker's account is
/// writable, the one for pool tokens has the authority as owner and the pool's own mint,
/// and the free one has the mint that is staked.
pub proof fn law_update_staker_vault_is_answered(accounts: UpdateStakerVault)
    ensures
        ({
            let vaults = accounts.staker_vault;
            let writable = accounts.staker.info.is_writable;
            let suited = vaults.vault_pool_token.data.owner == accounts.staker_vault_authority.key
                && vaults.vault_pool_token.data.mint == accounts.pool.data.pool_mint
                && vaults.vault.data.mint == accounts.pool.data.mint;
            &&& vaults.outcome() is Err ==> accounts.outcome() == vaults.outcome()
            &&& vaults.outcome() is Ok ==> match accounts.outcome() {
                Ok(_) => writable && suited,
                Err(ErrorCode::ConstraintMut) => !writable,
                Err(ErrorCode::ConstraintRaw) => writable && !suited,
                Err(_) => false,
            }
        }),
{
}

/// Token accounts for tokens of a locker are recorded under the same conditions.
pub proof fn law_update_staker_vault_locked_is_answered(accounts: UpdateStakerVaultLocked)
    ensures
        ({
            let vaults = accounts.staker_vault_locked;
            let writable = accounts.staker.info.is_writable;
            let suited = vaults.vault_pool_token.data.owner == accounts.staker_vault_authority.key
                && vaults.vault_pool_token.data.mint == accounts.pool.data.pool_mint
                && vaults.vault.data.mint == accounts.pool.data.mint;
            &&& vaults.outcome() is Err ==> accounts.outcome() == vaults.outcome()
            &&& vaults.outcome() is Ok ==> match accounts.outcome() {
                Ok(_) => writable && suited,
                Err(ErrorCode::ConstraintMut) => !writable,
                Err(ErrorCode::ConstraintRaw) => writable && !suited,
                Err(_) => false,
            }
        }),
{
}

// ---------------------------------------------------------------------------
// Staking
// ---------------------------------------------------------------------------

/// A deposit is accepted exactly when the beneficiary signs, also as the owner of the
/// tokens, and both token accounts are writable, the one that receives being the free
/// one of the staker.
pub proof fn law_deposit_is_answered(accounts: Deposit)
    ensures
        ({
            let signed = accounts.beneficiary.is_signer && accounts.depositor_authority.is_signer;
            let own = accounts.staker.data.beneficiary == accounts.beneficiary.key;
            let vault = accounts.vault.info.key == accounts.staker.data.staker_vault.vault;
            let owner = accounts.depositor_authority.key == accounts.staker.data.beneficiary;
            let w1 = accounts.vault.info.is_writable;
            let w2 = accounts.depositor.is_writable;
            match accounts.outcome() {
                Ok(_) => signed && own && w1 && vault && w2 && owner,
                Err(ErrorCode::AccountNotSigner) => !signed,
                Err(ErrorCode::ConstraintHasOne) => signed && !own,
                Err(ErrorCode::ConstraintMut) => signed && own && (!w1 || vault && !w2),
                Err(ErrorCode::ConstraintRaw) => signed && own && w1 && (!vault || w2 && !owner),
                Err(_) => false,
            }
        }),
{
}

/// A stake is accepted exactly when the beneficiary signs, the token accounts go
/// together and are the staker's free ones, the mint and the ring are the pool's, the
/// staker is in the pool, mint and staker are writable, and both authorities have their
/// addresses.
pub proof fn law_stake_is_answered(
    accounts: Stake,
    vault_authority: Option<Seq<u8>>,
    mint_authority: Option<Seq<u8>>,
)
    ensures
        ({
            let signed = accounts.beneficiary.is_signer;
            let vaults = accounts.staker_vault;
            let set = accounts.staker.data.staker_vault;
            let of_pool = accounts.pool.data.pool_mint == accounts.pool_mint.key
                && accounts.pool.data.reward_event_q == accounts.reward_event_q.key;
            let writable = accounts.pool_mint.is_writable && accounts.staker.info.is_writable;
            let own = accounts.staker.data.beneficiary == accounts.beneficiary.key
                && accounts.staker.data.pool == accounts.pool.info.key;
            let recorded = vaults.vault.info.key == set.vault && vaults.vault_staked.info.key
                == set.vault_staked && vaults.vault_pending_withdrawal.info.key
                == set.vault_pending_withdrawal && vaults.vault_pool_token.info.key
                == set.vault_pool_token;
            let derived = vault_authority == Some(accounts.staker_vault_authority.key.bytes@)
                && mint_authority == Some(accounts.pool_mint_authority.key.bytes@);
            let r = accounts.outcome(vault_authority, mint_authority);
            &&& !signed ==> r == Err::<(), _>(ErrorCode::AccountNotSigner)
            &&& signed && vaults.outcome() is Err ==> r == vaults.outcome()
            &&& signed && vaults.outcome() is Ok ==> match r {
                Ok(_) => of_pool && writable && own && recorded && derived,
                Err(ErrorCode::ConstraintHasOne) => !of_pool || writable && !own,
                Err(ErrorCode::ConstraintMut) => of_pool && !writable,
                Err(ErrorCode::ConstraintRaw) => of_pool && writable && own && !recorded,
                Err(ErrorCode::ConstraintSeeds) => of_pool && writable && own && recorded
                    && !derived,
                Err(_) => false,
            }
        }),
{
}

/// Unstaking is started exactly when the beneficiary signs, the token accounts go
/// together and are the staker's free ones, the mint and the ring are the pool's, the
/// receipt is new, the staker is in the pool, mint and staker are writable, and the owner
/// of the token accounts has its address.
pub proof fn law_start_unstake_is_answered(
    accounts: StartUnstake,
    vault_authority: Option<Seq<u8>>,
)
    ensures
        ({
            let signed = accounts.beneficiary.is_signer;
            let vaults = accounts.staker_vault;
            let set = accounts.staker.data.staker_vault;
            let of_pool = accounts.pool.data.pool_mint == accounts.pool_mint.key
                && accounts.pool.data.reward_event_q == accounts.reward_event_q.key;
            let w1 = accounts.pool_mint.is_writable;
            let p = accounts.pending_withdrawal;
            let p_new = p.discriminator == 0 && p.info.is_writable && p.rent_exempt;
            let w2 = accounts.staker.info.is_writable;
            let own = accounts.staker.data.beneficiary == accounts.beneficiary.key
                && accounts.staker.data.pool == accounts.pool.info.key;
            let recorded = vaults.vault.info.key == set.vault && vaults.vault_staked.info.key
                == set.vault_staked && vaults.vault_pending_withdrawal.info.key
                == set.vault_pending_withdrawal && vaults.vault_pool_token.info.key
                == set.vault_pool_token;
            let derived = vault_authority == Some(accounts.staker_vault_authority.key.bytes@);
            let r = accounts.outcome(vault_authority);
            &&& !signed ==> r == Err::<(), _>(ErrorCode::AccountNotSigner)
            &&& signed && vaults.outcome() is Err ==> r == vaults.outcome()
            &&& signed && vaults.outcome() is Ok ==> match r {
                Ok(_) => of_pool && w1 && p_new && w2 && own && recorded && derived,
                Err(ErrorCode::ConstraintHasOne) => !of_pool || w1 && p_new && w2 && !own,
                Err(ErrorCode::ConstraintZero) => of_pool && w1 && p.discriminator != 0,
                Err(ErrorCode::ConstraintMut) => of_pool && {
                    ||| !w1
                    ||| p.discriminator == 0 && !p.info.is_writable
                    ||| p_new && !w2
                },
                Err(ErrorCode::ConstraintRentExempt) => of_pool && w1 && p.discriminator == 0
                    && p.info.is_writable && !p.rent_exempt,
                Err(ErrorCode::ConstraintRaw) => of_pool && w1 && p_new && w2 && own && !recorded,
                Err(ErrorCode::ConstraintSeeds) => of_pool && w1 && p_new && w2 && own && recorded
                    && !derived,
                Err(_) => false,
            }
        }),
{
}

/// Unstaking is ended exactly when the beneficiary signs, the staker is in the pool, the
/// receipt is one of the staker for the pool, unused and writable, both token accounts
/// are writable, their owner has its address, and they are the free and the pending one
/// of the locked set for a locked receipt, of the free set for any other. Neither the
/// amount nor the times on the receipt matter.
pub proof fn law_end_unstake_is_answered(accounts: EndUnstake, vault_authority: Option<Seq<u8>>)
    ensures
        ({
            let signed = accounts.beneficiary.is_signer;
            let staker = accounts.staker.data;
            let receipt = accounts.pending_withdrawal.data;
            let own = staker.pool == accounts.pool.info.key && staker.beneficiary
                == accounts.beneficiary.key;
            let w1 = accounts.pending_withdrawal.info.is_writable;
            let named = receipt.pool == accounts.pool.info.key && receipt.staker
                == accounts.staker.info.key;
            let w2 = accounts.vault.is_writable && accounts.vault_pending_withdrawal.is_writable;
            let derived = vault_authority == Some(accounts.staker_vault_authority.key.bytes@);
            let free = accounts.vault.key == staker.staker_vault.vault
                && accounts.vault_pending_withdrawal.key
                == staker.staker_vault.vault_pending_withdrawal;
            let locked = accounts.vault.key == staker.staker_vault_locked.vault
                && accounts.vault_pending_withdrawal.key
                == staker.staker_vault_locked.vault_pending_withdrawal;
            let selected = (receipt.locked ==> locked) && (!receipt.locked ==> free);
            match accounts.outcome(vault_authority) {
                Ok(_) => signed && own && w1 && named && !receipt.burned && w2 && derived
                    && selected,
                Err(ErrorCode::AccountNotSigner) => !signed,
                Err(ErrorCode::ConstraintHasOne) => signed && (!own || w1 && !named),
                Err(ErrorCode::ConstraintMut) => signed && own && (!w1 || named && !receipt.burned
                    && !w2),
                Err(ErrorCode::ConstraintRaw) => signed && own && w1 && named && (receipt.burned
                    || w2 && derived && !selected),
                Err(ErrorCode::ConstraintSeeds) => signed && own && w1 && named && !receipt.burned
                    && w2 && !derived,
                Err(_) => false,
            }
        }),
{
}

/// A withdrawal is accepted exactly when the beneficiary signs, the staker is in the
/// pool, the tokens come from the staker's free account, whose owner has its address, and
/// both accounts are writable.
pub proof fn law_withdraw_is_answered(accounts: Withdraw, vault_authority: Option<Seq<u8>>)
    ensures
        ({
            let signed = accounts.beneficiary.is_signer;
            let own = accounts.staker.data.pool == accounts.pool.info.key
                && accounts.staker.data.beneficiary == accounts.beneficiary.key;
            let w1 = accounts.vault.info.is_writable;
            let vault = accounts.vault.info.key == accounts.staker.data.staker_vault.vault;
            let derived = vault_authority == Some(accounts.staker_vault_authority.key.bytes@);
            let w2 = accounts.depositor.is_writable;
            match accounts.outcome(vault_authority) {
                Ok(_) => signed && own && w1 && vault && derived && w2,
                Err(ErrorCode::AccountNotSigner) => !signed,
                Err(ErrorCode::ConstraintHasOne) => signed && !own,
                Err(ErrorCode::ConstraintMut) => signed && own && (!w1 || vault && derived && !w2),
                Err(ErrorCode::ConstraintRaw) => signed && own && w1 && !vault,
                Err(ErrorCode::ConstraintSeeds) => signed && own && w1 && vault && !derived,
                Err(_) => false,
            }
        }),
{
}

/// A program asks for the addresses that it derives itself: those of the staker, with
/// the staker's bump, for the owner of the token accounts, and that of the pool, with the
/// pool's bump, for the authority of the mint.
pub proof fn law_staking_asks_for_derived_addresses(
    stake: Stake,
    start: StartUnstake,
    end: EndUnstake,
    withdraw: Withdraw,
    program_id: Pubkey,
)
    ensures
        stake.outcome_in(program_id) == stake.outcome(
            program_address(
                seq![
                    stake.pool.info.key.bytes@,
                    stake.staker.info.key.bytes@,
                    seq![stake.staker.data.nonce],
                ],
                program_id.bytes@,
            ),
            program_address(
                seq![stake.pool.info.key.bytes@, seq![stake.pool.data.nonce]],
                program_id.bytes@,
            ),
        ),
        start.outcome_in(program_id) == start.outcome(
            program_address(
                seq![
                    start.pool.info.key.bytes@,
                    start.staker.info.key.bytes@,
                    seq![start.staker.data.nonce],
                ],
                program_id.bytes@,
            ),
        ),
        end.outcome_in(program_id) == end.outcome(
            program_address(
                seq![
                    end.pool.info.key.bytes@,
                    end.staker.info.key.bytes@,
                    seq![end.staker.data.nonce],
                ],
                program_id.bytes@,
            ),
        ),
        withdraw.outcome_in(program_id) == withdraw.outcome(
            program_address(
                seq![
                    withdraw.pool.info.key.bytes@,
                    withdraw.staker.info.key.bytes@,
                    seq![withdraw.staker.data.nonce],
                ],
                program_id.bytes@,
            ),
        ),
{
}

/// A stake can be counted exactly when the pool tokens times the rate fit in 64 bits;
/// unstaking also asks that the time plus the timelock do.
pub proof fn law_staking_can_be_counted(
    stake: Stake,
    start: StartUnstake,
    pool_token_amount: u64,
)
    ensures
        stake.countable(pool_token_amount) <==> pool_token_amount * stake.pool.data.stake_rate
            <= 0xffff_ffff_ffff_ffff,
        start.countable(pool_token_amount) <==> {
            &&& pool_token_amount * start.pool.data.stake_rate <= 0xffff_ffff_ffff_ffff
            &&& start.clock.unix_timestamp + start.pool.data.withdrawal_timelock
                <= 0x7fff_ffff_ffff_ffff
            &&& start.clock.unix_timestamp + start.pool.data.withdrawal_timelock
                >= -0x8000_0000_0000_0000
        },
{
}

// ---------------------------------------------------------------------------
// Rewards
// ---------------------------------------------------------------------------

/// A reward is dropped exactly when the owner of the tokens signs, the ring and the mint
/// are the pool's, the record is new, and the ring and both token accounts are writable.
pub proof fn law_drop_reward_is_answered(accounts: DropReward)
    ensures
        ({
            let signed = accounts.depositor_authority.is_signer;
            let of_pool = accounts.pool.data.reward_event_q == accounts.reward_event_q.info.key
                && accounts.pool.data.pool_mint == accounts.pool_mint.info.key;
            let w1 = accounts.reward_event_q.info.is_writable;
            let p = accounts.rewarder;
            let p_new = p.discriminator == 0 && p.info.is_writable && p.rent_exempt;
            let w2 = accounts.rewarder_vault.info.is_writable && accounts.depositor.is_writable;
            match accounts.outcome() {
                Ok(_) => signed && of_pool && w1 && p_new && w2,
                Err(ErrorCode::AccountNotSigner) => !signed,
                Err(ErrorCode::ConstraintHasOne) => signed && !of_pool,
                Err(ErrorCode::ConstraintZero) => signed && of_pool && w1 && p.discriminator != 0,
                Err(ErrorCode::ConstraintMut) => signed && of_pool && {
                    ||| !w1
                    ||| p.discriminator == 0 && !p.info.is_writable
                    ||| p_new && !w2
                },
                Err(ErrorCode::ConstraintRentExempt) => signed && of_pool && w1 && p.discriminator
                    == 0 && p.info.is_writable && !p.rent_exempt,
                Err(_) => false,
            }
        }),
{
}

/// The accounts that both claims have in common are accepted exactly when the
/// beneficiary signs, staker and reward belong to the pool, both pool token accounts are
/// those of the staker's two sets, the vault is the reward's, its owner has its address,
/// and staker and vault are writable. How much there is to pay does not matter.
pub proof fn law_common_claim_is_answered(
    common: ClaimRewardCommon,
    authority: Option<Seq<u8>>,
)
    ensures
        ({
            let signed = common.beneficiary.is_signer;
            let w1 = common.staker.info.is_writable;
            let own = common.staker.data.pool == common.pool.info.key
                && common.staker.data.beneficiary == common.beneficiary.key;
            let held = common.staker_vault_pool_token.info.key
                == common.staker.data.staker_vault.vault_pool_token
                && common.staker_vault_locked_pool_token.info.key
                == common.staker.data.staker_vault_locked.vault_pool_token;
            let named = common.rewarder.data.pool == common.pool.info.key
                && common.rewarder.data.vault == common.vault.key;
            let w2 = common.vault.is_writable;
            let derived = authority == Some(common.rewarder_vault_authority.key.bytes@);
            match common.outcome(authority) {
                Ok(_) => signed && w1 && own && held && named && w2 && derived,
                Err(ErrorCode::AccountNotSigner) => !signed,
                Err(ErrorCode::ConstraintMut) => signed && (!w1 || own && held && named && !w2),
                Err(ErrorCode::ConstraintHasOne) => signed && w1 && (!own || held && !named),
                Err(ErrorCode::ConstraintRaw) => signed && w1 && own && !held,
                Err(ErrorCode::ConstraintSeeds) => signed && w1 && own && held && named && w2
                    && !derived,
                Err(_) => false,
            }
        }),
{
}

/// A direct claim is accepted exactly when the common accounts are and the account that
/// is paid is writable.
pub proof fn law_claim_is_answered(accounts: ClaimReward, authority: Option<Seq<u8>>)
    ensures
        ({
            let common = accounts.common.outcome(authority);
            let r = accounts.outcome(authority);
            &&& common is Err ==> r == common
            &&& common is Ok && accounts.to.is_writable ==> r is Ok
            &&& common is Ok && !accounts.to.is_writable ==> r == Err::<(), _>(
                ErrorCode::ConstraintMut,
            )
        }),
{
}

/// A claim into a locker is accepted exactly when the common accounts are, the manager's
/// record is at the manager's address, both programs are those that it names, the reward
/// is one for lockers, and the staker's cursor is not past that of the reward.
pub proof fn law_claim_to_locker_is_answered(
    accounts: ClaimRewardToLocker,
    authority: Option<Seq<u8>>,
    manager: Seq<u8>,
)
    ensures
        ({
            let common = accounts.common.outcome(authority);
            let there = accounts.pool_manager_info.info.key.bytes@ == manager;
            let info = accounts.pool_manager_info.data;
            let programs = accounts.locker_manager_program.key == info.locker_manager_program
                && accounts.reward_keeper_program.key == info.reward_keeper_program;
            let locked = accounts.common.rewarder.data.kind is Locked;
            let ahead = accounts.common.staker.data.rewards_cursor
                <= accounts.common.rewarder.data.reward_event_q_cursor;
            let r = accounts.outcome(authority, manager);
            &&& common is Err ==> r == common
            &&& common is Ok ==> match r {
                Ok(_) => there && programs && locked && ahead,
                Err(ErrorCode::ConstraintSeeds) => !there,
                Err(ErrorCode::ConstraintRaw) => there && !programs,
                Err(ErrorCode::InvalidAccountData) => there && programs && (!locked || !ahead),
                Err(_) => false,
            }
        }),
{
}

/// A reward is expired exactly when the expiry receiver that it names signs, pool and
/// vault are those that it names, the owner of the vault has its address, and the reward,
/// the vault and the receiving account are writable. Neither what is left in the vault,
/// nor the time, nor whether it was expired before matters.
pub proof fn law_expire_is_answered(accounts: ExpireReward, authority: Option<Seq<u8>>)
    ensures
        ({
            let reward = accounts.rewarder.data;
            let signed = accounts.expiry_receiver.is_signer;
            let w1 = accounts.rewarder.info.is_writable;
            let named = reward.pool == accounts.pool.info.key && reward.vault
                == accounts.vault.info.key && reward.expiry_receiver
                == accounts.expiry_receiver.key;
            let w2 = accounts.vault.info.is_writable;
            let derived = authority == Some(accounts.rewarder_vault_authority.key.bytes@);
            let w3 = accounts.expiry_receiver_token.is_writable;
            match accounts.outcome(authority) {
                Ok(_) => signed && w1 && named && w2 && derived && w3,
                Err(ErrorCode::AccountNotSigner) => !signed,
                Err(ErrorCode::ConstraintMut) => signed && {
                    ||| !w1
                    ||| named && !w2
                    ||| named && w2 && derived && !w3
                },
                Err(ErrorCode::ConstraintHasOne) => signed && w1 && !named,
                Err(ErrorCode::ConstraintSeeds) => signed && w1 && named && w2 && !derived,
                Err(_) => false,
            }
        }),
{
}

/// A program asks for the addresses that it derives itself: that of the reward, with its
/// bump, for the owner of the vault, and that of the manager.
pub proof fn law_rewards_ask_for_derived_addresses(
    claim: ClaimReward,
    claim_to_locker: ClaimRewardToLocker,
    expire: ExpireReward,
    program_id: Pubkey,
    pool_manager_nonce: u64,
)
    ensures
        claim.outcome_in(program_id) == claim.outcome(
            program_address(
                seq![
                    claim.common.pool.info.key.bytes@,
                    claim.common.rewarder.info.key.bytes@,
                    seq![claim.common.rewarder.data.nonce],
                ],
                program_id.bytes@,
            ),
        ),
        claim_to_locker.outcome_in(program_id, pool_manager_nonce) == claim_to_locker.outcome(
            program_address(
                seq![
                    claim_to_locker.common.pool.info.key.bytes@,
                    claim_to_locker.common.rewarder.info.key.bytes@,
                    seq![claim_to_locker.common.rewarder.data.nonce],
                ],
                program_id.bytes@,
            ),
            manager_address(pool_manager_nonce, program_id),
        ),
        expire.outcome_in(program_id) == expire.outcome(
            program_address(
                seq![
                    expire.pool.info.key.bytes@,
                    expire.rewarder.info.key.bytes@,
                    seq![expire.rewarder.data.nonce],
                ],
                program_id.bytes@,
            ),
        ),
{
}

/// The same holds of the accounts that both claims have in common.
pub proof fn law_common_claim_asks_for_derived_address(
    common: ClaimRewardCommon,
    program_id: Pubkey,
)
    ensures
        common.authority_in(program_id) == program_address(
            seq![
                common.pool.info.key.bytes@,
                common.rewarder.info.key.bytes@,
                seq![common.rewarder.data.nonce],
            ],
            program_id.bytes@,
        ),
{
}

/// A reward can be claimed exactly when the pool tokens, and their product with the whole
/// reward, fit in 64 bits, the product is at least the supply, which is not zero, and
/// there is a cursor after that of the reward. A locker also needs seven accounts.
pub proof fn law_reward_can_be_claimed(
    accounts: ClaimRewardToLocker,
    locker_accounts: Seq<Pubkey>,
)
    ensures
        ({
            let common = accounts.common;
            let tokens = common.staker_vault_pool_token.data.amount
                + common.staker_vault_locked_pool_token.data.amount;
            let product = tokens * common.rewarder.data.total;
            &&& common.claimable() <==> {
                &&& tokens <= 0xffff_ffff_ffff_ffff
                &&& product <= 0xffff_ffff_ffff_ffff
                &&& 0 < common.rewarder.data.pool_token_supply <= product
                &&& common.rewarder.data.reward_event_q_cursor < 0xffff_ffff
            }
            &&& accounts.payable(locker_accounts) <==> common.claimable()
                && locker_accounts.len() >= 7
        }),
{
    let common = accounts.common;
    let tokens = common.staker_vault_pool_token.data.amount
        + common.staker_vault_locked_pool_token.data.amount;
    let product = tokens * common.rewarder.data.total;
    let supply = common.rewarder.data.pool_token_supply as int;
    if supply > 0 {
        assert(product >= 0) by (nonlinear_arith)
            requires
                product == tokens * common.rewarder.data.total,
                tokens >= 0,
        ;
        let q = product / supply;
        vstd::arithmetic::div_mod::lemma_fundamental_div_mod(product, supply);
        assert(0 < q <==> supply <= product) by (nonlinear_arith)
            requires
                0 < supply,
                product == supply * q + product % supply,
                0 <= product % supply < supply,
                0 <= product,
        ;
    }
}

} // verus!
