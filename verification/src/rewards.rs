//! Dropping, claiming and expiring rewards.
//!
//! A reward is an amount of tokens in the vault of a rewarder. Every staker may claim
//! the share of it that their pool tokens have in all pool tokens there were when the
//! reward was dropped. The share is paid out directly, or into a locker where it comes
//! free over time; it goes into a locker once. What is left in the end goes to the expiry
//! receiver.
//!
//! A request that is accepted returns the call to make. What it changes in the
//! accounts takes hold once this call has gone through.

use vstd::prelude::*;

use crate::account::{Account, AccountInfo, Clock, Mint, NewAccount, TokenAccount};
use crate::address::{
    find_manager, is_address, manager_address, manager_exists, SignerSeeds,
};
use crate::error::ErrorCode;
use crate::key::{lemma_key_is_its_bytes, optional_bytes, Pubkey};
use crate::manager::PoolManagerInfo;
use crate::pool::Pool;
use crate::queue::{RewardEvent, RewardQueue};
use crate::staker::Staker;
use crate::token::Transfer;

verus! {

/// How a reward is paid.
#[derive(Clone, Copy, Debug, PartialEq, Eq, Structural)]
pub enum RewarderKind {
    /// Directly.
    Unlocked,
    /// Into lockers that open between two times, in a number of periods.
    Locked { start_ts: i64, end_ts: i64, period_count: u64 },
}

/// A reward.
#[derive(Clone, Copy, Debug, PartialEq, Eq)]
pub struct Rewarder {
    /// The pool whose stakers are rewarded.
    pub pool: Pubkey,
    /// The token account that the reward is paid from.
    pub vault: Pubkey,
    /// The mint of the reward.
    pub mint: Pubkey,
    /// The bump of the address that owns the vault.
    pub nonce: u8,
    /// How many pool tokens there were when the reward was dropped.
    pub pool_token_supply: u64,
    /// The cursor of the reward in the pool's ring of events.
    pub reward_event_q_cursor: u32,
    /// When the reward was dropped.
    pub start_ts: i64,
    /// When the reward expires.
    pub expiry_ts: i64,
    /// Who gets what is left.
    pub expiry_receiver: Pubkey,
    /// Who gave the reward.
    pub from: Pubkey,
    /// How many tokens there are to share.
    pub total: u64,
    /// Whether what was left has been taken.
    pub expired: bool,
    /// How the reward is paid.
    pub kind: RewarderKind,
}

/// The seeds of the address that owns a rewarder's vault.
pub open spec fn rewarder_seeds(pool: Account<Pool>, rewarder: Account<Rewarder>) -> SignerSeeds {
    SignerSeeds::Record {
        pool: pool.info.key,
        record: rewarder.info.key,
        bump: rewarder.data.nonce,
    }
}

/// Builds the seeds of the address that owns a rewarder's vault.
fn seeds_of_rewarder(pool: &Account<Pool>, rewarder: &Account<Rewarder>) -> (r: SignerSeeds)
    ensures
        r == rewarder_seeds(*pool, *rewarder),
{
    SignerSeeds::Record {
        pool: pool.info.key,
        record: rewarder.info.key,
        bump: rewarder.data.nonce,
    }
}

/// The accounts of `drop_reward`.
pub struct DropReward {
    pub pool: Account<Pool>,
    pub reward_event_q: Account<RewardQueue>,
    pub pool_mint: Account<Mint>,
    pub rewarder: NewAccount<Rewarder>,
    pub rewarder_vault: Account<TokenAccount>,
    pub depositor: AccountInfo,
    pub depositor_authority: AccountInfo,
    pub clock: Clock,
}

impl DropReward {
    /// Whether the accounts are accepted: the owner of the tokens signs, the ring and
    /// the mint are those of the pool, and the record is new.
    pub open spec fn outcome(self) -> Result<(), ErrorCode> {
        if !self.depositor_authority.is_signer {
            Err(ErrorCode::AccountNotSigner)
        } else if self.pool.data.reward_event_q != self.reward_event_q.info.key
            || self.pool.data.pool_mint != self.pool_mint.info.key {
            Err(ErrorCode::ConstraintHasOne)
        } else if !self.reward_event_q.info.is_writable {
            Err(ErrorCode::ConstraintMut)
        } else if self.rewarder.zeroed() is Err {
            self.rewarder.zeroed()
        } else if !self.rewarder_vault.info.is_writable || !self.depositor.is_writable {
            Err(ErrorCode::ConstraintMut)
        } else {
            Ok(())
        }
    }

    /// The event that the reward leaves in the ring.
    pub open spec fn event(self, kind: RewarderKind) -> RewardEvent {
        RewardEvent {
            rewarder: self.rewarder.info.key,
            ts: self.clock.unix_timestamp,
            locked: kind != RewarderKind::Unlocked,
        }
    }

    /// The cursor of the reward: that of the next event in the ring.
    pub open spec fn cursor(self) -> u32 {
        self.reward_event_q.data@.head as u32
    }

    /// The record of the reward.
    pub open spec fn reward(
        self,
        kind: RewarderKind,
        total: u64,
        expiry_ts: i64,
        expiry_receiver: Pubkey,
        nonce: u8,
    ) -> Rewarder {
        Rewarder {
            pool: self.pool.info.key,
            vault: self.rewarder_vault.info.key,
            mint: self.rewarder_vault.data.mint,
            nonce,
            pool_token_supply: self.pool_mint.data.supply,
            reward_event_q_cursor: self.cursor(),
            start_ts: self.clock.unix_timestamp,
            expiry_ts,
            expiry_receiver,
            from: self.depositor_authority.key,
            total,
            expired: false,
            kind,
        }
    }

    /// The call that fills the vault of the rewarder.
    pub open spec fn transfer(self, total: u64) -> Transfer {
        Transfer {
            from: self.depositor.key,
            to: self.rewarder_vault.info.key,
            authority: self.depositor_authority.key,
            amount: total,
            signer: None,
        }
    }

    /// `after` is what the accounts are once the reward is dropped: the ring holds its
    /// event, and its record is written.
    pub open spec fn dropped(self, kind: RewarderKind, reward: Rewarder, after: DropReward) -> bool {
        &&& after.reward_event_q.data@ == self.reward_event_q.data@.append(self.event(kind))
        &&& after == DropReward {
            reward_event_q: Account {
                data: after.reward_event_q.data,
                ..self.reward_event_q
            },
            rewarder: NewAccount { data: reward, ..self.rewarder },
            ..self
        }
    }

    /// Checks the accounts.
    pub fn check(&self) -> (r: Result<(), ErrorCode>)
        ensures
            r == self.outcome(),
    {
        if !self.depositor_authority.is_signer {
            return Err(ErrorCode::AccountNotSigner);
        }
        if self.pool.data.reward_event_q != self.reward_event_q.info.key
            || self.pool.data.pool_mint != self.pool_mint.info.key {
            return Err(ErrorCode::ConstraintHasOne);
        }
        if !self.reward_event_q.info.is_writable {
            return Err(ErrorCode::ConstraintMut);
        }
        self.rewarder.check_zeroed()?;
        if !self.rewarder_vault.info.is_writable || !self.depositor.is_writable {
            return Err(ErrorCode::ConstraintMut);
        }
        Ok(())
    }
}

/// Drops a reward of `total` tokens on a pool.
pub fn drop_reward(
    accounts: &mut DropReward,
    kind: RewarderKind,
    total: u64,
    expiry_ts: i64,
    expiry_receiver: Pubkey,
    nonce: u8,
) -> (r: Result<Transfer, ErrorCode>)
    requires
        old(accounts).outcome() is Ok ==> old(accounts).reward_event_q.data@.can_append(),
    ensures
        match old(accounts).outcome() {
            Err(e) => r == Err::<Transfer, _>(e) && *final(accounts) == *old(accounts),
            Ok(_) => {
                &&& r == Ok::<_, ErrorCode>(old(accounts).transfer(total))
                &&& old(accounts).dropped(
                    kind,
                    old(accounts).reward(kind, total, expiry_ts, expiry_receiver, nonce),
                    *final(accounts),
                )
            },
        },
{
    accounts.check()?;
    let transfer = Transfer {
        from: accounts.depositor.key,
        to: accounts.rewarder_vault.info.key,
        authority: accounts.depositor_authority.key,
        amount: total,
        signer: None,
    };
    let event = RewardEvent {
        rewarder: accounts.rewarder.info.key,
        ts: accounts.clock.unix_timestamp,
        locked: kind != RewarderKind::Unlocked,
    };
    let cursor = accounts.reward_event_q.data.append(event)?;
    let rewarder = Rewarder {
        pool: accounts.pool.info.key,
        vault: accounts.rewarder_vault.info.key,
        mint: accounts.rewarder_vault.data.mint,
        nonce,
        pool_token_supply: accounts.pool_mint.data.supply,
        reward_event_q_cursor: cursor,
        start_ts: accounts.clock.unix_timestamp,
        expiry_ts,
        expiry_receiver,
        from: accounts.depositor_authority.key,
        total,
        expired: false,
        kind,
    };
    accounts.rewarder.data = rewarder;
    Ok(transfer)
}

/// Drops a reward of `total` tokens on a pool; `None`, and nothing changed, where the
/// accounts are accepted but the ring takes no event.
pub fn try_drop_reward(
    accounts: &mut DropReward,
    kind: RewarderKind,
    total: u64,
    expiry_ts: i64,
    expiry_receiver: Pubkey,
    nonce: u8,
) -> (r: Option<Result<Transfer, ErrorCode>>)
    ensures
        r is None <==> old(accounts).outcome() is Ok && !old(
            accounts,
        ).reward_event_q.data@.can_append(),
        r is None ==> *final(accounts) == *old(accounts),
        r matches Some(result) ==> match old(accounts).outcome() {
            Err(e) => result == Err::<Transfer, _>(e) && *final(accounts) == *old(accounts),
            Ok(_) => {
                &&& result == Ok::<_, ErrorCode>(old(accounts).transfer(total))
                &&& old(accounts).dropped(
                    kind,
                    old(accounts).reward(kind, total, expiry_ts, expiry_receiver, nonce),
                    *final(accounts),
                )
            },
        },
{
    if accounts.check().is_ok() && !accounts.reward_event_q.data.can_append() {
        return None;
    }
    Some(drop_reward(accounts, kind, total, expiry_ts, expiry_receiver, nonce))
}

/// The share that `pool_tokens` of `supply` pool tokens have in `total`, rounded down.
pub open spec fn share(pool_tokens: int, total: int, supply: int) -> int {
    (pool_tokens * total) / supply
}

/// The accounts that both ways to claim a reward have in common.
#[derive(Clone, Copy, Debug, PartialEq, Eq)]
pub struct ClaimRewardCommon {
    pub pool: Account<Pool>,
    pub staker: Account<Staker>,
    pub beneficiary: AccountInfo,
    pub staker_vault_pool_token: Account<TokenAccount>,
    pub staker_vault_locked_pool_token: Account<TokenAccount>,
    pub rewarder: Account<Rewarder>,
    pub vault: AccountInfo,
    pub rewarder_vault_authority: AccountInfo,
}

impl ClaimRewardCommon {
    /// Whether the accounts are accepted, where `authority` owns the rewarder's vault:
    /// the beneficiary signs, and all accounts are those that the staker and the
    /// rewarder name.
    pub open spec fn outcome(self, authority: Option<Seq<u8>>) -> Result<(), ErrorCode> {
        if !self.beneficiary.is_signer {
            Err(ErrorCode::AccountNotSigner)
        } else if !self.staker.info.is_writable {
            Err(ErrorCode::ConstraintMut)
        } else if self.staker.data.pool != self.pool.info.key || self.staker.data.beneficiary
            != self.beneficiary.key {
            Err(ErrorCode::ConstraintHasOne)
        } else if self.staker_vault_pool_token.info.key
            != self.staker.data.staker_vault.vault_pool_token
            || self.staker_vault_locked_pool_token.info.key
            != self.staker.data.staker_vault_locked.vault_pool_token {
            Err(ErrorCode::ConstraintRaw)
        } else if self.rewarder.data.pool != self.pool.info.key || self.rewarder.data.vault
            != self.vault.key {
            Err(ErrorCode::ConstraintHasOne)
        } else if !self.vault.is_writable {
            Err(ErrorCode::ConstraintMut)
        } else if authority != Some(self.rewarder_vault_authority.key@) {
            Err(ErrorCode::ConstraintSeeds)
        } else {
            Ok(())
        }
    }

    /// The address that owns the rewarder's vault, in the program `program_id`.
    pub open spec fn authority_in(self, program_id: Pubkey) -> Option<Seq<u8>> {
        rewarder_seeds(self.pool, self.rewarder).address(program_id)
    }

    /// All pool tokens of the staker.
    pub open spec fn pool_tokens(self) -> int {
        self.staker_vault_pool_token.data.amount + self.staker_vault_locked_pool_token.data.amount
    }

    /// What the staker gets.
    pub open spec fn reward(self) -> int {
        share(
            self.pool_tokens(),
            self.rewarder.data.total as int,
            self.rewarder.data.pool_token_supply as int,
        )
    }

    /// The reward can be computed in 64 bits and is not nothing, and there is a cursor
    /// after that of the reward.
    pub open spec fn claimable(self) -> bool {
        &&& self.pool_tokens() <= u64::MAX
        &&& self.pool_tokens() * self.rewarder.data.total <= u64::MAX
        &&& 0 < self.rewarder.data.pool_token_supply
        &&& 0 < self.reward()
        &&& self.rewarder.data.reward_event_q_cursor < u32::MAX
    }

    /// The accounts once the staker has gone past the reward.
    pub open spec fn claimed(self) -> ClaimRewardCommon {
        ClaimRewardCommon {
            staker: Account {
                data: Staker {
                    rewards_cursor: (self.rewarder.data.reward_event_q_cursor + 1) as u32,
                    ..self.staker.data
                },
                ..self.staker
            },
            ..self
        }
    }

    /// Checks the accounts, where the owner of the rewarder's vault has the given
    /// address.
    pub fn check(&self, authority: &Option<Pubkey>) -> (r: Result<(), ErrorCode>)
        ensures
            r == self.outcome(optional_bytes(*authority)),
    {
        if !self.beneficiary.is_signer {
            return Err(ErrorCode::AccountNotSigner);
        }
        if !self.staker.info.is_writable {
            return Err(ErrorCode::ConstraintMut);
        }
        if self.staker.data.pool != self.pool.info.key || self.staker.data.beneficiary
            != self.beneficiary.key {
            return Err(ErrorCode::ConstraintHasOne);
        }
        if self.staker_vault_pool_token.info.key != self.staker.data.staker_vault.vault_pool_token
            || self.staker_vault_locked_pool_token.info.key
            != self.staker.data.staker_vault_locked.vault_pool_token {
            return Err(ErrorCode::ConstraintRaw);
        }
        if self.rewarder.data.pool != self.pool.info.key || self.rewarder.data.vault
            != self.vault.key {
            return Err(ErrorCode::ConstraintHasOne);
        }
        if !self.vault.is_writable {
            return Err(ErrorCode::ConstraintMut);
        }
        if !is_address(authority, &self.rewarder_vault_authority.key) {
            return Err(ErrorCode::ConstraintSeeds);
        }
        Ok(())
    }

    /// Derives the address that owns the rewarder's vault.
    pub fn derive_authority(&self, program_id: &Pubkey) -> (r: Option<Pubkey>)
        ensures
            optional_bytes(r) == self.authority_in(*program_id),
    {
        seeds_of_rewarder(&self.pool, &self.rewarder).derive(program_id)
    }

    /// Computes what the staker gets; `None` where the reward cannot be claimed.
    pub fn reward_amount(&self) -> (r: Option<u64>)
        ensures
            r is Some <==> self.claimable(),
            r matches Some(amount) ==> amount == self.reward(),
    {
        let pool_token_total = match self.staker_vault_pool_token.data.amount.checked_add(
            self.staker_vault_locked_pool_token.data.amount,
        ) {
            Some(tokens) => tokens,
            None => return None,
        };
        let product = match pool_token_total.checked_mul(self.rewarder.data.total) {
            Some(product) => product,
            None => return None,
        };
        match product.checked_div(self.rewarder.data.pool_token_supply) {
            Some(amount) => {
                if amount > 0 && self.rewarder.data.reward_event_q_cursor < u32::MAX {
                    Some(amount)
                } else {
                    None
                }
            },
            None => None,
        }
    }

    /// Notes that the staker has gone past the reward.
    fn note_claim(&mut self)
        requires
            old(self).rewarder.data.reward_event_q_cursor < u32::MAX,
        ensures
            *final(self) == old(self).claimed(),
    {
        self.staker.data.rewards_cursor = self.rewarder.data.reward_event_q_cursor + 1;
    }
}

/// The accounts of `claim_reward`.
pub struct ClaimReward {
    pub common: ClaimRewardCommon,
    pub to: AccountInfo,
}

impl ClaimReward {
    /// Whether the accounts are accepted, where `authority` owns the rewarder's vault.
    pub open spec fn outcome(self, authority: Option<Seq<u8>>) -> Result<(), ErrorCode> {
        if self.common.outcome(authority) is Err {
            self.common.outcome(authority)
        } else if !self.to.is_writable {
            Err(ErrorCode::ConstraintMut)
        } else {
            Ok(())
        }
    }

    /// Whether the program `program_id` accepts the accounts.
    pub open spec fn outcome_in(self, program_id: Pubkey) -> Result<(), ErrorCode> {
        self.outcome(self.common.authority_in(program_id))
    }

    /// What becomes of a request with the given outcome: the reward is paid from the
    /// vault of the rewarder, and the staker's cursor goes past it.
    pub open spec fn claimed(self, outcome: Result<(), ErrorCode>) -> (
        Result<Transfer, ErrorCode>,
        ClaimReward,
    ) {
        match outcome {
            Err(e) => (Err(e), self),
            Ok(_) => (
                Ok(
                    Transfer {
                        from: self.common.vault.key,
                        to: self.to.key,
                        authority: self.common.rewarder_vault_authority.key,
                        amount: self.common.reward() as u64,
                        signer: Some(rewarder_seeds(self.common.pool, self.common.rewarder)),
                    },
                ),
                ClaimReward { common: self.common.claimed(), ..self },
            ),
        }
    }

    /// Checks the accounts, where the owner of the rewarder's vault has the given
    /// address.
    pub fn check(&self, authority: &Option<Pubkey>) -> (r: Result<(), ErrorCode>)
        ensures
            r == self.outcome(optional_bytes(*authority)),
    {
        self.common.check(authority)?;
        if !self.to.is_writable {
            return Err(ErrorCode::ConstraintMut);
        }
        Ok(())
    }
}

/// Claims a reward, where the owner of the rewarder's vault has the given address.
pub fn claim_reward_at(accounts: &mut ClaimReward, authority: &Option<Pubkey>) -> (r: Result<
    Transfer,
    ErrorCode,
>)
    requires
        old(accounts).outcome(optional_bytes(*authority)) is Ok ==> old(
            accounts,
        ).common.claimable(),
    ensures
        (r, *final(accounts)) == old(accounts).claimed(
            old(accounts).outcome(optional_bytes(*authority)),
        ),
{
    accounts.check(authority)?;
    let reward_amount = accounts.common.reward_amount().unwrap();
    let transfer = Transfer {
        from: accounts.common.vault.key,
        to: accounts.to.key,
        authority: accounts.common.rewarder_vault_authority.key,
        amount: reward_amount,
        signer: Some(seeds_of_rewarder(&accounts.common.pool, &accounts.common.rewarder)),
    };
    accounts.common.note_claim();
    Ok(transfer)
}

/// Claims a reward.
pub fn claim_reward(accounts: &mut ClaimReward, program_id: &Pubkey) -> (r: Result<
    Transfer,
    ErrorCode,
>)
    requires
        old(accounts).outcome_in(*program_id) is Ok ==> old(accounts).common.claimable(),
    ensures
        (r, *final(accounts)) == old(accounts).claimed(old(accounts).outcome_in(*program_id)),
{
    let authority = accounts.common.derive_authority(program_id);
    claim_reward_at(accounts, &authority)
}

/// Claims a reward; `None`, and nothing changed, where the accounts are accepted but
/// the reward cannot be claimed.
pub fn try_claim_reward(accounts: &mut ClaimReward, program_id: &Pubkey) -> (r: Option<
    Result<Transfer, ErrorCode>,
>)
    ensures
        r is None <==> old(accounts).outcome_in(*program_id) is Ok && !old(
            accounts,
        ).common.claimable(),
        r is None ==> *final(accounts) == *old(accounts),
        r matches Some(result) ==> (result, *final(accounts)) == old(accounts).claimed(
            old(accounts).outcome_in(*program_id),
        ),
{
    let authority = accounts.common.derive_authority(program_id);
    if accounts.check(&authority).is_ok() && accounts.common.reward_amount().is_none() {
        return None;
    }
    Some(claim_reward(accounts, program_id))
}

/// Who decides when a locker may be emptied.
#[derive(Clone, Copy, Debug, PartialEq, Eq)]
pub struct RewardKeeper {
    /// The program that is asked.
    pub program: Pubkey,
    /// The account that it looks at.
    pub metadata: Pubkey,
}

/// A call into the program for lockers: makes a locker, and fills it.
#[derive(Clone, Copy, Debug, PartialEq, Eq)]
pub struct CreateLocker {
    /// The program for lockers.
    pub program: Pubkey,
    pub locker: Pubkey,
    pub vault: Pubkey,
    pub depositor: Pubkey,
    /// The owner of the tokens, who signs.
    pub depositor_authority: Pubkey,
    pub token_program: Pubkey,
    pub clock: Pubkey,
    pub rent: Pubkey,
    /// Whose the locker is.
    pub beneficiary: Pubkey,
    pub deposit_amount: u64,
    pub nonce: u8,
    pub start_ts: i64,
    pub end_ts: i64,
    pub period_count: u64,
    pub reward_keeper: Option<RewardKeeper>,
    /// The seeds with which the program signs for the owner of the tokens.
    pub signer: SignerSeeds,
}

/// The accounts of `claim_reward_to_locker`.
pub struct ClaimRewardToLocker {
    pub common: ClaimRewardCommon,
    pub pool_manager_info: Account<PoolManagerInfo>,
    pub locker_manager_program: AccountInfo,
    pub reward_keeper_program: AccountInfo,
}

impl ClaimRewardToLocker {
    /// Whether the request is accepted, where `authority` owns the rewarder's vault and
    /// the manager's address is `manager`: the programs are those that the manager
    /// names, the reward is one that is paid into lockers, and the staker has not gone
    /// past it yet. So a reward goes to a locker once, and rewards go to lockers in the
    /// order of their cursors.
    pub open spec fn outcome(self, authority: Option<Seq<u8>>, manager: Seq<u8>) -> Result<
        (),
        ErrorCode,
    > {
        if self.common.outcome(authority) is Err {
            self.common.outcome(authority)
        } else if self.pool_manager_info.info.key@ != manager {
            Err(ErrorCode::ConstraintSeeds)
        } else if self.locker_manager_program.key
            != self.pool_manager_info.data.locker_manager_program
            || self.reward_keeper_program.key
            != self.pool_manager_info.data.reward_keeper_program {
            Err(ErrorCode::ConstraintRaw)
        } else if self.common.rewarder.data.kind == RewarderKind::Unlocked {
            Err(ErrorCode::InvalidAccountData)
        } else if self.common.staker.data.rewards_cursor
            > self.common.rewarder.data.reward_event_q_cursor {
            Err(ErrorCode::InvalidAccountData)
        } else {
            Ok(())
        }
    }

    /// Whether the program `program_id` accepts the request, with the manager that has
    /// the number `pool_manager_nonce`.
    pub open spec fn outcome_in(self, program_id: Pubkey, pool_manager_nonce: u64) -> Result<
        (),
        ErrorCode,
    > {
        self.outcome(
            self.common.authority_in(program_id),
            manager_address(pool_manager_nonce, program_id),
        )
    }

    /// An accepted request can be carried out: the reward can be claimed, and the
    /// accounts of the locker are there.
    pub open spec fn payable(self, locker_accounts: Seq<Pubkey>) -> bool {
        &&& self.common.claimable()
        &&& 7 <= locker_accounts.len()
    }

    /// The call that pays the reward into a locker of the beneficiary. The accounts of
    /// the locker come in the order of the call, but that the rewarder's vault is the
    /// one that pays, so its owner takes the place of the fourth.
    pub open spec fn call(self, nonce: u8, locker_accounts: Seq<Pubkey>) -> CreateLocker {
        CreateLocker {
            program: self.locker_manager_program.key,
            locker: locker_accounts[0],
            vault: locker_accounts[1],
            depositor: locker_accounts[2],
            depositor_authority: self.common.rewarder_vault_authority.key,
            token_program: locker_accounts[4],
            clock: locker_accounts[5],
            rent: locker_accounts[6],
            beneficiary: self.common.staker.data.beneficiary,
            deposit_amount: self.common.reward() as u64,
            nonce,
            start_ts: self.common.rewarder.data.kind->start_ts,
            end_ts: self.common.rewarder.data.kind->end_ts,
            period_count: self.common.rewarder.data.kind->period_count,
            reward_keeper: Some(
                RewardKeeper {
                    program: self.reward_keeper_program.key,
                    metadata: self.common.staker.info.key,
                },
            ),
            signer: rewarder_seeds(self.common.pool, self.common.rewarder),
        }
    }

    /// What becomes of a request with the given outcome: the reward is paid into a
    /// locker, and the staker's cursor goes past it.
    pub open spec fn claimed(
        self,
        outcome: Result<(), ErrorCode>,
        nonce: u8,
        locker_accounts: Seq<Pubkey>,
    ) -> (Result<CreateLocker, ErrorCode>, ClaimRewardToLocker) {
        match outcome {
            Err(e) => (Err(e), self),
            Ok(_) => (
                Ok(self.call(nonce, locker_accounts)),
                ClaimRewardToLocker { common: self.common.claimed(), ..self },
            ),
        }
    }

    /// Checks the request, where the owner of the rewarder's vault and the manager have
    /// the given addresses.
    pub fn check(&self, authority: &Option<Pubkey>, manager: &Pubkey) -> (r: Result<(), ErrorCode>)
        ensures
            r == self.outcome(optional_bytes(*authority), manager@),
    {
        proof {
            lemma_key_is_its_bytes(self.pool_manager_info.info.key, *manager);
        }
        self.common.check(authority)?;
        if self.pool_manager_info.info.key != *manager {
            return Err(ErrorCode::ConstraintSeeds);
        }
        if self.locker_manager_program.key != self.pool_manager_info.data.locker_manager_program
            || self.reward_keeper_program.key
            != self.pool_manager_info.data.reward_keeper_program {
            return Err(ErrorCode::ConstraintRaw);
        }
        if self.common.rewarder.data.kind == RewarderKind::Unlocked {
            return Err(ErrorCode::InvalidAccountData);
        }
        if self.common.staker.data.rewards_cursor
            > self.common.rewarder.data.reward_event_q_cursor {
            return Err(ErrorCode::InvalidAccountData);
        }
        Ok(())
    }
}

/// Claims a reward into a locker, where the owner of the rewarder's vault and the
/// manager have the given addresses.
pub fn claim_reward_to_locker_at(
    accounts: &mut ClaimRewardToLocker,
    authority: &Option<Pubkey>,
    manager: &Pubkey,
    nonce: u8,
    locker_accounts: &Vec<Pubkey>,
) -> (r: Result<CreateLocker, ErrorCode>)
    requires
        old(accounts).outcome(optional_bytes(*authority), manager@) is Ok ==> old(
            accounts,
        ).payable(locker_accounts@),
    ensures
        (r, *final(accounts)) == old(accounts).claimed(
            old(accounts).outcome(optional_bytes(*authority), manager@),
            nonce,
            locker_accounts@,
        ),
{
    accounts.check(authority, manager)?;
    let (start_ts, end_ts, period_count) = match accounts.common.rewarder.data.kind {
        RewarderKind::Unlocked => return Err(ErrorCode::InvalidAccountData),
        RewarderKind::Locked { start_ts, end_ts, period_count } => (start_ts, end_ts, period_count),
    };
    let reward_amount = accounts.common.reward_amount().unwrap();
    let reward_keeper = Some(
        RewardKeeper {
            program: accounts.reward_keeper_program.key,
            metadata: accounts.common.staker.info.key,
        },
    );
    let call = CreateLocker {
        program: accounts.locker_manager_program.key,
        locker: locker_accounts[0],
        vault: locker_accounts[1],
        depositor: locker_accounts[2],
        depositor_authority: accounts.common.rewarder_vault_authority.key,
        token_program: locker_accounts[4],
        clock: locker_accounts[5],
        rent: locker_accounts[6],
        beneficiary: accounts.common.staker.data.beneficiary,
        deposit_amount: reward_amount,
        nonce,
        start_ts,
        end_ts,
        period_count,
        reward_keeper,
        signer: seeds_of_rewarder(&accounts.common.pool, &accounts.common.rewarder),
    };
    accounts.common.note_claim();
    Ok(call)
}

/// Claims a reward into a locker, with the manager that has the number
/// `pool_manager_nonce`.
pub fn claim_reward_to_locker(
    accounts: &mut ClaimRewardToLocker,
    program_id: &Pubkey,
    pool_manager_nonce: u64,
    nonce: u8,
    locker_accounts: &Vec<Pubkey>,
) -> (r: Result<CreateLocker, ErrorCode>)
    requires
        old(accounts).common.outcome(old(accounts).common.authority_in(*program_id)) is Ok
            ==> manager_exists(pool_manager_nonce, *program_id),
        old(accounts).outcome_in(*program_id, pool_manager_nonce) is Ok ==> old(accounts).payable(
            locker_accounts@,
        ),
    ensures
        (r, *final(accounts)) == old(accounts).claimed(
            old(accounts).outcome_in(*program_id, pool_manager_nonce),
            nonce,
            locker_accounts@,
        ),
{
    let authority = accounts.common.derive_authority(program_id);
    accounts.common.check(&authority)?;
    let manager = find_manager(pool_manager_nonce, program_id).unwrap();
    claim_reward_to_locker_at(accounts, &authority, &manager, nonce, locker_accounts)
}

/// Claims a reward into a locker, with the manager that has the number
/// `pool_manager_nonce`; `None`, and nothing changed, where the accounts that both ways
/// to claim have in common are accepted but no address can be derived for the manager,
/// or the request is accepted but cannot be carried out.
pub fn try_claim_reward_to_locker(
    accounts: &mut ClaimRewardToLocker,
    program_id: &Pubkey,
    pool_manager_nonce: u64,
    nonce: u8,
    locker_accounts: &Vec<Pubkey>,
) -> (r: Option<Result<CreateLocker, ErrorCode>>)
    ensures
        r is None <==> if manager_exists(pool_manager_nonce, *program_id) {
            old(accounts).outcome_in(*program_id, pool_manager_nonce) is Ok && !old(
                accounts,
            ).payable(locker_accounts@)
        } else {
            old(accounts).common.outcome(old(accounts).common.authority_in(*program_id)) is Ok
        },
        r is None ==> *final(accounts) == *old(accounts),
        r matches Some(result) ==> (result, *final(accounts)) == old(accounts).claimed(
            old(accounts).outcome_in(*program_id, pool_manager_nonce),
            nonce,
            locker_accounts@,
        ),
{
    let authority = accounts.common.derive_authority(program_id);
    if accounts.common.check(&authority).is_ok() {
        match find_manager(pool_manager_nonce, program_id) {
            None => return None,
            Some(manager) => {
                if accounts.check(&authority, &manager).is_ok() && (
                accounts.common.reward_amount().is_none() || locker_accounts.len() < 7) {
                    return None;
                }
            },
        }
    }
    Some(
        claim_reward_to_locker(accounts, program_id, pool_manager_nonce, nonce, locker_accounts),
    )
}

/// The accounts of `expire_reward`.
pub struct ExpireReward {
    pub pool: Account<Pool>,
    pub rewarder: Account<Rewarder>,
    pub vault: Account<TokenAccount>,
    pub rewarder_vault_authority: AccountInfo,
    pub expiry_receiver: AccountInfo,
    pub expiry_receiver_token: AccountInfo,
}

impl ExpireReward {
    /// Whether the accounts are accepted, where `authority` owns the rewarder's vault:
    /// the expiry receiver signs, and the pool and the vault are those that the
    /// rewarder names.
    pub open spec fn outcome(self, authority: Option<Seq<u8>>) -> Result<(), ErrorCode> {
        if !self.expiry_receiver.is_signer {
            Err(ErrorCode::AccountNotSigner)
        } else if !self.rewarder.info.is_writable {
            Err(ErrorCode::ConstraintMut)
        } else if self.rewarder.data.pool != self.pool.info.key || self.rewarder.data.vault
            != self.vault.info.key || self.rewarder.data.expiry_receiver
            != self.expiry_receiver.key {
            Err(ErrorCode::ConstraintHasOne)
        } else if !self.vault.info.is_writable {
            Err(ErrorCode::ConstraintMut)
        } else if authority != Some(self.rewarder_vault_authority.key@) {
            Err(ErrorCode::ConstraintSeeds)
        } else if !self.expiry_receiver_token.is_writable {
            Err(ErrorCode::ConstraintMut)
        } else {
            Ok(())
        }
    }

    /// Whether the program `program_id` accepts the accounts.
    pub open spec fn outcome_in(self, program_id: Pubkey) -> Result<(), ErrorCode> {
        self.outcome(rewarder_seeds(self.pool, self.rewarder).address(program_id))
    }

    /// What becomes of a request with the given outcome: all that is left in the vault
    /// goes to the expiry receiver, and the reward is expired.
    pub open spec fn expired(self, outcome: Result<(), ErrorCode>) -> (
        Result<Transfer, ErrorCode>,
        ExpireReward,
    ) {
        match outcome {
            Err(e) => (Err(e), self),
            Ok(_) => (
                Ok(
                    Transfer {
                        from: self.vault.info.key,
                        to: self.expiry_receiver_token.key,
                        authority: self.rewarder_vault_authority.key,
                        amount: self.vault.data.amount,
                        signer: Some(rewarder_seeds(self.pool, self.rewarder)),
                    },
                ),
                ExpireReward {
                    rewarder: Account {
                        data: Rewarder { expired: true, ..self.rewarder.data },
                        ..self.rewarder
                    },
                    ..self
                },
            ),
        }
    }

    /// Checks the accounts, where the owner of the rewarder's vault has the given
    /// address.
    pub fn check(&self, authority: &Option<Pubkey>) -> (r: Result<(), ErrorCode>)
        ensures
            r == self.outcome(optional_bytes(*authority)),
    {
        if !self.expiry_receiver.is_signer {
            return Err(ErrorCode::AccountNotSigner);
        }
        if !self.rewarder.info.is_writable {
            return Err(ErrorCode::ConstraintMut);
        }
        if self.rewarder.data.pool != self.pool.info.key || self.rewarder.data.vault
            != self.vault.info.key || self.rewarder.data.expiry_receiver
            != self.expiry_receiver.key {
            return Err(ErrorCode::ConstraintHasOne);
        }
        if !self.vault.info.is_writable {
            return Err(ErrorCode::ConstraintMut);
        }
        if !is_address(authority, &self.rewarder_vault_authority.key) {
            return Err(ErrorCode::ConstraintSeeds);
        }
        if !self.expiry_receiver_token.is_writable {
            return Err(ErrorCode::ConstraintMut);
        }
        Ok(())
    }
}

/// Expires a reward, where the owner of the rewarder's vault has the given address.
pub fn expire_reward_at(accounts: &mut ExpireReward, authority: &Option<Pubkey>) -> (r: Result<
    Transfer,
    ErrorCode,
>)
    ensures
        (r, *final(accounts)) == old(accounts).expired(
            old(accounts).outcome(optional_bytes(*authority)),
        ),
{
    accounts.check(authority)?;
    let transfer = Transfer {
        to: accounts.expiry_receiver_token.key,
        from: accounts.vault.info.key,
        authority: accounts.rewarder_vault_authority.key,
        amount: accounts.vault.data.amount,
        signer: Some(seeds_of_rewarder(&accounts.pool, &accounts.rewarder)),
    };
    accounts.rewarder.data.expired = true;
    Ok(transfer)
}

/// Expires a reward: hands all that is left of it to the expiry receiver.
pub fn expire_reward(accounts: &mut ExpireReward, program_id: &Pubkey) -> (r: Result<
    Transfer,
    ErrorCode,
>)
    ensures
        (r, *final(accounts)) == old(accounts).expired(old(accounts).outcome_in(*program_id)),
{
    let authority = seeds_of_rewarder(&accounts.pool, &accounts.rewarder).derive(program_id);
    expire_reward_at(accounts, &authority)
}

} // verus!
