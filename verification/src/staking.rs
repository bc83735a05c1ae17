//! Depositing, staking, unstaking and withdrawing tokens.
//!
//! Deposited tokens lie in a staker's vault. Staking moves them on to the vault for
//! staked tokens and mints pool tokens for them. Unstaking burns the pool tokens and
//! moves the staked tokens to the vault for pending withdrawals, against a receipt;
//! ending it moves them back to the staker's vault, from where they can be withdrawn.
//!
//! A request that is accepted returns the calls into the token program to make, in
//! order. What it changes in the accounts takes hold once these calls have gone
//! through.

use vstd::prelude::*;

use crate::account::{Account, AccountInfo, Clock, NewAccount, TokenAccount};
use crate::address::{is_address, SignerSeeds};
use crate::error::ErrorCode;
use crate::key::{optional_bytes, Pubkey};
use crate::pool::Pool;
use crate::staker::{Staker, StakerVault, StakerVaultAccounts};
use crate::token::{Burn, MintTo, Transfer};

verus! {

/// The receipt for tokens that are being unstaked.
#[derive(Clone, Copy, Debug, PartialEq, Eq)]
pub struct PendingWithdrawal {
    /// The pool.
    pub pool: Pubkey,
    /// Whose tokens they are.
    pub staker: Pubkey,
    /// Whether the tokens were handed out.
    pub burned: bool,
    /// The mint of the pool tokens that were burned.
    pub pool_mint: Pubkey,
    /// When unstaking started.
    pub start_ts: i64,
    /// When the timelock ends.
    pub end_ts: i64,
    /// How many tokens there are.
    pub amount: u64,
    /// Whether the tokens belong to a locker.
    pub locked: bool,
}

/// The seeds of the address that owns a staker's token accounts.
pub open spec fn staker_seeds(pool: Account<Pool>, staker: Account<Staker>) -> SignerSeeds {
    SignerSeeds::Record { pool: pool.info.key, record: staker.info.key, bump: staker.data.nonce }
}

/// Builds the seeds of the address that owns a staker's token accounts.
fn seeds_of_staker(pool: &Account<Pool>, staker: &Account<Staker>) -> (r: SignerSeeds)
    ensures
        r == staker_seeds(*pool, *staker),
{
    SignerSeeds::Record { pool: pool.info.key, record: staker.info.key, bump: staker.data.nonce }
}

/// The seeds of the address that mints a pool's tokens.
pub open spec fn pool_seeds(pool: Account<Pool>) -> SignerSeeds {
    SignerSeeds::Pool { pool: pool.info.key, bump: pool.data.nonce }
}

/// Builds the seeds of the address that mints a pool's tokens.
fn seeds_of_pool(pool: &Account<Pool>) -> (r: SignerSeeds)
    ensures
        r == pool_seeds(*pool),
{
    SignerSeeds::Pool { pool: pool.info.key, bump: pool.data.nonce }
}

/// The worth of pool tokens, in staked tokens.
pub open spec fn staked_tokens(pool: Pool, pool_token_amount: u64) -> int {
    pool_token_amount * pool.stake_rate
}

/// The accounts of `deposit`.
pub struct Deposit {
    pub staker: Account<Staker>,
    pub beneficiary: AccountInfo,
    pub vault: Account<TokenAccount>,
    pub depositor: AccountInfo,
    pub depositor_authority: AccountInfo,
}

impl Deposit {
    /// Whether the accounts are accepted: the beneficiary signs, also as the owner of
    /// the tokens, and the tokens go to the vault of the staker.
    pub open spec fn outcome(self) -> Result<(), ErrorCode> {
        if !self.beneficiary.is_signer || !self.depositor_authority.is_signer {
            Err(ErrorCode::AccountNotSigner)
        } else if self.staker.data.beneficiary != self.beneficiary.key {
            Err(ErrorCode::ConstraintHasOne)
        } else if !self.vault.info.is_writable {
            Err(ErrorCode::ConstraintMut)
        } else if self.vault.info.key != self.staker.data.staker_vault.vault {
            Err(ErrorCode::ConstraintRaw)
        } else if !self.depositor.is_writable {
            Err(ErrorCode::ConstraintMut)
        } else if self.depositor_authority.key != self.staker.data.beneficiary {
            Err(ErrorCode::ConstraintRaw)
        } else {
            Ok(())
        }
    }

    /// What becomes of a request: the tokens move into the vault, with the signature of
    /// their owner.
    pub open spec fn deposited(self, amount: u64) -> Result<Transfer, ErrorCode> {
        match self.outcome() {
            Err(e) => Err(e),
            Ok(_) => Ok(
                Transfer {
                    from: self.depositor.key,
                    to: self.vault.info.key,
                    authority: self.depositor_authority.key,
                    amount,
                    signer: None,
                },
            ),
        }
    }

    /// Checks the accounts.
    pub fn check(&self) -> (r: Result<(), ErrorCode>)
        ensures
            r == self.outcome(),
    {
        if !self.beneficiary.is_signer || !self.depositor_authority.is_signer {
            return Err(ErrorCode::AccountNotSigner);
        }
        if self.staker.data.beneficiary != self.beneficiary.key {
            return Err(ErrorCode::ConstraintHasOne);
        }
        if !self.vault.info.is_writable {
            return Err(ErrorCode::ConstraintMut);
        }
        if self.vault.info.key != self.staker.data.staker_vault.vault {
            return Err(ErrorCode::ConstraintRaw);
        }
        if !self.depositor.is_writable {
            return Err(ErrorCode::ConstraintMut);
        }
        if self.depositor_authority.key != self.staker.data.beneficiary {
            return Err(ErrorCode::ConstraintRaw);
        }
        Ok(())
    }
}

/// Moves tokens of the beneficiary into the vault of the staker.
pub fn deposit(accounts: &Deposit, amount: u64) -> (r: Result<Transfer, ErrorCode>)
    ensures
        r == accounts.deposited(amount),
{
    accounts.check()?;
    Ok(
        Transfer {
            from: accounts.depositor.key,
            to: accounts.vault.info.key,
            authority: accounts.depositor_authority.key,
            amount,
            signer: None,
        },
    )
}

/// The accounts of `stake`.
pub struct Stake {
    pub pool: Account<Pool>,
    pub reward_event_q: AccountInfo,
    pub pool_mint: AccountInfo,
    pub staker: Account<Staker>,
    pub beneficiary: AccountInfo,
    pub staker_vault: StakerVaultAccounts,
    pub staker_vault_authority: AccountInfo,
    pub pool_mint_authority: AccountInfo,
    pub clock: Clock,
}

impl Stake {
    /// Whether the accounts are accepted, where `vault_authority` owns the staker's
    /// token accounts and `mint_authority` mints the pool's tokens: the beneficiary
    /// signs, and all accounts are those that the pool and the staker name.
    pub open spec fn outcome(
        self,
        vault_authority: Option<Seq<u8>>,
        mint_authority: Option<Seq<u8>>,
    ) -> Result<(), ErrorCode> {
        if !self.beneficiary.is_signer {
            Err(ErrorCode::AccountNotSigner)
        } else if self.staker_vault.outcome() is Err {
            self.staker_vault.outcome()
        } else if self.pool.data.pool_mint != self.pool_mint.key || self.pool.data.reward_event_q
            != self.reward_event_q.key {
            Err(ErrorCode::ConstraintHasOne)
        } else if !self.pool_mint.is_writable || !self.staker.info.is_writable {
            Err(ErrorCode::ConstraintMut)
        } else if self.staker.data.beneficiary != self.beneficiary.key || self.staker.data.pool
            != self.pool.info.key {
            Err(ErrorCode::ConstraintHasOne)
        } else if self.staker_vault.keys() != self.staker.data.staker_vault {
            Err(ErrorCode::ConstraintRaw)
        } else if vault_authority != Some(self.staker_vault_authority.key@) || mint_authority
            != Some(self.pool_mint_authority.key@) {
            Err(ErrorCode::ConstraintSeeds)
        } else {
            Ok(())
        }
    }

    /// Whether the program `program_id` accepts the accounts.
    pub open spec fn outcome_in(self, program_id: Pubkey) -> Result<(), ErrorCode> {
        self.outcome(
            staker_seeds(self.pool, self.staker).address(program_id),
            pool_seeds(self.pool).address(program_id),
        )
    }

    /// The tokens that stand for the pool tokens can be counted in 64 bits.
    pub open spec fn countable(self, pool_token_amount: u64) -> bool {
        staked_tokens(self.pool.data, pool_token_amount) <= u64::MAX
    }

    /// What becomes of a request with the given outcome: the tokens move to the vault
    /// for staked tokens, pool tokens are minted, and the time is noted.
    pub open spec fn staked(
        self,
        outcome: Result<(), ErrorCode>,
        pool_token_amount: u64,
    ) -> (Result<(Transfer, MintTo), ErrorCode>, Stake) {
        match outcome {
            Err(e) => (Err(e), self),
            Ok(_) => (
                Ok(
                    (
                        Transfer {
                            from: self.staker_vault.vault.info.key,
                            to: self.staker_vault.vault_staked.info.key,
                            authority: self.staker_vault_authority.key,
                            amount: staked_tokens(self.pool.data, pool_token_amount) as u64,
                            signer: Some(staker_seeds(self.pool, self.staker)),
                        },
                        MintTo {
                            mint: self.pool_mint.key,
                            to: self.staker_vault.vault_pool_token.info.key,
                            authority: self.pool_mint_authority.key,
                            amount: pool_token_amount,
                            signer: Some(pool_seeds(self.pool)),
                        },
                    ),
                ),
                Stake {
                    staker: Account {
                        data: Staker {
                            last_stake_ts: self.clock.unix_timestamp,
                            ..self.staker.data
                        },
                        ..self.staker
                    },
                    ..self
                },
            ),
        }
    }

    /// Checks the accounts, where the two authorities have the given addresses.
    pub fn check(
        &self,
        vault_authority: &Option<Pubkey>,
        mint_authority: &Option<Pubkey>,
    ) -> (r: Result<(), ErrorCode>)
        ensures
            r == self.outcome(optional_bytes(*vault_authority), optional_bytes(*mint_authority)),
    {
        if !self.beneficiary.is_signer {
            return Err(ErrorCode::AccountNotSigner);
        }
        self.staker_vault.check()?;
        if self.pool.data.pool_mint != self.pool_mint.key || self.pool.data.reward_event_q
            != self.reward_event_q.key {
            return Err(ErrorCode::ConstraintHasOne);
        }
        if !self.pool_mint.is_writable || !self.staker.info.is_writable {
            return Err(ErrorCode::ConstraintMut);
        }
        if self.staker.data.beneficiary != self.beneficiary.key || self.staker.data.pool
            != self.pool.info.key {
            return Err(ErrorCode::ConstraintHasOne);
        }
        if !StakerVault::from(&self.staker_vault).same(&self.staker.data.staker_vault) {
            return Err(ErrorCode::ConstraintRaw);
        }
        if !is_address(vault_authority, &self.staker_vault_authority.key) || !is_address(
            mint_authority,
            &self.pool_mint_authority.key,
        ) {
            return Err(ErrorCode::ConstraintSeeds);
        }
        Ok(())
    }
}

/// Stakes tokens for `pool_token_amount` tokens of the pool, where the two authorities
/// have the given addresses.
pub fn stake_at(
    accounts: &mut Stake,
    vault_authority: &Option<Pubkey>,
    mint_authority: &Option<Pubkey>,
    pool_token_amount: u64,
) -> (r: Result<(Transfer, MintTo), ErrorCode>)
    requires
        old(accounts).outcome(
            optional_bytes(*vault_authority),
            optional_bytes(*mint_authority),
        ) is Ok ==> old(accounts).countable(pool_token_amount),
    ensures
        (r, *final(accounts)) == old(accounts).staked(
            old(accounts).outcome(
                optional_bytes(*vault_authority),
                optional_bytes(*mint_authority),
            ),
            pool_token_amount,
        ),
{
    accounts.check(vault_authority, mint_authority)?;
    let token_amount = pool_token_amount.checked_mul(accounts.pool.data.stake_rate).unwrap();
    let transfer = Transfer {
        from: accounts.staker_vault.vault.info.key,
        to: accounts.staker_vault.vault_staked.info.key,
        authority: accounts.staker_vault_authority.key,
        amount: token_amount,
        signer: Some(seeds_of_staker(&accounts.pool, &accounts.staker)),
    };
    let mint_to = MintTo {
        mint: accounts.pool_mint.key,
        to: accounts.staker_vault.vault_pool_token.info.key,
        authority: accounts.pool_mint_authority.key,
        amount: pool_token_amount,
        signer: Some(seeds_of_pool(&accounts.pool)),
    };
    accounts.staker.data.last_stake_ts = accounts.clock.unix_timestamp;
    Ok((transfer, mint_to))
}

/// Stakes tokens for `pool_token_amount` tokens of the pool.
pub fn stake(accounts: &mut Stake, program_id: &Pubkey, pool_token_amount: u64) -> (r: Result<
    (Transfer, MintTo),
    ErrorCode,
>)
    requires
        old(accounts).outcome_in(*program_id) is Ok ==> old(accounts).countable(
            pool_token_amount,
        ),
    ensures
        (r, *final(accounts)) == old(accounts).staked(
            old(accounts).outcome_in(*program_id),
            pool_token_amount,
        ),
{
    let vault_authority = seeds_of_staker(&accounts.pool, &accounts.staker).derive(program_id);
    let mint_authority = seeds_of_pool(&accounts.pool).derive(program_id);
    stake_at(accounts, &vault_authority, &mint_authority, pool_token_amount)
}

/// Stakes tokens for `pool_token_amount` tokens of the pool; `None`, and nothing
/// changed, where the accounts are accepted but the tokens cannot be counted.
pub fn try_stake(accounts: &mut Stake, program_id: &Pubkey, pool_token_amount: u64) -> (r: Option<
    Result<(Transfer, MintTo), ErrorCode>,
>)
    ensures
        r is None <==> old(accounts).outcome_in(*program_id) is Ok && !old(accounts).countable(
            pool_token_amount,
        ),
        r is None ==> *final(accounts) == *old(accounts),
        r matches Some(result) ==> (result, *final(accounts)) == old(accounts).staked(
            old(accounts).outcome_in(*program_id),
            pool_token_amount,
        ),
{
    let vault_authority = seeds_of_staker(&accounts.pool, &accounts.staker).derive(program_id);
    let mint_authority = seeds_of_pool(&accounts.pool).derive(program_id);
    if accounts.check(&vault_authority, &mint_authority).is_ok() && pool_token_amount.checked_mul(
        accounts.pool.data.stake_rate,
    ).is_none() {
        return None;
    }
    Some(stake(accounts, program_id, pool_token_amount))
}

/// The accounts of `start_unstake`.
pub struct StartUnstake {
    pub pool: Account<Pool>,
    pub reward_event_q: AccountInfo,
    pub pool_mint: AccountInfo,
    pub pending_withdrawal: NewAccount<PendingWithdrawal>,
    pub staker: Account<Staker>,
    pub beneficiary: AccountInfo,
    pub staker_vault: StakerVaultAccounts,
    pub staker_vault_authority: AccountInfo,
    pub clock: Clock,
}

impl StartUnstake {
    /// Whether the accounts are accepted, where `vault_authority` owns the staker's
    /// token accounts: the beneficiary signs, the receipt is new, and all accounts are
    /// those that the pool and the staker name.
    pub open spec fn outcome(self, vault_authority: Option<Seq<u8>>) -> Result<(), ErrorCode> {
        if !self.beneficiary.is_signer {
            Err(ErrorCode::AccountNotSigner)
        } else if self.staker_vault.outcome() is Err {
            self.staker_vault.outcome()
        } else if self.pool.data.reward_event_q != self.reward_event_q.key
            || self.pool.data.pool_mint != self.pool_mint.key {
            Err(ErrorCode::ConstraintHasOne)
        } else if !self.pool_mint.is_writable {
            Err(ErrorCode::ConstraintMut)
        } else if self.pending_withdrawal.zeroed() is Err {
            self.pending_withdrawal.zeroed()
        } else if !self.staker.info.is_writable {
            Err(ErrorCode::ConstraintMut)
        } else if self.staker.data.beneficiary != self.beneficiary.key || self.staker.data.pool
            != self.pool.info.key {
            Err(ErrorCode::ConstraintHasOne)
        } else if self.staker_vault.keys() != self.staker.data.staker_vault {
            Err(ErrorCode::ConstraintRaw)
        } else if vault_authority != Some(self.staker_vault_authority.key@) {
            Err(ErrorCode::ConstraintSeeds)
        } else {
            Ok(())
        }
    }

    /// Whether the program `program_id` accepts the accounts.
    pub open spec fn outcome_in(self, program_id: Pubkey) -> Result<(), ErrorCode> {
        self.outcome(staker_seeds(self.pool, self.staker).address(program_id))
    }

    /// When the timelock ends.
    pub open spec fn end_ts(self) -> int {
        self.clock.unix_timestamp + self.pool.data.withdrawal_timelock
    }

    /// The tokens and the end of the timelock can be counted in 64 bits.
    pub open spec fn countable(self, pool_token_amount: u64) -> bool {
        &&& staked_tokens(self.pool.data, pool_token_amount) <= u64::MAX
        &&& i64::MIN <= self.end_ts() <= i64::MAX
    }

    /// The receipt for the tokens.
    pub open spec fn receipt(self, pool_token_amount: u64, locked: bool) -> PendingWithdrawal {
        PendingWithdrawal {
            pool: self.pool.info.key,
            staker: self.staker.info.key,
            burned: false,
            pool_mint: self.pool.data.pool_mint,
            start_ts: self.clock.unix_timestamp,
            end_ts: self.end_ts() as i64,
            amount: staked_tokens(self.pool.data, pool_token_amount) as u64,
            locked,
        }
    }

    /// What becomes of a request with the given outcome: the pool tokens are burned,
    /// the tokens move to the vault for pending withdrawals, the receipt is written,
    /// and the time is noted.
    pub open spec fn unstaking(
        self,
        outcome: Result<(), ErrorCode>,
        pool_token_amount: u64,
        locked: bool,
    ) -> (Result<(Burn, Transfer), ErrorCode>, StartUnstake) {
        match outcome {
            Err(e) => (Err(e), self),
            Ok(_) => (
                Ok(
                    (
                        Burn {
                            mint: self.pool_mint.key,
                            from: self.staker_vault.vault_pool_token.info.key,
                            authority: self.staker_vault_authority.key,
                            amount: pool_token_amount,
                            signer: Some(staker_seeds(self.pool, self.staker)),
                        },
                        Transfer {
                            from: self.staker_vault.vault_staked.info.key,
                            to: self.staker_vault.vault_pending_withdrawal.info.key,
                            authority: self.staker_vault_authority.key,
                            amount: staked_tokens(self.pool.data, pool_token_amount) as u64,
                            signer: Some(staker_seeds(self.pool, self.staker)),
                        },
                    ),
                ),
                StartUnstake {
                    pending_withdrawal: NewAccount {
                        data: self.receipt(pool_token_amount, locked),
                        ..self.pending_withdrawal
                    },
                    staker: Account {
                        data: Staker {
                            last_stake_ts: self.clock.unix_timestamp,
                            ..self.staker.data
                        },
                        ..self.staker
                    },
                    ..self
                },
            ),
        }
    }

    /// Checks the accounts, where the owner of the staker's token accounts has the
    /// given address.
    pub fn check(&self, vault_authority: &Option<Pubkey>) -> (r: Result<(), ErrorCode>)
        ensures
            r == self.outcome(optional_bytes(*vault_authority)),
    {
        if !self.beneficiary.is_signer {
            return Err(ErrorCode::AccountNotSigner);
        }
        self.staker_vault.check()?;
        if self.pool.data.reward_event_q != self.reward_event_q.key || self.pool.data.pool_mint
            != self.pool_mint.key {
            return Err(ErrorCode::ConstraintHasOne);
        }
        if !self.pool_mint.is_writable {
            return Err(ErrorCode::ConstraintMut);
        }
        self.pending_withdrawal.check_zeroed()?;
        if !self.staker.info.is_writable {
            return Err(ErrorCode::ConstraintMut);
        }
        if self.staker.data.beneficiary != self.beneficiary.key || self.staker.data.pool
            != self.pool.info.key {
            return Err(ErrorCode::ConstraintHasOne);
        }
        if !StakerVault::from(&self.staker_vault).same(&self.staker.data.staker_vault) {
            return Err(ErrorCode::ConstraintRaw);
        }
        if !is_address(vault_authority, &self.staker_vault_authority.key) {
            return Err(ErrorCode::ConstraintSeeds);
        }
        Ok(())
    }
}

/// Starts to unstake the tokens that `pool_token_amount` tokens of the pool stand for,
/// where the owner of the staker's token accounts has the given address.
pub fn start_unstake_at(
    accounts: &mut StartUnstake,
    vault_authority: &Option<Pubkey>,
    pool_token_amount: u64,
    locked: bool,
) -> (r: Result<(Burn, Transfer), ErrorCode>)
    requires
        old(accounts).outcome(optional_bytes(*vault_authority)) is Ok ==> old(
            accounts,
        ).countable(pool_token_amount),
    ensures
        (r, *final(accounts)) == old(accounts).unstaking(
            old(accounts).outcome(optional_bytes(*vault_authority)),
            pool_token_amount,
            locked,
        ),
{
    accounts.check(vault_authority)?;
    let burn = Burn {
        mint: accounts.pool_mint.key,
        from: accounts.staker_vault.vault_pool_token.info.key,
        authority: accounts.staker_vault_authority.key,
        amount: pool_token_amount,
        signer: Some(seeds_of_staker(&accounts.pool, &accounts.staker)),
    };
    let token_amount = pool_token_amount.checked_mul(accounts.pool.data.stake_rate).unwrap();
    let transfer = Transfer {
        from: accounts.staker_vault.vault_staked.info.key,
        to: accounts.staker_vault.vault_pending_withdrawal.info.key,
        authority: accounts.staker_vault_authority.key,
        amount: token_amount,
        signer: Some(seeds_of_staker(&accounts.pool, &accounts.staker)),
    };
    let receipt = PendingWithdrawal {
        burned: false,
        staker: accounts.staker.info.key,
        start_ts: accounts.clock.unix_timestamp,
        end_ts: accounts.clock.unix_timestamp + accounts.pool.data.withdrawal_timelock,
        amount: token_amount,
        pool_mint: accounts.pool.data.pool_mint,
        pool: accounts.pool.info.key,
        locked,
    };
    accounts.pending_withdrawal.data = receipt;
    accounts.staker.data.last_stake_ts = accounts.clock.unix_timestamp;
    Ok((burn, transfer))
}

/// Starts to unstake the tokens that `pool_token_amount` tokens of the pool stand for.
pub fn start_unstake(
    accounts: &mut StartUnstake,
    program_id: &Pubkey,
    pool_token_amount: u64,
    locked: bool,
) -> (r: Result<(Burn, Transfer), ErrorCode>)
    requires
        old(accounts).outcome_in(*program_id) is Ok ==> old(accounts).countable(
            pool_token_amount,
        ),
    ensures
        (r, *final(accounts)) == old(accounts).unstaking(
            old(accounts).outcome_in(*program_id),
            pool_token_amount,
            locked,
        ),
{
    let vault_authority = seeds_of_staker(&accounts.pool, &accounts.staker).derive(program_id);
    start_unstake_at(accounts, &vault_authority, pool_token_amount, locked)
}

/// Starts to unstake the tokens that `pool_token_amount` tokens of the pool stand for;
/// `None`, and nothing changed, where the accounts are accepted but the tokens or the
/// end of the timelock cannot be counted.
pub fn try_start_unstake(
    accounts: &mut StartUnstake,
    program_id: &Pubkey,
    pool_token_amount: u64,
    locked: bool,
) -> (r: Option<Result<(Burn, Transfer), ErrorCode>>)
    ensures
        r is None <==> old(accounts).outcome_in(*program_id) is Ok && !old(accounts).countable(
            pool_token_amount,
        ),
        r is None ==> *final(accounts) == *old(accounts),
        r matches Some(result) ==> (result, *final(accounts)) == old(accounts).unstaking(
            old(accounts).outcome_in(*program_id),
            pool_token_amount,
            locked,
        ),
{
    let vault_authority = seeds_of_staker(&accounts.pool, &accounts.staker).derive(program_id);
    if accounts.check(&vault_authority).is_ok() {
        let tokens = pool_token_amount.checked_mul(accounts.pool.data.stake_rate);
        let end_ts = accounts.clock.unix_timestamp.checked_add(
            accounts.pool.data.withdrawal_timelock,
        );
        if tokens.is_none() || end_ts.is_none() {
            return None;
        }
    }
    Some(start_unstake(accounts, program_id, pool_token_amount, locked))
}

/// The token accounts of a staker that a receipt is about: those for tokens that belong
/// to a locker, or those for tokens that are free.
pub open spec fn selected_vaults(staker: Staker, locked: bool) -> StakerVault {
    if locked {
        staker.staker_vault_locked
    } else {
        staker.staker_vault
    }
}

/// The accounts of `end_unstake`.
pub struct EndUnstake {
    pub pool: Account<Pool>,
    pub staker: Account<Staker>,
    pub beneficiary: AccountInfo,
    pub pending_withdrawal: Account<PendingWithdrawal>,
    pub vault: AccountInfo,
    pub vault_pending_withdrawal: AccountInfo,
    pub staker_vault_authority: AccountInfo,
}

impl EndUnstake {
    /// Whether the accounts are accepted, where `vault_authority` owns the staker's
    /// token accounts: the beneficiary signs, the receipt is one of the staker for the
    /// pool that was not used, and the tokens move within the token accounts that the
    /// receipt is about.
    pub open spec fn outcome(self, vault_authority: Option<Seq<u8>>) -> Result<(), ErrorCode> {
        let receipt = self.pending_withdrawal;
        let set = selected_vaults(self.staker.data, receipt.data.locked);
        if !self.beneficiary.is_signer {
            Err(ErrorCode::AccountNotSigner)
        } else if self.staker.data.pool != self.pool.info.key || self.staker.data.beneficiary
            != self.beneficiary.key {
            Err(ErrorCode::ConstraintHasOne)
        } else if !receipt.info.is_writable {
            Err(ErrorCode::ConstraintMut)
        } else if receipt.data.pool != self.pool.info.key || receipt.data.staker
            != self.staker.info.key {
            Err(ErrorCode::ConstraintHasOne)
        } else if receipt.data.burned {
            Err(ErrorCode::ConstraintRaw)
        } else if !self.vault.is_writable || !self.vault_pending_withdrawal.is_writable {
            Err(ErrorCode::ConstraintMut)
        } else if vault_authority != Some(self.staker_vault_authority.key@) {
            Err(ErrorCode::ConstraintSeeds)
        } else if self.vault.key != set.vault || self.vault_pending_withdrawal.key
            != set.vault_pending_withdrawal {
            Err(ErrorCode::ConstraintRaw)
        } else {
            Ok(())
        }
    }

    /// Whether the program `program_id` accepts the accounts.
    pub open spec fn outcome_in(self, program_id: Pubkey) -> Result<(), ErrorCode> {
        self.outcome(staker_seeds(self.pool, self.staker).address(program_id))
    }

    /// What becomes of a request with the given outcome: the tokens on the receipt
    /// move back to the vault, and the receipt is used up.
    pub open spec fn unstaked(self, outcome: Result<(), ErrorCode>) -> (
        Result<Transfer, ErrorCode>,
        EndUnstake,
    ) {
        match outcome {
            Err(e) => (Err(e), self),
            Ok(_) => (
                Ok(
                    Transfer {
                        from: self.vault_pending_withdrawal.key,
                        to: self.vault.key,
                        authority: self.staker_vault_authority.key,
                        amount: self.pending_withdrawal.data.amount,
                        signer: Some(staker_seeds(self.pool, self.staker)),
                    },
                ),
                EndUnstake {
                    pending_withdrawal: Account {
                        data: PendingWithdrawal { burned: true, ..self.pending_withdrawal.data },
                        ..self.pending_withdrawal
                    },
                    ..self
                },
            ),
        }
    }

    /// Checks the accounts, where the owner of the staker's token accounts has the
    /// given address.
    pub fn check(&self, vault_authority: &Option<Pubkey>) -> (r: Result<(), ErrorCode>)
        ensures
            r == self.outcome(optional_bytes(*vault_authority)),
    {
        let receipt = &self.pending_withdrawal;
        if !self.beneficiary.is_signer {
            return Err(ErrorCode::AccountNotSigner);
        }
        if self.staker.data.pool != self.pool.info.key || self.staker.data.beneficiary
            != self.beneficiary.key {
            return Err(ErrorCode::ConstraintHasOne);
        }
        if !receipt.info.is_writable {
            return Err(ErrorCode::ConstraintMut);
        }
        if receipt.data.pool != self.pool.info.key || receipt.data.staker
            != self.staker.info.key {
            return Err(ErrorCode::ConstraintHasOne);
        }
        if receipt.data.burned {
            return Err(ErrorCode::ConstraintRaw);
        }
        if !self.vault.is_writable || !self.vault_pending_withdrawal.is_writable {
            return Err(ErrorCode::ConstraintMut);
        }
        if !is_address(vault_authority, &self.staker_vault_authority.key) {
            return Err(ErrorCode::ConstraintSeeds);
        }
        let set = if receipt.data.locked {
            &self.staker.data.staker_vault_locked
        } else {
            &self.staker.data.staker_vault
        };
        if self.vault.key != set.vault || self.vault_pending_withdrawal.key
            != set.vault_pending_withdrawal {
            return Err(ErrorCode::ConstraintRaw);
        }
        Ok(())
    }
}

/// Ends unstaking, where the owner of the staker's token accounts has the given
/// address.
pub fn end_unstake_at(accounts: &mut EndUnstake, vault_authority: &Option<Pubkey>) -> (r: Result<
    Transfer,
    ErrorCode,
>)
    ensures
        (r, *final(accounts)) == old(accounts).unstaked(
            old(accounts).outcome(optional_bytes(*vault_authority)),
        ),
{
    accounts.check(vault_authority)?;
    let transfer = Transfer {
        from: accounts.vault_pending_withdrawal.key,
        to: accounts.vault.key,
        authority: accounts.staker_vault_authority.key,
        amount: accounts.pending_withdrawal.data.amount,
        signer: Some(seeds_of_staker(&accounts.pool, &accounts.staker)),
    };
    accounts.pending_withdrawal.data.burned = true;
    Ok(transfer)
}

/// Ends unstaking: hands out the tokens on a receipt, and uses the receipt up.
pub fn end_unstake(accounts: &mut EndUnstake, program_id: &Pubkey) -> (r: Result<
    Transfer,
    ErrorCode,
>)
    ensures
        (r, *final(accounts)) == old(accounts).unstaked(old(accounts).outcome_in(*program_id)),
{
    let vault_authority = seeds_of_staker(&accounts.pool, &accounts.staker).derive(program_id);
    end_unstake_at(accounts, &vault_authority)
}

/// The accounts of `withdraw`.
pub struct Withdraw {
    pub pool: Account<Pool>,
    pub staker: Account<Staker>,
    pub beneficiary: AccountInfo,
    pub vault: Account<TokenAccount>,
    pub staker_vault_authority: AccountInfo,
    pub depositor: AccountInfo,
}

impl Withdraw {
    /// Whether the accounts are accepted, where `vault_authority` owns the staker's
    /// token accounts: the beneficiary signs, and the tokens come from the vault of
    /// the staker.
    pub open spec fn outcome(self, vault_authority: Option<Seq<u8>>) -> Result<(), ErrorCode> {
        if !self.beneficiary.is_signer {
            Err(ErrorCode::AccountNotSigner)
        } else if self.staker.data.pool != self.pool.info.key || self.staker.data.beneficiary
            != self.beneficiary.key {
            Err(ErrorCode::ConstraintHasOne)
        } else if !self.vault.info.is_writable {
            Err(ErrorCode::ConstraintMut)
        } else if self.vault.info.key != self.staker.data.staker_vault.vault {
            Err(ErrorCode::ConstraintRaw)
        } else if vault_authority != Some(self.staker_vault_authority.key@) {
            Err(ErrorCode::ConstraintSeeds)
        } else if !self.depositor.is_writable {
            Err(ErrorCode::ConstraintMut)
        } else {
            Ok(())
        }
    }

    /// Whether the program `program_id` accepts the accounts.
    pub open spec fn outcome_in(self, program_id: Pubkey) -> Result<(), ErrorCode> {
        self.outcome(staker_seeds(self.pool, self.staker).address(program_id))
    }

    /// What becomes of a request with the given outcome: the tokens move from the
    /// vault to the account of the depositor.
    pub open spec fn withdrawn(
        self,
        outcome: Result<(), ErrorCode>,
        amount: u64,
    ) -> Result<Transfer, ErrorCode> {
        match outcome {
            Err(e) => Err(e),
            Ok(_) => Ok(
                Transfer {
                    from: self.vault.info.key,
                    to: self.depositor.key,
                    authority: self.staker_vault_authority.key,
                    amount,
                    signer: Some(staker_seeds(self.pool, self.staker)),
                },
            ),
        }
    }

    /// Checks the accounts, where the owner of the staker's token accounts has the
    /// given address.
    pub fn check(&self, vault_authority: &Option<Pubkey>) -> (r: Result<(), ErrorCode>)
        ensures
            r == self.outcome(optional_bytes(*vault_authority)),
    {
        if !self.beneficiary.is_signer {
            return Err(ErrorCode::AccountNotSigner);
        }
        if self.staker.data.pool != self.pool.info.key || self.staker.data.beneficiary
            != self.beneficiary.key {
            return Err(ErrorCode::ConstraintHasOne);
        }
        if !self.vault.info.is_writable {
            return Err(ErrorCode::ConstraintMut);
        }
        if self.vault.info.key != self.staker.data.staker_vault.vault {
            return Err(ErrorCode::ConstraintRaw);
        }
        if !is_address(vault_authority, &self.staker_vault_authority.key) {
            return Err(ErrorCode::ConstraintSeeds);
        }
        if !self.depositor.is_writable {
            return Err(ErrorCode::ConstraintMut);
        }
        Ok(())
    }
}

/// Moves tokens out of the vault of a staker, where the owner of the staker's token
/// accounts has the given address.
pub fn withdraw_at(accounts: &Withdraw, vault_authority: &Option<Pubkey>, amount: u64) -> (r:
    Result<Transfer, ErrorCode>)
    ensures
        r == accounts.withdrawn(
            accounts.outcome(optional_bytes(*vault_authority)),
            amount,
        ),
{
    accounts.check(vault_authority)?;
    Ok(
        Transfer {
            from: accounts.vault.info.key,
            to: accounts.depositor.key,
            authority: accounts.staker_vault_authority.key,
            amount,
            signer: Some(seeds_of_staker(&accounts.pool, &accounts.staker)),
        },
    )
}

/// Moves tokens out of the vault of a staker.
pub fn withdraw(accounts: &Withdraw, program_id: &Pubkey, amount: u64) -> (r: Result<
    Transfer,
    ErrorCode,
>)
    ensures
        r == accounts.withdrawn(accounts.outcome_in(*program_id), amount),
{
    let vault_authority = seeds_of_staker(&accounts.pool, &accounts.staker).derive(program_id);
    withdraw_at(accounts, &vault_authority, amount)
}

} // verus!
