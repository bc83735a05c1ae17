use pool_manager::account::{Account, AccountInfo, Clock, NewAccount, TokenAccount};
use pool_manager::address::SignerSeeds;
use pool_manager::error::ErrorCode;
use pool_manager::key::Pubkey;
use pool_manager::pool::Pool;
use pool_manager::staker::{Staker, StakerVault, StakerVaultAccounts};
use pool_manager::staking::{
    deposit, end_unstake, end_unstake_at, stake, stake_at, start_unstake, start_unstake_at,
    try_stake, try_start_unstake, withdraw, withdraw_at, Deposit, EndUnstake, PendingWithdrawal,
    Stake, StartUnstake, Withdraw,
};
use pool_manager::token::{Burn, MintTo, Transfer};

const STAKER_AUTHORITY: [u8; 32] = [
    62, 134, 12, 125, 156, 140, 247, 194, 161, 98, 24, 128, 160, 244, 18, 186, 63, 108, 162, 29,
    183, 173, 129, 107, 101, 157, 226, 155, 64, 92, 31, 155,
];

const POOL_AUTHORITY: [u8; 32] = [
    32, 96, 249, 233, 195, 149, 149, 30, 167, 5, 75, 237, 50, 149, 74, 66, 149, 122, 36, 169, 102,
    217, 112, 78, 225, 66, 121, 205, 49, 90, 84, 28,
];

const PROGRAM: u8 = 9;
const MINT: u8 = 10;
const POOL_MINT: u8 = 11;
const RING: u8 = 12;
const BENEFICIARY: u8 = 13;
const DEPOSITOR: u8 = 14;

fn key(byte: u8) -> Pubkey {
    Pubkey { bytes: [byte; 32] }
}

fn info(byte: u8) -> AccountInfo {
    AccountInfo { key: key(byte), is_signer: false, is_writable: true }
}

fn at(bytes: [u8; 32]) -> AccountInfo {
    AccountInfo { key: Pubkey { bytes }, is_signer: false, is_writable: false }
}

fn signer(byte: u8) -> AccountInfo {
    AccountInfo { key: key(byte), is_signer: true, is_writable: false }
}

fn pool() -> Account<Pool> {
    Account {
        info: info(1),
        data: Pool {
            authority: key(3),
            nonce: 255,
            withdrawal_timelock: 60,
            reward_event_q: key(RING),
            mint: key(MINT),
            pool_mint: key(POOL_MINT),
            stake_rate: 3,
        },
    }
}

fn vault_keys() -> StakerVault {
    StakerVault {
        vault: key(20),
        vault_staked: key(21),
        vault_pending_withdrawal: key(22),
        vault_pool_token: key(23),
    }
}

fn staker() -> Account<Staker> {
    Account {
        info: info(2),
        data: Staker {
            pool: key(1),
            beneficiary: key(BENEFICIARY),
            metadata: key(0),
            staker_vault: vault_keys(),
            staker_vault_locked: vault_keys(),
            rewards_cursor: 0,
            last_stake_ts: 5,
            nonce: 255,
        },
    }
}

fn tokens(byte: u8, mint: u8) -> Account<TokenAccount> {
    Account {
        info: info(byte),
        data: TokenAccount { mint: key(mint), owner: Pubkey { bytes: STAKER_AUTHORITY }, amount: 0 },
    }
}

fn vaults() -> StakerVaultAccounts {
    StakerVaultAccounts {
        vault: tokens(20, MINT),
        vault_staked: tokens(21, MINT),
        vault_pending_withdrawal: tokens(22, MINT),
        vault_pool_token: tokens(23, POOL_MINT),
    }
}

fn staker_signer() -> Option<SignerSeeds> {
    Some(SignerSeeds::Record { pool: key(1), record: key(2), bump: 255 })
}

fn staker_authority() -> Pubkey {
    Pubkey { bytes: STAKER_AUTHORITY }
}

fn pool_authority() -> Pubkey {
    Pubkey { bytes: POOL_AUTHORITY }
}

fn deposits() -> Deposit {
    Deposit {
        staker: staker(),
        beneficiary: signer(BENEFICIARY),
        vault: tokens(20, MINT),
        depositor: info(DEPOSITOR),
        depositor_authority: signer(BENEFICIARY),
    }
}

#[test]
fn tokens_are_deposited() {
    assert_eq!(
        deposit(&deposits(), 100),
        Ok(Transfer {
            from: key(DEPOSITOR),
            to: key(20),
            authority: key(BENEFICIARY),
            amount: 100,
            signer: None,
        })
    );
}

#[test]
fn a_deposit_is_refused() {
    let mut accounts = deposits();
    accounts.depositor_authority = signer(77);
    assert_eq!(deposit(&accounts, 1), Err(ErrorCode::ConstraintRaw));
    accounts.depositor.is_writable = false;
    assert_eq!(deposit(&accounts, 1), Err(ErrorCode::ConstraintMut));
    accounts.vault.info.key = key(21);
    assert_eq!(deposit(&accounts, 1), Err(ErrorCode::ConstraintRaw));
    accounts.vault.info.is_writable = false;
    assert_eq!(deposit(&accounts, 1), Err(ErrorCode::ConstraintMut));
    accounts.beneficiary = signer(77);
    assert_eq!(deposit(&accounts, 1), Err(ErrorCode::ConstraintHasOne));
    accounts.depositor_authority.is_signer = false;
    assert_eq!(deposit(&accounts, 1), Err(ErrorCode::AccountNotSigner));
    let mut accounts = deposits();
    accounts.beneficiary.is_signer = false;
    assert_eq!(deposit(&accounts, 1), Err(ErrorCode::AccountNotSigner));
}

fn stakes() -> Stake {
    Stake {
        pool: pool(),
        reward_event_q: info(RING),
        pool_mint: info(POOL_MINT),
        staker: staker(),
        beneficiary: signer(BENEFICIARY),
        staker_vault: vaults(),
        staker_vault_authority: at(STAKER_AUTHORITY),
        pool_mint_authority: at(POOL_AUTHORITY),
        clock: Clock { unix_timestamp: 1000 },
    }
}

fn stake_calls() -> (Transfer, MintTo) {
    (
        Transfer {
            from: key(20),
            to: key(21),
            authority: staker_authority(),
            amount: 30,
            signer: staker_signer(),
        },
        MintTo {
            mint: key(POOL_MINT),
            to: key(23),
            authority: pool_authority(),
            amount: 10,
            signer: Some(SignerSeeds::Pool { pool: key(1), bump: 255 }),
        },
    )
}

#[test]
fn tokens_are_staked() {
    let mut accounts = stakes();
    assert_eq!(stake(&mut accounts, &key(PROGRAM), 10), Ok(stake_calls()));
    assert_eq!(accounts.staker.data, Staker { last_stake_ts: 1000, ..staker().data });

    let mut accounts = stakes();
    assert_eq!(try_stake(&mut accounts, &key(PROGRAM), 10), Some(Ok(stake_calls())));
    assert_eq!(accounts.staker.data.last_stake_ts, 1000);
}

#[test]
fn the_program_signs_for_the_authorities_of_a_stake() {
    let (transfer, mint_to) = stake(&mut stakes(), &key(PROGRAM), 10).unwrap();
    assert_eq!(transfer.signer.unwrap().derive(&key(PROGRAM)), Some(transfer.authority));
    assert_eq!(mint_to.signer.unwrap().derive(&key(PROGRAM)), Some(mint_to.authority));
}

#[test]
fn a_stake_that_cannot_be_counted_is_not_made() {
    let mut accounts = stakes();
    assert_eq!(try_stake(&mut accounts, &key(PROGRAM), u64::MAX / 3 + 1), None);
    assert_eq!(accounts.staker.data, staker().data);
    accounts.beneficiary.is_signer = false;
    assert_eq!(
        try_stake(&mut accounts, &key(PROGRAM), u64::MAX),
        Some(Err(ErrorCode::AccountNotSigner))
    );
    assert_eq!(
        stake(&mut accounts, &key(PROGRAM), u64::MAX),
        Err(ErrorCode::AccountNotSigner)
    );
    let mut accounts = stakes();
    let (transfer, _) = stake(&mut accounts, &key(PROGRAM), u64::MAX / 3).unwrap();
    assert_eq!(transfer.amount, u64::MAX / 3 * 3);
}

fn stake_with(accounts: &mut Stake) -> Result<(Transfer, MintTo), ErrorCode> {
    stake_at(accounts, &Some(staker_authority()), &Some(pool_authority()), 10)
}

#[test]
fn a_stake_is_refused() {
    assert_eq!(stake_with(&mut stakes()), Ok(stake_calls()));
    let vault = Some(staker_authority());
    let mint = Some(pool_authority());
    let seeds = Err(ErrorCode::ConstraintSeeds);
    assert_eq!(stake_at(&mut stakes(), &None, &mint, 10), seeds);
    assert_eq!(stake_at(&mut stakes(), &vault, &None, 10), seeds);
    assert_eq!(stake_at(&mut stakes(), &mint, &vault, 10), seeds);
    assert_eq!(stake(&mut stakes(), &key(8), 10), seeds);

    let mut accounts = stakes();
    accounts.staker_vault.vault_staked.info.key = key(99);
    assert_eq!(stake_with(&mut accounts), Err(ErrorCode::ConstraintRaw));
    accounts.beneficiary.key = key(99);
    assert_eq!(stake_with(&mut accounts), Err(ErrorCode::ConstraintHasOne));
    accounts.staker.info.is_writable = false;
    assert_eq!(stake_with(&mut accounts), Err(ErrorCode::ConstraintMut));
    accounts.pool_mint.key = key(99);
    assert_eq!(stake_with(&mut accounts), Err(ErrorCode::ConstraintHasOne));
    accounts.staker_vault.vault.data.owner = key(99);
    assert_eq!(stake_with(&mut accounts), Err(ErrorCode::ConstraintRaw));
    accounts.beneficiary.is_signer = false;
    assert_eq!(stake_with(&mut accounts), Err(ErrorCode::AccountNotSigner));
    assert_eq!(accounts.staker.data, staker().data);

    let mut accounts = stakes();
    accounts.pool_mint.is_writable = false;
    assert_eq!(stake_with(&mut accounts), Err(ErrorCode::ConstraintMut));
    let mut accounts = stakes();
    accounts.reward_event_q.key = key(99);
    assert_eq!(stake_with(&mut accounts), Err(ErrorCode::ConstraintHasOne));
    let mut accounts = stakes();
    accounts.staker.data.pool = key(99);
    assert_eq!(stake_with(&mut accounts), Err(ErrorCode::ConstraintHasOne));
}

fn blank_receipt() -> PendingWithdrawal {
    PendingWithdrawal {
        pool: key(0),
        staker: key(0),
        burned: false,
        pool_mint: key(0),
        start_ts: 0,
        end_ts: 0,
        amount: 0,
        locked: false,
    }
}

fn unstakes() -> StartUnstake {
    StartUnstake {
        pool: pool(),
        reward_event_q: info(RING),
        pool_mint: info(POOL_MINT),
        pending_withdrawal: NewAccount {
            info: info(30),
            discriminator: 0,
            rent_exempt: true,
            data: blank_receipt(),
        },
        staker: staker(),
        beneficiary: signer(BENEFICIARY),
        staker_vault: vaults(),
        staker_vault_authority: at(STAKER_AUTHORITY),
        clock: Clock { unix_timestamp: 2000 },
    }
}

fn unstake_calls() -> (Burn, Transfer) {
    (
        Burn {
            mint: key(POOL_MINT),
            from: key(23),
            authority: staker_authority(),
            amount: 10,
            signer: staker_signer(),
        },
        Transfer {
            from: key(21),
            to: key(22),
            authority: staker_authority(),
            amount: 30,
            signer: staker_signer(),
        },
    )
}

fn receipt() -> PendingWithdrawal {
    PendingWithdrawal {
        pool: key(1),
        staker: key(2),
        burned: false,
        pool_mint: key(POOL_MINT),
        start_ts: 2000,
        end_ts: 2060,
        amount: 30,
        locked: true,
    }
}

#[test]
fn unstaking_starts() {
    let mut accounts = unstakes();
    assert_eq!(start_unstake(&mut accounts, &key(PROGRAM), 10, true), Ok(unstake_calls()));
    assert_eq!(accounts.pending_withdrawal.data, receipt());
    assert_eq!(accounts.staker.data, Staker { last_stake_ts: 2000, ..staker().data });

    let mut accounts = unstakes();
    assert_eq!(
        try_start_unstake(&mut accounts, &key(PROGRAM), 10, false),
        Some(Ok(unstake_calls()))
    );
    assert_eq!(accounts.pending_withdrawal.data, PendingWithdrawal { locked: false, ..receipt() });
}

#[test]
fn unstaking_that_cannot_be_counted_is_not_started() {
    let mut accounts = unstakes();
    assert_eq!(try_start_unstake(&mut accounts, &key(PROGRAM), u64::MAX, false), None);
    accounts.clock.unix_timestamp = i64::MAX - 59;
    assert_eq!(try_start_unstake(&mut accounts, &key(PROGRAM), 1, false), None);
    assert_eq!(accounts.pending_withdrawal.data, blank_receipt());
    accounts.clock.unix_timestamp = i64::MAX - 60;
    assert!(try_start_unstake(&mut accounts, &key(PROGRAM), 1, false).unwrap().is_ok());
    assert_eq!(accounts.pending_withdrawal.data.end_ts, i64::MAX);
}

fn unstake_with(accounts: &mut StartUnstake) -> Result<(Burn, Transfer), ErrorCode> {
    start_unstake_at(accounts, &Some(staker_authority()), 10, true)
}

#[test]
fn unstaking_is_refused() {
    assert_eq!(unstake_with(&mut unstakes()), Ok(unstake_calls()));
    let seeds = Err(ErrorCode::ConstraintSeeds);
    assert_eq!(start_unstake_at(&mut unstakes(), &None, 10, true), seeds);
    assert_eq!(start_unstake_at(&mut unstakes(), &Some(key(1)), 10, true), seeds);
    assert_eq!(start_unstake(&mut unstakes(), &key(8), 10, true), seeds);

    let mut accounts = unstakes();
    accounts.staker_vault.vault_staked.info.key = key(99);
    assert_eq!(unstake_with(&mut accounts), Err(ErrorCode::ConstraintRaw));
    accounts.beneficiary.key = key(99);
    assert_eq!(unstake_with(&mut accounts), Err(ErrorCode::ConstraintHasOne));
    accounts.staker.info.is_writable = false;
    assert_eq!(unstake_with(&mut accounts), Err(ErrorCode::ConstraintMut));
    accounts.pending_withdrawal.discriminator = 1;
    assert_eq!(unstake_with(&mut accounts), Err(ErrorCode::ConstraintZero));
    accounts.pool_mint.is_writable = false;
    assert_eq!(unstake_with(&mut accounts), Err(ErrorCode::ConstraintMut));
    accounts.pool_mint.key = key(99);
    assert_eq!(unstake_with(&mut accounts), Err(ErrorCode::ConstraintHasOne));
    accounts.staker_vault.vault.info.is_writable = false;
    assert_eq!(unstake_with(&mut accounts), Err(ErrorCode::ConstraintMut));
    accounts.beneficiary.is_signer = false;
    assert_eq!(unstake_with(&mut accounts), Err(ErrorCode::AccountNotSigner));
    assert_eq!(accounts.staker.data, staker().data);
    assert_eq!(accounts.pending_withdrawal.data, blank_receipt());

    let mut accounts = unstakes();
    accounts.reward_event_q.key = key(99);
    assert_eq!(unstake_with(&mut accounts), Err(ErrorCode::ConstraintHasOne));
    let mut accounts = unstakes();
    accounts.staker.data.pool = key(99);
    assert_eq!(unstake_with(&mut accounts), Err(ErrorCode::ConstraintHasOne));
}

fn ends() -> EndUnstake {
    EndUnstake {
        pool: pool(),
        staker: staker(),
        beneficiary: signer(BENEFICIARY),
        pending_withdrawal: Account { info: info(30), data: receipt() },
        vault: info(20),
        vault_pending_withdrawal: info(22),
        staker_vault_authority: at(STAKER_AUTHORITY),
    }
}

#[test]
fn unstaking_ends_once() {
    let mut accounts = ends();
    let transfer = Transfer {
        from: key(22),
        to: key(20),
        authority: staker_authority(),
        amount: 30,
        signer: staker_signer(),
    };
    assert_eq!(end_unstake(&mut accounts, &key(PROGRAM)), Ok(transfer));
    assert_eq!(accounts.pending_withdrawal.data, PendingWithdrawal { burned: true, ..receipt() });
    assert_eq!(end_unstake(&mut accounts, &key(PROGRAM)), Err(ErrorCode::ConstraintRaw));
}

#[test]
fn staked_tokens_come_back() {
    let mut staking = stakes();
    let (into, minted) = stake(&mut staking, &key(PROGRAM), 10).unwrap();
    let mut starting = unstakes();
    starting.staker = staking.staker;
    let (burned, out) = start_unstake(&mut starting, &key(PROGRAM), 10, false).unwrap();
    let mut ending = ends();
    ending.pending_withdrawal.data = starting.pending_withdrawal.data;
    let back = end_unstake(&mut ending, &key(PROGRAM)).unwrap();
    assert_eq!((burned.mint, burned.from, burned.amount), (minted.mint, minted.to, minted.amount));
    assert_eq!((into.amount, out.amount, back.amount), (30, 30, 30));
    assert_eq!((into.to, out.to, back.to), (out.from, back.from, into.from));
}

#[test]
fn ending_is_refused() {
    let authority = Some(staker_authority());
    let mut accounts = ends();
    assert_eq!(end_unstake_at(&mut accounts, &None), Err(ErrorCode::ConstraintSeeds));
    assert_eq!(end_unstake(&mut accounts, &key(8)), Err(ErrorCode::ConstraintSeeds));
    accounts.vault.is_writable = false;
    assert_eq!(end_unstake_at(&mut accounts, &authority), Err(ErrorCode::ConstraintMut));
    accounts.pending_withdrawal.data.burned = true;
    assert_eq!(end_unstake_at(&mut accounts, &authority), Err(ErrorCode::ConstraintRaw));
    accounts.pending_withdrawal.data.staker = key(99);
    assert_eq!(end_unstake_at(&mut accounts, &authority), Err(ErrorCode::ConstraintHasOne));
    accounts.pending_withdrawal.info.is_writable = false;
    assert_eq!(end_unstake_at(&mut accounts, &authority), Err(ErrorCode::ConstraintMut));
    accounts.beneficiary.key = key(99);
    assert_eq!(end_unstake_at(&mut accounts, &authority), Err(ErrorCode::ConstraintHasOne));
    accounts.beneficiary.is_signer = false;
    assert_eq!(end_unstake_at(&mut accounts, &authority), Err(ErrorCode::AccountNotSigner));

    let mut accounts = ends();
    accounts.vault_pending_withdrawal.is_writable = false;
    assert_eq!(end_unstake_at(&mut accounts, &authority), Err(ErrorCode::ConstraintMut));
    let mut accounts = ends();
    accounts.pending_withdrawal.data.pool = key(99);
    assert_eq!(end_unstake_at(&mut accounts, &authority), Err(ErrorCode::ConstraintHasOne));
    let mut accounts = ends();
    accounts.staker.data.pool = key(99);
    assert_eq!(end_unstake_at(&mut accounts, &authority), Err(ErrorCode::ConstraintHasOne));
    assert!(!accounts.pending_withdrawal.data.burned);
}

fn withdrawals() -> Withdraw {
    Withdraw {
        pool: pool(),
        staker: staker(),
        beneficiary: signer(BENEFICIARY),
        vault: tokens(20, MINT),
        staker_vault_authority: at(STAKER_AUTHORITY),
        depositor: info(DEPOSITOR),
    }
}

#[test]
fn a_withdrawal_takes_a_deposit_back() {
    let into = deposit(&deposits(), 100).unwrap();
    let back = withdraw(&withdrawals(), &key(PROGRAM), 100).unwrap();
    assert_eq!(
        back,
        Transfer {
            from: into.to,
            to: into.from,
            authority: staker_authority(),
            amount: 100,
            signer: staker_signer(),
        }
    );
}

#[test]
fn a_withdrawal_is_refused() {
    let authority = Some(staker_authority());
    let mut accounts = withdrawals();
    accounts.depositor.is_writable = false;
    assert_eq!(withdraw_at(&accounts, &authority, 1), Err(ErrorCode::ConstraintMut));
    assert_eq!(withdraw_at(&accounts, &None, 1), Err(ErrorCode::ConstraintSeeds));
    assert_eq!(withdraw(&accounts, &key(8), 1), Err(ErrorCode::ConstraintSeeds));
    accounts.vault.info.key = key(21);
    assert_eq!(withdraw_at(&accounts, &None, 1), Err(ErrorCode::ConstraintRaw));
    accounts.vault.info.is_writable = false;
    assert_eq!(withdraw_at(&accounts, &None, 1), Err(ErrorCode::ConstraintMut));
    accounts.staker.data.pool = key(99);
    assert_eq!(withdraw_at(&accounts, &None, 1), Err(ErrorCode::ConstraintHasOne));
    accounts.beneficiary.is_signer = false;
    assert_eq!(withdraw_at(&accounts, &None, 1), Err(ErrorCode::AccountNotSigner));
    let mut accounts = withdrawals();
    accounts.beneficiary.key = key(99);
    assert_eq!(withdraw_at(&accounts, &authority, 1), Err(ErrorCode::ConstraintHasOne));
}

#[test]
fn pool_tokens_stay_backed() {
    let mut pool_tokens: u64 = 0;
    let mut staked: u64 = 0;
    for amount in [10, 7, 25] {
        let (transfer, mint_to) = stake(&mut stakes(), &key(PROGRAM), amount).unwrap();
        pool_tokens += mint_to.amount;
        staked += transfer.amount;
        assert_eq!(staked, pool_tokens * 3);
    }
    for amount in [5, 30] {
        let (burn, transfer) =
            start_unstake(&mut unstakes(), &key(PROGRAM), amount, false).unwrap();
        pool_tokens -= burn.amount;
        staked -= transfer.amount;
        assert_eq!(staked, pool_tokens * 3);
    }
    assert_eq!(pool_tokens, 7);
    assert_eq!(staked, 21);
}

#[test]
fn a_receipt_selects_the_token_accounts() {
    let apart = StakerVault {
        vault: key(70),
        vault_staked: key(71),
        vault_pending_withdrawal: key(72),
        vault_pool_token: key(73),
    };
    let mut free = ends();
    free.staker.data.staker_vault_locked = apart;
    free.pending_withdrawal.data.locked = false;
    let mut locked = ends();
    locked.staker.data.staker_vault_locked = apart;
    assert_eq!(end_unstake(&mut locked, &key(PROGRAM)), Err(ErrorCode::ConstraintRaw));
    assert!(!locked.pending_withdrawal.data.burned);
    locked.vault = info(70);
    assert_eq!(end_unstake(&mut locked, &key(PROGRAM)), Err(ErrorCode::ConstraintRaw));
    locked.vault_pending_withdrawal = info(72);

    let back = end_unstake(&mut free, &key(PROGRAM)).unwrap();
    assert_eq!((back.from, back.to, back.amount), (key(22), key(20), 30));
    let back = end_unstake(&mut locked, &key(PROGRAM)).unwrap();
    assert_eq!((back.from, back.to, back.amount), (key(72), key(70), 30));

    let mut free = ends();
    free.staker.data.staker_vault_locked = apart;
    free.pending_withdrawal.data.locked = false;
    free.vault = info(70);
    free.vault_pending_withdrawal = info(72);
    assert_eq!(end_unstake(&mut free, &key(PROGRAM)), Err(ErrorCode::ConstraintRaw));
}
