use pool_manager::account::{Account, AccountInfo, NewAccount, TokenAccount};
use pool_manager::error::ErrorCode;
use pool_manager::key::Pubkey;
use pool_manager::pool::Pool;
use pool_manager::staker::{
    create_staker, update_staker, update_staker_vault, update_staker_vault_locked, CreateStaker,
    Staker, StakerVault, StakerVaultAccounts, UpdateStaker, UpdateStakerVault,
    UpdateStakerVaultLocked,
};

const MINT: u8 = 10;
const POOL_MINT: u8 = 11;
const AUTHORITY: u8 = 12;

fn key(byte: u8) -> Pubkey {
    Pubkey { bytes: [byte; 32] }
}

fn info(byte: u8) -> AccountInfo {
    AccountInfo { key: key(byte), is_signer: false, is_writable: true }
}

fn signer(byte: u8) -> AccountInfo {
    AccountInfo { key: key(byte), is_signer: true, is_writable: false }
}

fn pool() -> Account<Pool> {
    Account {
        info: info(1),
        data: Pool {
            authority: key(2),
            nonce: 255,
            withdrawal_timelock: 60,
            reward_event_q: key(3),
            mint: key(MINT),
            pool_mint: key(POOL_MINT),
            stake_rate: 2,
        },
    }
}

fn no_vault() -> StakerVault {
    StakerVault {
        vault: key(0),
        vault_staked: key(0),
        vault_pending_withdrawal: key(0),
        vault_pool_token: key(0),
    }
}

fn blank() -> Staker {
    Staker {
        pool: key(0),
        beneficiary: key(0),
        metadata: key(0),
        staker_vault: no_vault(),
        staker_vault_locked: no_vault(),
        rewards_cursor: 0,
        last_stake_ts: 0,
        nonce: 0,
    }
}

fn tokens(byte: u8, mint: u8) -> Account<TokenAccount> {
    Account {
        info: info(byte),
        data: TokenAccount { mint: key(mint), owner: key(AUTHORITY), amount: 0 },
    }
}

fn vaults() -> StakerVaultAccounts {
    StakerVaultAccounts {
        vault: tokens(20, MINT),
        vault_staked: tokens(21, MINT),
        vault_pending_withdrawal: tokens(22, MINT),
        vault_pool_token: tokens(23, POOL_MINT),
    }
}

fn vault_keys() -> StakerVault {
    StakerVault {
        vault: key(20),
        vault_staked: key(21),
        vault_pending_withdrawal: key(22),
        vault_pool_token: key(23),
    }
}

fn creation() -> CreateStaker {
    CreateStaker {
        pool: pool(),
        staker: NewAccount {
            info: info(5),
            discriminator: 0,
            rent_exempt: true,
            data: blank(),
        },
        beneficiary: signer(6),
    }
}

#[test]
fn a_staker_is_created() {
    let mut accounts = creation();
    assert_eq!(create_staker(&mut accounts, 253), Ok(()));
    assert_eq!(
        accounts.staker.data,
        Staker { pool: key(1), beneficiary: key(6), nonce: 253, ..blank() }
    );
}

#[test]
fn creating_a_staker_is_refused() {
    let mut accounts = creation();
    accounts.staker.rent_exempt = false;
    assert_eq!(create_staker(&mut accounts, 1), Err(ErrorCode::ConstraintRentExempt));
    accounts.staker.info.is_writable = false;
    assert_eq!(create_staker(&mut accounts, 1), Err(ErrorCode::ConstraintMut));
    accounts.staker.discriminator = 9;
    assert_eq!(create_staker(&mut accounts, 1), Err(ErrorCode::ConstraintZero));
    accounts.beneficiary.is_signer = false;
    assert_eq!(create_staker(&mut accounts, 1), Err(ErrorCode::AccountNotSigner));
    assert_eq!(accounts.staker.data, blank());
}

fn update_by(byte: u8) -> UpdateStaker {
    let mut created = creation();
    create_staker(&mut created, 253).unwrap();
    UpdateStaker {
        staker: Account { info: info(5), data: created.staker.data },
        beneficiary: signer(byte),
    }
}

#[test]
fn metadata_is_changed_by_the_beneficiary() {
    let mut accounts = update_by(6);
    assert_eq!(update_staker(&mut accounts, Some(key(40))), Ok(()));
    assert_eq!(accounts.staker.data.metadata, key(40));
    assert_eq!(accounts.staker.data.beneficiary, key(6));
    let before = accounts.staker;
    assert_eq!(update_staker(&mut accounts, None), Ok(()));
    assert_eq!(accounts.staker, before);
}

#[test]
fn changing_metadata_is_refused() {
    let mut accounts = update_by(7);
    let before = accounts.staker;
    assert_eq!(update_staker(&mut accounts, Some(key(40))), Err(ErrorCode::ConstraintHasOne));
    assert_eq!(accounts.staker, before);
    accounts.staker.info.is_writable = false;
    assert_eq!(update_staker(&mut accounts, Some(key(40))), Err(ErrorCode::ConstraintMut));
    accounts.beneficiary.is_signer = false;
    assert_eq!(update_staker(&mut accounts, Some(key(40))), Err(ErrorCode::AccountNotSigner));
}

fn vault_update() -> UpdateStakerVault {
    UpdateStakerVault {
        pool: pool(),
        staker: Account { info: info(5), data: blank() },
        staker_vault: vaults(),
        staker_vault_authority: info(AUTHORITY),
    }
}

fn locked_vault_update() -> UpdateStakerVaultLocked {
    UpdateStakerVaultLocked {
        pool: pool(),
        staker: Account { info: info(5), data: blank() },
        staker_vault_locked: vaults(),
        staker_vault_authority: info(AUTHORITY),
    }
}

#[test]
fn token_accounts_are_recorded() {
    let mut accounts = vault_update();
    assert_eq!(update_staker_vault(&mut accounts, 0), Ok(()));
    assert_eq!(accounts.staker.data, Staker { staker_vault: vault_keys(), ..blank() });
    assert_eq!(StakerVault::from(&accounts.staker_vault), vault_keys());
    assert!(vault_keys().same(&accounts.staker.data.staker_vault));
    assert!(!vault_keys().same(&no_vault()));
}

#[test]
fn locked_token_accounts_are_recorded_apart() {
    let mut accounts = locked_vault_update();
    assert_eq!(update_staker_vault_locked(&mut accounts, 0), Ok(()));
    assert_eq!(accounts.staker.data, Staker { staker_vault_locked: vault_keys(), ..blank() });
}

#[test]
fn token_accounts_must_agree_with_each_other() {
    assert_eq!(vaults().check(), Ok(()));

    let mut v = vaults();
    v.vault.data.owner = key(99);
    assert_eq!(v.check(), Err(ErrorCode::ConstraintRaw));
    v.vault.info.is_writable = false;
    assert_eq!(v.check(), Err(ErrorCode::ConstraintMut));

    let mut v = vaults();
    v.vault_staked.data.owner = key(99);
    assert_eq!(v.check(), Err(ErrorCode::ConstraintRaw));
    let mut v = vaults();
    v.vault_staked.data.mint = key(99);
    assert_eq!(v.check(), Err(ErrorCode::ConstraintRaw));
    v.vault_staked.info.is_writable = false;
    assert_eq!(v.check(), Err(ErrorCode::ConstraintMut));

    let mut v = vaults();
    v.vault_pending_withdrawal.data.owner = key(99);
    assert_eq!(v.check(), Err(ErrorCode::ConstraintRaw));
    let mut v = vaults();
    v.vault_pending_withdrawal.data.mint = key(99);
    assert_eq!(v.check(), Err(ErrorCode::ConstraintRaw));
    v.vault_pending_withdrawal.info.is_writable = false;
    assert_eq!(v.check(), Err(ErrorCode::ConstraintMut));

    let mut v = vaults();
    v.vault_pool_token.info.is_writable = false;
    assert_eq!(v.check(), Err(ErrorCode::ConstraintMut));
    v.vault_pool_token.data.owner = key(99);
    assert_eq!(v.check(), Err(ErrorCode::ConstraintRaw));
}

#[test]
fn recording_token_accounts_is_refused() {
    let mut accounts = vault_update();
    accounts.staker_vault_authority.key = key(99);
    assert_eq!(update_staker_vault(&mut accounts, 0), Err(ErrorCode::ConstraintRaw));

    let mut accounts = vault_update();
    accounts.pool.data.pool_mint = key(99);
    assert_eq!(update_staker_vault(&mut accounts, 0), Err(ErrorCode::ConstraintRaw));

    let mut accounts = vault_update();
    accounts.pool.data.mint = key(99);
    assert_eq!(update_staker_vault(&mut accounts, 0), Err(ErrorCode::ConstraintRaw));
    accounts.staker.info.is_writable = false;
    assert_eq!(update_staker_vault(&mut accounts, 0), Err(ErrorCode::ConstraintMut));
    accounts.staker_vault.vault_staked.data.mint = key(99);
    assert_eq!(update_staker_vault(&mut accounts, 0), Err(ErrorCode::ConstraintRaw));
    assert_eq!(accounts.staker.data, blank());

    let mut accounts = locked_vault_update();
    accounts.pool.data.mint = key(99);
    assert_eq!(update_staker_vault_locked(&mut accounts, 0), Err(ErrorCode::ConstraintRaw));
    accounts.staker.info.is_writable = false;
    assert_eq!(update_staker_vault_locked(&mut accounts, 0), Err(ErrorCode::ConstraintMut));
    accounts.staker_vault_locked.vault_staked.data.mint = key(99);
    assert_eq!(update_staker_vault_locked(&mut accounts, 0), Err(ErrorCode::ConstraintRaw));
    assert_eq!(accounts.staker.data, blank());
}
