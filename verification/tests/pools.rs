use pool_manager::account::{Account, AccountInfo, Mint, NewAccount};
use pool_manager::error::ErrorCode;
use pool_manager::key::Pubkey;
use pool_manager::pool::{create_pool, update_pool, CreatePool, Pool, UpdatePool};
use pool_manager::queue::{RewardEvent, RewardQueue};

fn key(byte: u8) -> Pubkey {
    Pubkey { bytes: [byte; 32] }
}

fn info(byte: u8) -> AccountInfo {
    AccountInfo { key: key(byte), is_signer: false, is_writable: true }
}

fn fresh<T>(byte: u8, data: T) -> NewAccount<T> {
    NewAccount { info: info(byte), discriminator: 0, rent_exempt: true, data }
}

fn blank() -> Pool {
    Pool {
        authority: key(0),
        nonce: 0,
        withdrawal_timelock: 0,
        reward_event_q: key(0),
        mint: key(0),
        pool_mint: key(0),
        stake_rate: 0,
    }
}

fn creation() -> CreatePool {
    CreatePool {
        pool: fresh(1, blank()),
        reward_event_q: fresh(2, RewardQueue::from_parts(0, 0, Vec::new())),
        pool_mint: Account { info: info(3), data: Mint { supply: 0, decimals: 0 } },
    }
}

fn create(accounts: &mut CreatePool) -> Result<(), ErrorCode> {
    create_pool(accounts, key(10), key(11), 254, 60, 3, 5)
}

#[test]
fn a_pool_is_created() {
    let mut accounts = creation();
    assert_eq!(create(&mut accounts), Ok(()));
    assert_eq!(
        accounts.pool.data,
        Pool {
            authority: key(11),
            nonce: 254,
            withdrawal_timelock: 60,
            reward_event_q: key(2),
            mint: key(10),
            pool_mint: key(3),
            stake_rate: 3,
        }
    );
    assert_eq!(accounts.reward_event_q.data.capacity(), 5);
    assert_eq!(*accounts.reward_event_q.data.get(4), RewardEvent::default());
    assert_eq!(accounts.reward_event_q.data.head(), 0);
}

#[test]
fn a_pool_may_have_no_slots() {
    let mut accounts = creation();
    assert_eq!(create_pool(&mut accounts, key(10), key(11), 1, 60, 3, 0), Ok(()));
    assert_eq!(accounts.reward_event_q.data.capacity(), 0);
}

#[test]
fn creation_is_refused() {
    let mut accounts = creation();
    accounts.pool.discriminator = 1;
    assert_eq!(create(&mut accounts), Err(ErrorCode::ConstraintZero));
    assert_eq!(accounts.pool.data, blank());

    let mut accounts = creation();
    accounts.pool.info.is_writable = false;
    accounts.pool.rent_exempt = false;
    assert_eq!(create(&mut accounts), Err(ErrorCode::ConstraintMut));

    let mut accounts = creation();
    accounts.pool.rent_exempt = false;
    accounts.reward_event_q.discriminator = 1;
    assert_eq!(create(&mut accounts), Err(ErrorCode::ConstraintRentExempt));

    let mut accounts = creation();
    accounts.reward_event_q.discriminator = 1;
    assert_eq!(create(&mut accounts), Err(ErrorCode::ConstraintZero));

    let mut accounts = creation();
    accounts.pool_mint.data.decimals = 6;
    assert_eq!(create(&mut accounts), Err(ErrorCode::ConstraintRaw));
    assert_eq!(accounts.pool.data, blank());
    assert_eq!(accounts.reward_event_q.data.capacity(), 0);
}

fn update_by(signer: u8) -> UpdatePool {
    let mut created = creation();
    create(&mut created).unwrap();
    UpdatePool {
        pool: Account { info: info(1), data: created.pool.data },
        authority: AccountInfo { key: key(signer), is_signer: true, is_writable: false },
    }
}

#[test]
fn a_pool_is_updated_by_its_authority() {
    let mut accounts = update_by(11);
    assert_eq!(update_pool(&mut accounts, Some(key(12)), Some(-1)), Ok(()));
    assert_eq!(accounts.pool.data.authority, key(12));
    assert_eq!(accounts.pool.data.withdrawal_timelock, -1);
    assert_eq!(accounts.pool.data.stake_rate, 3);

    let mut accounts = update_by(11);
    let before = accounts.pool;
    assert_eq!(update_pool(&mut accounts, None, None), Ok(()));
    assert_eq!(accounts.pool, before);

    let mut accounts = update_by(11);
    assert_eq!(update_pool(&mut accounts, None, Some(7)), Ok(()));
    assert_eq!(accounts.pool.data.authority, key(11));
    assert_eq!(accounts.pool.data.withdrawal_timelock, 7);
}

#[test]
fn a_pool_that_was_handed_over_refuses_its_old_authority() {
    let mut accounts = update_by(11);
    update_pool(&mut accounts, Some(key(12)), None).unwrap();
    assert_eq!(update_pool(&mut accounts, None, Some(1)), Err(ErrorCode::ConstraintHasOne));
    accounts.authority.key = key(12);
    assert_eq!(update_pool(&mut accounts, None, Some(1)), Ok(()));
}

#[test]
fn an_update_is_refused() {
    let mut accounts = update_by(12);
    let before = accounts.pool;
    assert_eq!(
        update_pool(&mut accounts, Some(key(12)), None),
        Err(ErrorCode::ConstraintHasOne)
    );
    assert_eq!(accounts.pool, before);

    accounts.pool.info.is_writable = false;
    assert_eq!(update_pool(&mut accounts, Some(key(12)), None), Err(ErrorCode::ConstraintMut));

    accounts.authority.is_signer = false;
    assert_eq!(update_pool(&mut accounts, Some(key(12)), None), Err(ErrorCode::AccountNotSigner));
}
