use pool_manager::account::{Account, AccountInfo, Clock, Mint, NewAccount, TokenAccount};
use pool_manager::address::{find_manager, SignerSeeds};
use pool_manager::error::ErrorCode;
use pool_manager::key::Pubkey;
use pool_manager::manager::{set_locker_manager_at, Auth, PoolManagerInfo};
use pool_manager::pool::Pool;
use pool_manager::queue::{RewardEvent, RewardQueue};
use pool_manager::rewards::{
    claim_reward, claim_reward_at, claim_reward_to_locker, claim_reward_to_locker_at, drop_reward,
    expire_reward, expire_reward_at, try_claim_reward, try_claim_reward_to_locker,
    try_drop_reward, ClaimReward, ClaimRewardCommon, ClaimRewardToLocker, CreateLocker,
    DropReward, ExpireReward, RewardKeeper, Rewarder, RewarderKind,
};
use pool_manager::staker::{Staker, StakerVault};
use pool_manager::token::Transfer;

const REWARDER_AUTHORITY: [u8; 32] = [
    1, 140, 140, 120, 11, 1, 106, 238, 30, 165, 131, 60, 77, 33, 249, 227, 102, 132, 33, 119, 246,
    88, 47, 26, 35, 249, 4, 17, 123, 121, 181, 240,
];

const PROGRAM: u8 = 9;
const POOL_MINT: u8 = 11;
const RING: u8 = 12;
const BENEFICIARY: u8 = 13;
const VAULT: u8 = 40;
const LOCKERS: u8 = 50;
const KEEPER: u8 = 51;
const MANAGER_NONCE: u64 = 7;

fn key(byte: u8) -> Pubkey {
    Pubkey { bytes: [byte; 32] }
}

fn info(byte: u8) -> AccountInfo {
    AccountInfo { key: key(byte), is_signer: false, is_writable: true }
}

fn plain(key: Pubkey) -> AccountInfo {
    AccountInfo { key, is_signer: false, is_writable: false }
}

fn signer(byte: u8) -> AccountInfo {
    AccountInfo { key: key(byte), is_signer: true, is_writable: false }
}

fn authority() -> Pubkey {
    Pubkey { bytes: REWARDER_AUTHORITY }
}

fn seeds() -> SignerSeeds {
    SignerSeeds::Record { pool: key(1), record: key(5), bump: 253 }
}

fn pool() -> Account<Pool> {
    Account {
        info: info(1),
        data: Pool {
            authority: key(3),
            nonce: 255,
            withdrawal_timelock: 60,
            reward_event_q: key(RING),
            mint: key(10),
            pool_mint: key(POOL_MINT),
            stake_rate: 3,
        },
    }
}

fn locked() -> RewarderKind {
    RewarderKind::Locked { start_ts: 100, end_ts: 200, period_count: 4 }
}

fn reward(kind: RewarderKind) -> Rewarder {
    Rewarder {
        pool: key(1),
        vault: key(VAULT),
        mint: key(41),
        nonce: 253,
        pool_token_supply: 1000,
        reward_event_q_cursor: 2,
        start_ts: 3000,
        expiry_ts: 9000,
        expiry_receiver: key(60),
        from: key(61),
        total: 500,
        expired: false,
        kind,
    }
}

fn blank() -> Rewarder {
    Rewarder {
        pool: key(0),
        vault: key(0),
        mint: key(0),
        nonce: 0,
        pool_token_supply: 0,
        reward_event_q_cursor: 0,
        start_ts: 0,
        expiry_ts: 0,
        expiry_receiver: key(0),
        from: key(0),
        total: 0,
        expired: false,
        kind: RewarderKind::Unlocked,
    }
}

fn ring() -> RewardQueue {
    let mut queue = RewardQueue::from_parts(0, 0, Vec::new());
    queue.resize(4);
    queue.append(RewardEvent::default()).unwrap();
    queue.append(RewardEvent::default()).unwrap();
    queue
}

fn drops() -> DropReward {
    DropReward {
        pool: pool(),
        reward_event_q: Account { info: info(RING), data: ring() },
        pool_mint: Account { info: info(POOL_MINT), data: Mint { supply: 1000, decimals: 0 } },
        rewarder: NewAccount {
            info: info(5),
            discriminator: 0,
            rent_exempt: true,
            data: blank(),
        },
        rewarder_vault: Account {
            info: info(VAULT),
            data: TokenAccount { mint: key(41), owner: authority(), amount: 0 },
        },
        depositor: info(62),
        depositor_authority: signer(61),
        clock: Clock { unix_timestamp: 3000 },
    }
}

fn filling() -> Transfer {
    Transfer { from: key(62), to: key(VAULT), authority: key(61), amount: 500, signer: None }
}

fn drop_one(accounts: &mut DropReward, kind: RewarderKind) -> Result<Transfer, ErrorCode> {
    drop_reward(accounts, kind, 500, 9000, key(60), 253)
}

#[test]
fn a_reward_is_dropped() {
    for kind in [RewarderKind::Unlocked, locked()] {
        let mut accounts = drops();
        assert_eq!(drop_one(&mut accounts, kind), Ok(filling()));
        assert_eq!(accounts.rewarder.data, reward(kind));
        let queue = &accounts.reward_event_q.data;
        assert_eq!(queue.head(), 3);
        assert_eq!(
            *queue.get(accounts.rewarder.data.reward_event_q_cursor),
            RewardEvent { rewarder: key(5), ts: 3000, locked: kind != RewarderKind::Unlocked }
        );
    }
}

#[test]
fn later_rewards_have_larger_cursors() {
    let mut accounts = drops();
    drop_one(&mut accounts, locked()).unwrap();
    let first = accounts.rewarder.data.reward_event_q_cursor;
    drop_one(&mut accounts, locked()).unwrap();
    assert_eq!(accounts.rewarder.data.reward_event_q_cursor, first + 1);
}

#[test]
fn a_reward_is_not_dropped_into_a_ring_without_slots() {
    let mut accounts = drops();
    assert_eq!(
        try_drop_reward(&mut accounts, locked(), 500, 9000, key(60), 253),
        Some(Ok(filling()))
    );
    let mut accounts = drops();
    accounts.reward_event_q.data.resize(0);
    assert_eq!(try_drop_reward(&mut accounts, locked(), 500, 9000, key(60), 253), None);
    assert_eq!(accounts.rewarder.data, blank());
    accounts.depositor_authority.is_signer = false;
    assert_eq!(
        try_drop_reward(&mut accounts, locked(), 500, 9000, key(60), 253),
        Some(Err(ErrorCode::AccountNotSigner))
    );
}

#[test]
fn dropping_is_refused() {
    let mut accounts = drops();
    accounts.depositor.is_writable = false;
    assert_eq!(drop_one(&mut accounts, locked()), Err(ErrorCode::ConstraintMut));
    accounts.rewarder.discriminator = 4;
    assert_eq!(drop_one(&mut accounts, locked()), Err(ErrorCode::ConstraintZero));
    accounts.reward_event_q.info.is_writable = false;
    assert_eq!(drop_one(&mut accounts, locked()), Err(ErrorCode::ConstraintMut));
    accounts.pool_mint.info.key = key(99);
    assert_eq!(drop_one(&mut accounts, locked()), Err(ErrorCode::ConstraintHasOne));
    accounts.depositor_authority.is_signer = false;
    assert_eq!(drop_one(&mut accounts, locked()), Err(ErrorCode::AccountNotSigner));
    assert_eq!(accounts.rewarder.data, blank());
    assert_eq!(accounts.reward_event_q.data.head(), 2);

    let mut accounts = drops();
    accounts.rewarder_vault.info.is_writable = false;
    assert_eq!(drop_one(&mut accounts, locked()), Err(ErrorCode::ConstraintMut));
    let mut accounts = drops();
    accounts.reward_event_q.info.key = key(99);
    assert_eq!(drop_one(&mut accounts, locked()), Err(ErrorCode::ConstraintHasOne));
}

fn keys(first: u8) -> StakerVault {
    StakerVault {
        vault: key(first),
        vault_staked: key(first + 1),
        vault_pending_withdrawal: key(first + 2),
        vault_pool_token: key(first + 3),
    }
}

fn pool_tokens(byte: u8, amount: u64) -> Account<TokenAccount> {
    Account {
        info: info(byte),
        data: TokenAccount { mint: key(POOL_MINT), owner: key(0), amount },
    }
}

fn staker() -> Staker {
    Staker {
        pool: key(1),
        beneficiary: key(BENEFICIARY),
        metadata: key(0),
        staker_vault: keys(20),
        staker_vault_locked: keys(30),
        rewards_cursor: 0,
        last_stake_ts: 5,
        nonce: 255,
    }
}

fn common(kind: RewarderKind) -> ClaimRewardCommon {
    ClaimRewardCommon {
        pool: pool(),
        staker: Account { info: info(2), data: staker() },
        beneficiary: signer(BENEFICIARY),
        staker_vault_pool_token: pool_tokens(23, 200),
        staker_vault_locked_pool_token: pool_tokens(33, 101),
        rewarder: Account { info: plain(key(5)), data: reward(kind) },
        vault: info(VAULT),
        rewarder_vault_authority: plain(authority()),
    }
}

fn claims() -> ClaimReward {
    ClaimReward { common: common(RewarderKind::Unlocked), to: info(70) }
}

fn payment() -> Transfer {
    Transfer {
        from: key(VAULT),
        to: key(70),
        authority: authority(),
        amount: 150,
        signer: Some(seeds()),
    }
}

#[test]
fn a_reward_is_claimed() {
    let mut accounts = claims();
    assert_eq!(claim_reward(&mut accounts, &key(PROGRAM)), Ok(payment()));
    assert_eq!(accounts.common.staker.data, Staker { rewards_cursor: 3, ..staker() });

    let mut accounts = claims();
    assert_eq!(try_claim_reward(&mut accounts, &key(PROGRAM)), Some(Ok(payment())));
    assert_eq!(payment().signer.unwrap().derive(&key(PROGRAM)), Some(payment().authority));
}

#[test]
fn a_share_is_rounded_down() {
    let mut common = common(RewarderKind::Unlocked);
    assert_eq!(common.reward_amount(), Some(150));
    common.staker_vault_pool_token.data.amount = 899;
    assert_eq!(common.reward_amount(), Some(500));
    common.staker_vault_pool_token.data.amount = 0;
    common.staker_vault_locked_pool_token.data.amount = 3;
    assert_eq!(common.reward_amount(), Some(1));
    common.staker_vault_locked_pool_token.data.amount = 1;
    assert_eq!(common.reward_amount(), None);
}

#[test]
fn shares_stay_within_the_reward() {
    let mut paid = 0;
    for held in [333u64, 333, 333, 1] {
        let mut common = common(RewarderKind::Unlocked);
        common.staker_vault_pool_token.data.amount = held;
        common.staker_vault_locked_pool_token.data.amount = 0;
        paid += common.reward_amount().unwrap_or(0);
    }
    assert_eq!(paid, 498);
}

#[test]
fn a_reward_that_cannot_be_computed_is_not_claimed() {
    let mut accounts = claims();
    accounts.common.staker_vault_pool_token.data.amount = u64::MAX;
    assert_eq!(try_claim_reward(&mut accounts, &key(PROGRAM)), None);
    accounts.common.staker_vault_pool_token.data.amount = u64::MAX / 500;
    assert_eq!(try_claim_reward(&mut accounts, &key(PROGRAM)), None);
    accounts = claims();
    accounts.common.rewarder.data.pool_token_supply = 0;
    assert_eq!(try_claim_reward(&mut accounts, &key(PROGRAM)), None);
    accounts = claims();
    accounts.common.rewarder.data.total = 3;
    assert_eq!(try_claim_reward(&mut accounts, &key(PROGRAM)), None);
    accounts = claims();
    accounts.common.rewarder.data.reward_event_q_cursor = u32::MAX;
    assert_eq!(try_claim_reward(&mut accounts, &key(PROGRAM)), None);
    assert_eq!(accounts.common.staker.data, staker());
    accounts.to.is_writable = false;
    assert_eq!(
        try_claim_reward(&mut accounts, &key(PROGRAM)),
        Some(Err(ErrorCode::ConstraintMut))
    );
}

#[test]
fn a_claim_is_refused() {
    let at = Some(authority());
    assert_eq!(claim_reward_at(&mut claims(), &at), Ok(payment()));
    let mut accounts = claims();
    accounts.to.is_writable = false;
    assert_eq!(claim_reward_at(&mut accounts, &at), Err(ErrorCode::ConstraintMut));
    assert_eq!(claim_reward_at(&mut accounts, &None), Err(ErrorCode::ConstraintSeeds));
    assert_eq!(claim_reward(&mut accounts, &key(8)), Err(ErrorCode::ConstraintSeeds));
    accounts.common.vault.is_writable = false;
    assert_eq!(claim_reward_at(&mut accounts, &None), Err(ErrorCode::ConstraintMut));
    accounts.common.vault.key = key(99);
    assert_eq!(claim_reward_at(&mut accounts, &None), Err(ErrorCode::ConstraintHasOne));
    accounts.common.staker_vault_locked_pool_token.info.key = key(99);
    assert_eq!(claim_reward_at(&mut accounts, &None), Err(ErrorCode::ConstraintRaw));
    accounts.common.beneficiary.key = key(99);
    assert_eq!(claim_reward_at(&mut accounts, &None), Err(ErrorCode::ConstraintHasOne));
    accounts.common.staker.info.is_writable = false;
    assert_eq!(claim_reward_at(&mut accounts, &None), Err(ErrorCode::ConstraintMut));
    accounts.common.beneficiary.is_signer = false;
    assert_eq!(claim_reward_at(&mut accounts, &None), Err(ErrorCode::AccountNotSigner));
    assert_eq!(accounts.common.staker.data, staker());

    let mut accounts = claims();
    accounts.common.staker_vault_pool_token.info.key = key(99);
    assert_eq!(claim_reward_at(&mut accounts, &at), Err(ErrorCode::ConstraintRaw));
    let mut accounts = claims();
    accounts.common.rewarder.data.pool = key(99);
    assert_eq!(claim_reward_at(&mut accounts, &at), Err(ErrorCode::ConstraintHasOne));
    let mut accounts = claims();
    accounts.common.staker.data.pool = key(99);
    assert_eq!(claim_reward_at(&mut accounts, &at), Err(ErrorCode::ConstraintHasOne));
}

fn locker_claims(manager: Pubkey) -> ClaimRewardToLocker {
    ClaimRewardToLocker {
        common: common(locked()),
        pool_manager_info: Account {
            info: plain(manager),
            data: PoolManagerInfo {
                authority: key(0),
                locker_manager_program: key(LOCKERS),
                reward_keeper_program: key(KEEPER),
            },
        },
        locker_manager_program: plain(key(LOCKERS)),
        reward_keeper_program: plain(key(KEEPER)),
    }
}

fn locker_accounts() -> Vec<Pubkey> {
    vec![key(80), key(81), key(82), key(83), key(84), key(85), key(86)]
}

fn locker_call() -> CreateLocker {
    CreateLocker {
        program: key(LOCKERS),
        locker: key(80),
        vault: key(81),
        depositor: key(82),
        depositor_authority: authority(),
        token_program: key(84),
        clock: key(85),
        rent: key(86),
        beneficiary: key(BENEFICIARY),
        deposit_amount: 150,
        nonce: 17,
        start_ts: 100,
        end_ts: 200,
        period_count: 4,
        reward_keeper: Some(RewardKeeper { program: key(KEEPER), metadata: key(2) }),
        signer: seeds(),
    }
}

#[test]
fn a_reward_is_claimed_into_a_locker() {
    let manager = find_manager(MANAGER_NONCE, &key(PROGRAM)).unwrap();
    let mut accounts = locker_claims(manager);
    assert_eq!(
        claim_reward_to_locker(
            &mut accounts,
            &key(PROGRAM),
            MANAGER_NONCE,
            17,
            &locker_accounts()
        ),
        Ok(locker_call())
    );
    assert_eq!(accounts.common.staker.data, Staker { rewards_cursor: 3, ..staker() });

    let mut accounts = locker_claims(manager);
    assert_eq!(
        try_claim_reward_to_locker(
            &mut accounts,
            &key(PROGRAM),
            MANAGER_NONCE,
            17,
            &locker_accounts()
        ),
        Some(Ok(locker_call()))
    );
}

#[test]
fn a_locker_without_its_accounts_is_not_made() {
    let manager = find_manager(MANAGER_NONCE, &key(PROGRAM)).unwrap();
    let mut accounts = locker_claims(manager);
    let mut few = locker_accounts();
    few.pop();
    assert_eq!(
        try_claim_reward_to_locker(&mut accounts, &key(PROGRAM), MANAGER_NONCE, 17, &few),
        None
    );
    accounts.common.rewarder.data.pool_token_supply = 0;
    assert_eq!(
        try_claim_reward_to_locker(
            &mut accounts,
            &key(PROGRAM),
            MANAGER_NONCE,
            17,
            &locker_accounts()
        ),
        None
    );
    assert_eq!(accounts.common.staker.data, staker());
    accounts.common.rewarder.data.kind = RewarderKind::Unlocked;
    assert_eq!(
        try_claim_reward_to_locker(&mut accounts, &key(PROGRAM), MANAGER_NONCE, 17, &few),
        Some(Err(ErrorCode::InvalidAccountData))
    );
}

#[test]
fn a_claim_into_a_locker_is_refused() {
    let at = Some(authority());
    let manager = key(90);
    let mut accounts = locker_claims(manager);
    assert_eq!(
        claim_reward_to_locker_at(&mut accounts, &at, &manager, 17, &locker_accounts()),
        Ok(locker_call())
    );
    let mut accounts = locker_claims(manager);
    let none = Vec::new();
    accounts.common.rewarder.data.kind = RewarderKind::Unlocked;
    assert_eq!(
        claim_reward_to_locker_at(&mut accounts, &at, &manager, 17, &none),
        Err(ErrorCode::InvalidAccountData)
    );
    accounts.reward_keeper_program.key = key(99);
    assert_eq!(
        claim_reward_to_locker_at(&mut accounts, &at, &manager, 17, &none),
        Err(ErrorCode::ConstraintRaw)
    );
    assert_eq!(
        claim_reward_to_locker_at(&mut accounts, &at, &key(91), 17, &none),
        Err(ErrorCode::ConstraintSeeds)
    );
    assert_eq!(
        claim_reward_to_locker(&mut accounts, &key(PROGRAM), MANAGER_NONCE, 17, &none),
        Err(ErrorCode::ConstraintSeeds)
    );
    accounts.common.beneficiary.is_signer = false;
    assert_eq!(
        claim_reward_to_locker(&mut accounts, &key(PROGRAM), MANAGER_NONCE, 17, &none),
        Err(ErrorCode::AccountNotSigner)
    );
    assert_eq!(accounts.common.staker.data, staker());

    let mut accounts = locker_claims(manager);
    accounts.locker_manager_program.key = key(99);
    assert_eq!(
        claim_reward_to_locker_at(&mut accounts, &at, &manager, 17, &none),
        Err(ErrorCode::ConstraintRaw)
    );
}

#[test]
fn both_ways_to_claim_pay_the_same() {
    let direct = claim_reward_at(&mut claims(), &Some(authority())).unwrap();
    let into_locker = claim_reward_to_locker_at(
        &mut locker_claims(key(90)),
        &Some(authority()),
        &key(90),
        17,
        &locker_accounts(),
    )
    .unwrap();
    assert_eq!(direct.amount, into_locker.deposit_amount);
}

fn expiries() -> ExpireReward {
    ExpireReward {
        pool: pool(),
        rewarder: Account { info: info(5), data: reward(locked()) },
        vault: Account {
            info: info(VAULT),
            data: TokenAccount { mint: key(41), owner: authority(), amount: 123 },
        },
        rewarder_vault_authority: plain(authority()),
        expiry_receiver: signer(60),
        expiry_receiver_token: info(63),
    }
}

#[test]
fn a_reward_expires() {
    let mut accounts = expiries();
    assert_eq!(
        expire_reward(&mut accounts, &key(PROGRAM)),
        Ok(Transfer {
            from: key(VAULT),
            to: key(63),
            authority: authority(),
            amount: 123,
            signer: Some(seeds()),
        })
    );
    assert_eq!(accounts.rewarder.data, Rewarder { expired: true, ..reward(locked()) });
}

#[test]
fn expiry_is_refused() {
    let at = Some(authority());
    let mut accounts = expiries();
    accounts.expiry_receiver_token.is_writable = false;
    assert_eq!(expire_reward_at(&mut accounts, &at), Err(ErrorCode::ConstraintMut));
    assert_eq!(expire_reward_at(&mut accounts, &None), Err(ErrorCode::ConstraintSeeds));
    assert_eq!(expire_reward(&mut accounts, &key(8)), Err(ErrorCode::ConstraintSeeds));
    accounts.vault.info.is_writable = false;
    assert_eq!(expire_reward_at(&mut accounts, &None), Err(ErrorCode::ConstraintMut));
    accounts.expiry_receiver.key = key(99);
    assert_eq!(expire_reward_at(&mut accounts, &None), Err(ErrorCode::ConstraintHasOne));
    accounts.rewarder.info.is_writable = false;
    assert_eq!(expire_reward_at(&mut accounts, &None), Err(ErrorCode::ConstraintMut));
    accounts.expiry_receiver.is_signer = false;
    assert_eq!(expire_reward_at(&mut accounts, &None), Err(ErrorCode::AccountNotSigner));
    assert_eq!(accounts.rewarder.data, reward(locked()));

    let mut accounts = expiries();
    accounts.vault.info.key = key(99);
    assert_eq!(expire_reward_at(&mut accounts, &at), Err(ErrorCode::ConstraintHasOne));
    let mut accounts = expiries();
    accounts.rewarder.data.pool = key(99);
    assert_eq!(expire_reward_at(&mut accounts, &at), Err(ErrorCode::ConstraintHasOne));
}

#[test]
fn a_dropped_reward_expires_to_its_receiver() {
    let mut dropping = drops();
    let filled = drop_one(&mut dropping, locked()).unwrap();
    let mut accounts = expiries();
    accounts.rewarder.data = dropping.rewarder.data;
    let transfer = expire_reward(&mut accounts, &key(PROGRAM)).unwrap();
    assert_eq!(transfer.from, filled.to);
    assert_eq!(transfer.amount, 123);

    let mut accounts = expiries();
    accounts.rewarder.data = dropping.rewarder.data;
    accounts.expiry_receiver = signer(61);
    assert_eq!(expire_reward(&mut accounts, &key(PROGRAM)), Err(ErrorCode::ConstraintHasOne));
}

#[test]
fn lockers_are_made_by_the_program_that_was_named_last() {
    let manager = find_manager(MANAGER_NONCE, &key(PROGRAM)).unwrap();
    let mut accounts = locker_claims(manager);
    let mut change = Auth { authority: signer(77), pool_manager_info: accounts.pool_manager_info };
    change.pool_manager_info.info.is_writable = true;
    set_locker_manager_at(&mut change, &manager, key(55)).unwrap();
    accounts.pool_manager_info.data = change.pool_manager_info.data;
    let claim = |accounts: &mut ClaimRewardToLocker| {
        claim_reward_to_locker(accounts, &key(PROGRAM), MANAGER_NONCE, 17, &locker_accounts())
    };
    assert_eq!(claim(&mut accounts), Err(ErrorCode::ConstraintRaw));
    accounts.locker_manager_program = plain(key(55));
    assert_eq!(claim(&mut accounts), Ok(CreateLocker { program: key(55), ..locker_call() }));
}

#[test]
fn a_reward_goes_to_a_locker_once() {
    let manager = find_manager(MANAGER_NONCE, &key(PROGRAM)).unwrap();
    let claim = |accounts: &mut ClaimRewardToLocker| {
        claim_reward_to_locker(accounts, &key(PROGRAM), MANAGER_NONCE, 17, &locker_accounts())
    };
    let mut accounts = locker_claims(manager);
    accounts.common.staker.data.rewards_cursor = 2;
    assert_eq!(claim(&mut accounts), Ok(locker_call()));
    let after = accounts.common.staker.data;
    assert_eq!(after.rewards_cursor, 3);
    assert_eq!(claim(&mut accounts), Err(ErrorCode::InvalidAccountData));
    assert_eq!(
        try_claim_reward_to_locker(
            &mut accounts,
            &key(PROGRAM),
            MANAGER_NONCE,
            17,
            &locker_accounts()
        ),
        Some(Err(ErrorCode::InvalidAccountData))
    );
    assert_eq!(accounts.common.staker.data, after);

    accounts.common.rewarder.data.reward_event_q_cursor = 3;
    assert_eq!(claim(&mut accounts), Ok(locker_call()));
    assert_eq!(accounts.common.staker.data.rewards_cursor, 4);
}

#[test]
fn a_reward_that_was_claimed_directly_goes_to_no_locker() {
    let manager = find_manager(MANAGER_NONCE, &key(PROGRAM)).unwrap();
    let mut direct = ClaimReward { common: common(locked()), ..claims() };
    claim_reward(&mut direct, &key(PROGRAM)).unwrap();
    let mut accounts = locker_claims(manager);
    accounts.common = direct.common;
    assert_eq!(
        claim_reward_to_locker_at(
            &mut accounts,
            &Some(authority()),
            &manager,
            17,
            &locker_accounts()
        ),
        Err(ErrorCode::InvalidAccountData)
    );
}
