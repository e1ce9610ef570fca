use zebec_stake::{
    init_lockup, stake_zbcn, unstake_zbcn, whitelist_staker, DurationMap, InitConfigParams,
    InitLockup, Lockup, Pubkey, Stake, StakeParams, Unstake, UserNonce, UserStakeData,
    WhitelistStaker, WhitelistStakerParams, ZbcnStakeError,
};

const YEAR: i64 = 31_536_000;

fn key(b: u8) -> Pubkey {
    Pubkey::new_from_array([b; 32])
}

const CREATOR: u8 = 1;
const REWARD: u8 = 2;
const STAKED: u8 = 3;
const POOL: u8 = 4;
const ALICE: u8 = 5;
const FEE_VAULT: u8 = 9;

fn pool_with(fee: u64, minimum_stake: u64) -> Lockup {
    let mut ctx = InitLockup {
        creator: key(CREATOR),
        lockup: Lockup::default(),
        lockup_key: key(POOL),
        reward_vault: key(10),
        stake_token: key(STAKED),
        reward_token: key(REWARD),
    };
    let params = InitConfigParams {
        name: "zbcn".to_string(),
        lock_period: 0,
        staking_end_time: 0,
        staking_start_time: 0,
        fee,
        fee_vault: key(FEE_VAULT),
        duration_map: vec![
            DurationMap { duration: YEAR as u64, reward: 1000 },
            DurationMap { duration: 100, reward: 5000 },
        ],
        minimum_stake,
    };
    let ev = init_lockup(&mut ctx, params).unwrap();
    assert_eq!(ev.name, "zbcn");
    assert!(ev.lockup == key(POOL));
    assert!(ev.reward_vault == key(10));
    assert!(ev.creator == key(CREATOR));
    assert_eq!(ev.duration_map.len(), 2);
    ctx.lockup
}

fn stake_ctx(pool: Lockup, counter: u64) -> Stake {
    Stake {
        staker: key(ALICE),
        lockup: pool,
        lockup_key: key(POOL),
        stake_pda: UserStakeData::default(),
        user_nonce: UserNonce { nonce: counter },
        stake_token: key(STAKED),
    }
}

fn record(amount: u64, lock_period: i64, created_time: i64) -> UserStakeData {
    UserStakeData {
        nonce: 0,
        created_time,
        staked_amount: amount,
        reward_amount: 0,
        stake_claimed: false,
        lock_period,
        staker: key(ALICE),
        lockup: key(POOL),
    }
}

fn unstake_ctx(pool: Lockup, rec: UserStakeData) -> Unstake {
    Unstake {
        staker: key(ALICE),
        lockup: pool,
        lockup_key: key(POOL),
        stake_pda: rec,
        reward_token: key(REWARD),
        stake_token: key(STAKED),
    }
}

fn whitelist_ctx(admin: u8, counter: u64) -> WhitelistStaker {
    WhitelistStaker {
        admin: key(admin),
        lockup: pool_with(0, 0),
        lockup_key: key(POOL),
        user_nonce: UserNonce { nonce: counter },
        staker: key(ALICE),
        stake_pda: UserStakeData::default(),
        stake_token: key(STAKED),
    }
}

#[test]
fn stake_advances_nonce_and_writes_unclaimed_record() {
    let mut ctx = stake_ctx(pool_with(0, 0), 3);
    let ev = stake_zbcn(&mut ctx, StakeParams { amount: 500, lock_period: YEAR, nonce: 3 }, 1_000)
        .unwrap();
    assert_eq!(ctx.user_nonce.get_nonce(), 4);
    assert_eq!(ctx.stake_pda.nonce, 3);
    assert!(!ctx.stake_pda.stake_claimed);
    assert_eq!(ctx.stake_pda.reward_amount, 0);
    assert_eq!(ctx.stake_pda.staked_amount, 500);
    assert_eq!(ctx.stake_pda.created_time, 1_000);
    assert_eq!(ctx.stake_pda.lock_period, YEAR);
    assert!(ctx.stake_pda.staker == key(ALICE));
    assert!(ctx.stake_pda.lockup == key(POOL));
    assert_eq!(ctx.lockup.staked_token.total_staked, 500);
    assert!(ev.staker == key(ALICE));
    assert_eq!((ev.stake_amount, ev.nonce, ev.lock_period), (500, 3, YEAR));
}

#[test]
fn consumed_nonce_is_refused_and_changes_nothing() {
    let mut ctx = stake_ctx(pool_with(0, 0), 0);
    stake_zbcn(&mut ctx, StakeParams { amount: 500, lock_period: YEAR, nonce: 0 }, 10).unwrap();
    let before_record = ctx.stake_pda;
    let r = stake_zbcn(&mut ctx, StakeParams { amount: 700, lock_period: 100, nonce: 0 }, 20);
    assert_eq!(r.unwrap_err(), ZbcnStakeError::InvalidNonce);
    assert_eq!(ctx.user_nonce.nonce, 1);
    assert_eq!(ctx.lockup.staked_token.total_staked, 500);
    assert_eq!(ctx.stake_pda.staked_amount, before_record.staked_amount);
    assert_eq!(ctx.stake_pda.created_time, 10);
}

#[test]
fn skipped_nonce_is_refused() {
    let mut ctx = stake_ctx(pool_with(0, 0), 0);
    let r = stake_zbcn(&mut ctx, StakeParams { amount: 1, lock_period: YEAR, nonce: 1 }, 0);
    assert_eq!(r.unwrap_err(), ZbcnStakeError::InvalidNonce);
    assert_eq!(ctx.user_nonce.nonce, 0);
}

#[test]
fn stake_in_wrong_token_is_refused() {
    let mut ctx = stake_ctx(pool_with(0, 0), 0);
    ctx.stake_token = key(REWARD);
    let r = stake_zbcn(&mut ctx, StakeParams { amount: 1, lock_period: YEAR, nonce: 0 }, 0);
    assert_eq!(r.unwrap_err(), ZbcnStakeError::InvalidStakeToken);
}

#[test]
fn stake_below_minimum_is_refused() {
    let mut ctx = stake_ctx(pool_with(0, 100), 0);
    let r = stake_zbcn(&mut ctx, StakeParams { amount: 99, lock_period: YEAR, nonce: 0 }, 0);
    assert_eq!(r.unwrap_err(), ZbcnStakeError::MinimumStakeNotMet);
    let r = stake_zbcn(&mut ctx, StakeParams { amount: 100, lock_period: YEAR, nonce: 0 }, 0);
    assert!(r.is_ok());
}

#[test]
fn stake_overflowing_total_is_refused() {
    let mut ctx = stake_ctx(pool_with(0, 0), 0);
    ctx.lockup.staked_token.total_staked = u64::MAX;
    let r = stake_zbcn(&mut ctx, StakeParams { amount: 1, lock_period: YEAR, nonce: 0 }, 0);
    assert_eq!(r.unwrap_err(), ZbcnStakeError::ArithmeticOverflow);
    assert_eq!(ctx.user_nonce.nonce, 0);
}

#[test]
fn unstake_pays_reward_net_principal_and_fee() {
    let mut ctx = unstake_ctx(pool_with(25, 0), record(1_000_000, YEAR, 0));
    let s = unstake_zbcn(&mut ctx, YEAR + 1).unwrap();
    assert_eq!(s.event.reward_amount, 100_000);
    assert_eq!(s.fee_amount, 25_000);
    assert_eq!(s.event.unstake_amount, 975_000);
    assert_eq!(s.event.lock_period, YEAR);
    assert!(s.event.staker == key(ALICE));
    assert!(ctx.stake_pda.stake_claimed);
    assert_eq!(ctx.stake_pda.reward_amount, 100_000);
    assert_eq!(ctx.stake_pda.staked_amount, 1_000_000);
}

#[test]
fn second_unstake_is_refused_and_changes_nothing() {
    let mut ctx = unstake_ctx(pool_with(25, 0), record(1_000_000, YEAR, 0));
    unstake_zbcn(&mut ctx, YEAR + 1).unwrap();
    let r = unstake_zbcn(&mut ctx, YEAR + 500);
    assert_eq!(r.unwrap_err(), ZbcnStakeError::RewardAlreadyClaimed);
    assert_eq!(ctx.stake_pda.reward_amount, 100_000);
    assert!(ctx.stake_pda.stake_claimed);
}

#[test]
fn unstake_boundary_is_strict() {
    let mut ctx = unstake_ctx(pool_with(0, 0), record(1_000_000, YEAR, 50));
    let r = unstake_zbcn(&mut ctx, 50 + YEAR - 1);
    assert_eq!(r.unwrap_err(), ZbcnStakeError::StakeNotClaimable);
    let r = unstake_zbcn(&mut ctx, 50 + YEAR);
    assert_eq!(r.unwrap_err(), ZbcnStakeError::StakeNotClaimable);
    assert!(!ctx.stake_pda.stake_claimed);
    assert!(ctx.stake_pda.is_ended(50 + YEAR + 1));
    assert!(!ctx.stake_pda.is_ended(50 + YEAR));
    assert!(unstake_zbcn(&mut ctx, 50 + YEAR + 1).is_ok());
}

#[test]
fn unstake_with_wrong_reward_token_is_refused() {
    let mut ctx = unstake_ctx(pool_with(0, 0), record(1_000_000, YEAR, 0));
    ctx.reward_token = key(STAKED);
    assert_eq!(unstake_zbcn(&mut ctx, YEAR + 1).unwrap_err(), ZbcnStakeError::InvalidRewardToken);
}

#[test]
fn unstake_with_wrong_stake_token_is_refused() {
    let mut ctx = unstake_ctx(pool_with(0, 0), record(1_000_000, YEAR, 0));
    ctx.stake_token = key(REWARD);
    assert_eq!(unstake_zbcn(&mut ctx, YEAR + 1).unwrap_err(), ZbcnStakeError::InvalidStakeToken);
}

#[test]
fn unstake_by_another_identity_is_refused() {
    let mut ctx = unstake_ctx(pool_with(0, 0), record(1_000_000, YEAR, 0));
    ctx.staker = key(6);
    assert_eq!(unstake_zbcn(&mut ctx, YEAR + 1).unwrap_err(), ZbcnStakeError::InvalidStaker);
    assert!(!ctx.stake_pda.stake_claimed);
}

#[test]
fn unstake_checks_run_in_order() {
    let mut rec = record(1_000_000, YEAR, 0);
    rec.stake_claimed = true;
    let mut ctx = unstake_ctx(pool_with(0, 0), rec);
    ctx.reward_token = key(STAKED);
    ctx.staker = key(6);
    assert_eq!(unstake_zbcn(&mut ctx, 0).unwrap_err(), ZbcnStakeError::RewardAlreadyClaimed);
}

#[test]
fn unlisted_lock_period_yields_reward_is_zero() {
    let mut ctx = unstake_ctx(pool_with(0, 0), record(1_000_000, 777, 0));
    assert_eq!(ctx.lockup.get_reward_for_duration(777), Some(0));
    assert_eq!(unstake_zbcn(&mut ctx, 1_000).unwrap_err(), ZbcnStakeError::RewardIsZero);
    assert!(!ctx.stake_pda.stake_claimed);
}

#[test]
fn fee_rate_above_whole_is_refused_at_unstake() {
    let mut ctx = unstake_ctx(pool_with(1500, 0), record(1_000_000, YEAR, 0));
    assert_eq!(
        unstake_zbcn(&mut ctx, YEAR + 1).unwrap_err(),
        ZbcnStakeError::FeeExceedsPrincipal
    );
}

#[test]
fn stake_then_unstake_round_trip() {
    let mut s = stake_ctx(pool_with(10, 0), 0);
    stake_zbcn(&mut s, StakeParams { amount: 2_000_000, lock_period: 100, nonce: 0 }, 5).unwrap();
    let mut u = unstake_ctx(s.lockup.clone(), s.stake_pda);
    let out = unstake_zbcn(&mut u, 106).unwrap();
    // 2_000_000 * 5000 * 100 / (10000 * 31_536_000) = 3.17
    assert_eq!(out.event.reward_amount, 3);
    assert_eq!(out.fee_amount, 20_000);
    assert_eq!(out.event.unstake_amount, 1_980_000);
}

#[test]
fn whitelist_by_non_creator_is_refused_and_changes_nothing() {
    let mut ctx = whitelist_ctx(ALICE, 2);
    let p = WhitelistStakerParams {
        amount: 10,
        nonce: 2,
        lock_period: YEAR,
        created_time: 0,
        claimed: false,
    };
    assert_eq!(whitelist_staker(&mut ctx, p).unwrap_err(), ZbcnStakeError::UnAuthorized);
    assert_eq!(ctx.user_nonce.nonce, 2);
    assert_eq!(ctx.stake_pda.staked_amount, 0);
    assert_eq!(ctx.lockup.staked_token.total_staked, 0);
}

#[test]
fn whitelist_registers_open_stake() {
    let mut ctx = whitelist_ctx(CREATOR, 0);
    let p = WhitelistStakerParams {
        amount: 10,
        nonce: 0,
        lock_period: YEAR,
        created_time: 77,
        claimed: false,
    };
    let ev = whitelist_staker(&mut ctx, p).unwrap();
    assert_eq!(ctx.user_nonce.nonce, 1);
    assert_eq!(ctx.stake_pda.created_time, 77);
    assert_eq!(ctx.stake_pda.reward_amount, 0);
    assert!(!ctx.stake_pda.stake_claimed);
    assert_eq!(ctx.lockup.staked_token.total_staked, 10);
    assert!(ev.staker == key(ALICE));
    assert_eq!((ev.amount, ev.nonce, ev.created_time, ev.claimed), (10, 0, 77, false));
}

#[test]
fn whitelist_registers_settled_stake_with_reward() {
    let mut ctx = whitelist_ctx(CREATOR, 0);
    let p = WhitelistStakerParams {
        amount: 1_000_000,
        nonce: 0,
        lock_period: YEAR,
        created_time: 0,
        claimed: true,
    };
    whitelist_staker(&mut ctx, p).unwrap();
    assert!(ctx.stake_pda.stake_claimed);
    assert_eq!(ctx.stake_pda.reward_amount, 100_000);
}

#[test]
fn whitelist_validation_errors() {
    let base = WhitelistStakerParams {
        amount: 10,
        nonce: 0,
        lock_period: YEAR,
        created_time: 0,
        claimed: false,
    };
    let mut ctx = whitelist_ctx(CREATOR, 0);
    let p = WhitelistStakerParams { lock_period: 0, ..base };
    assert_eq!(whitelist_staker(&mut ctx, p).unwrap_err(), ZbcnStakeError::InvalidLockPeriod);
    let p = WhitelistStakerParams { amount: 0, ..base };
    assert_eq!(whitelist_staker(&mut ctx, p).unwrap_err(), ZbcnStakeError::InvalidAmount);
    let p = WhitelistStakerParams { nonce: 1, ..base };
    assert_eq!(whitelist_staker(&mut ctx, p).unwrap_err(), ZbcnStakeError::InvalidNonce);
    ctx.stake_token = key(REWARD);
    assert_eq!(whitelist_staker(&mut ctx, base).unwrap_err(), ZbcnStakeError::InvalidStakeToken);
    assert_eq!(ctx.user_nonce.nonce, 0);
}

#[test]
fn error_messages() {
    assert_eq!(ZbcnStakeError::InvalidNonce.message(), "Invalid Nonce");
    assert_eq!(ZbcnStakeError::RewardIsZero.message(), "Reward Is Zero");
    assert_eq!(ZbcnStakeError::UnAuthorized.message(), "UnAuthorized");
}

#[test]
fn whitelist_checks_token_before_terms() {
    let mut ctx = whitelist_ctx(CREATOR, 0);
    ctx.stake_token = key(REWARD);
    let p = WhitelistStakerParams {
        amount: 0,
        nonce: 5,
        lock_period: 0,
        created_time: 0,
        claimed: false,
    };
    assert_eq!(whitelist_staker(&mut ctx, p).unwrap_err(), ZbcnStakeError::InvalidStakeToken);
    assert_eq!(ctx.user_nonce.nonce, 0);
    // a non-creator is refused before the token is looked at
    ctx.admin = key(ALICE);
    assert_eq!(whitelist_staker(&mut ctx, p).unwrap_err(), ZbcnStakeError::UnAuthorized);
}

#[test]
fn unstake_reward_beyond_u64_is_refused() {
    let mut pool = pool_with(0, 0);
    pool.set_duration_map(YEAR as u64, u64::MAX);
    let mut ctx = unstake_ctx(pool, record(u64::MAX, YEAR, 0));
    assert_eq!(unstake_zbcn(&mut ctx, YEAR + 1).unwrap_err(), ZbcnStakeError::ArithmeticOverflow);
    assert!(!ctx.stake_pda.stake_claimed);
    assert_eq!(ctx.stake_pda.reward_amount, 0);
}

#[test]
fn whitelist_settled_reward_beyond_u64_is_refused() {
    let mut ctx = whitelist_ctx(CREATOR, 0);
    ctx.lockup.set_duration_map(YEAR as u64, u64::MAX);
    let p = WhitelistStakerParams {
        amount: u64::MAX,
        nonce: 0,
        lock_period: YEAR,
        created_time: 0,
        claimed: true,
    };
    assert_eq!(whitelist_staker(&mut ctx, p).unwrap_err(), ZbcnStakeError::ArithmeticOverflow);
    assert_eq!(ctx.user_nonce.nonce, 0);
    // registered as open, the same stake owes nothing yet and is accepted
    let p = WhitelistStakerParams { claimed: false, ..p };
    assert!(whitelist_staker(&mut ctx, p).is_ok());
    assert_eq!(ctx.stake_pda.reward_amount, 0);
}
