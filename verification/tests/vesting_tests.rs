use launchpad::errors::LaunchpadError;
use launchpad::lifecycle::complete_migration;
use launchpad::lifecycle::try_trigger_migration;
use launchpad::states::AmmCreatorFeeOn;
use launchpad::states::CurveKind;
use launchpad::states::MigrateType;
use launchpad::states::PoolState;
use launchpad::states::PoolStatus;
use launchpad::states::TokenProgramFlag;
use launchpad::states::VestingRecord;
use launchpad::states::VestingSchedule;
use launchpad::states::SCHEMA_VERSION;
use launchpad::vesting::claim_vested_token;
use launchpad::vesting::claimable;
use launchpad::vesting::create_vesting_account;

fn schedule(total: u64, cliff: u64, unlock: u64, start: u64) -> VestingSchedule {
    VestingSchedule {
        total_locked_amount: total,
        cliff_period: cliff,
        unlock_period: unlock,
        start_time: start,
        allocated_share_amount: total,
    }
}

fn record(share: u64, claimed: u64) -> VestingRecord {
    VestingRecord { pool: 1, beneficiary: 2, claimed_amount: claimed, token_share_amount: share }
}

fn pool_with_schedule(status: PoolStatus, sched: VestingSchedule) -> PoolState {
    PoolState {
        schema_version: SCHEMA_VERSION,
        status,
        curve_kind: CurveKind::Constant,
        migrate_type: MigrateType::AMM,
        base_decimals: 6,
        quote_decimals: 9,
        supply: 10_000,
        total_base_sell: 5_000,
        virtual_base: 1_000,
        virtual_quote: 100,
        real_base: 5_000,
        real_quote: 0,
        total_quote_fund_raising: 1_000,
        quote_protocol_fee: 0,
        platform_fee: 0,
        migrate_fee: 0,
        vesting_schedule: sched,
        global_config: 1,
        platform_config: 2,
        base_mint: 3,
        quote_mint: 4,
        base_vault: 5,
        quote_vault: 6,
        creator: 7,
        base_token_program: TokenProgramFlag::SPLTokenProgram,
        quote_token_program: TokenProgramFlag::SPLTokenProgram,
        amm_creator_fee_on: AmmCreatorFeeOn::QuoteToken,
    }
}

#[test]
fn linear_release_schedule() {
    // total 1000, cliff 100 s, unlock 1000 s, started at 0
    let sched = schedule(1_000, 100, 1_000, 0);
    let rec = record(1_000, 0);
    assert_eq!(claimable(&sched, &rec, 50), 0);
    assert_eq!(claimable(&sched, &rec, 100), 0);
    assert_eq!(claimable(&sched, &rec, 600), 500);
    assert_eq!(claimable(&sched, &rec, 1_100), 1_000);
    assert_eq!(claimable(&sched, &rec, u64::MAX), 1_000);
}

#[test]
fn release_is_floor_rounded_and_monotonic() {
    let sched = schedule(1_000, 0, 3, 0);
    let rec = record(1_000, 0);
    assert_eq!(claimable(&sched, &rec, 0), 0);
    assert_eq!(claimable(&sched, &rec, 1), 333);
    assert_eq!(claimable(&sched, &rec, 2), 666);
    // the truncated remainder becomes claimable at the final instant
    assert_eq!(claimable(&sched, &rec, 3), 1_000);
    let mut last = 0;
    for t in 0..5u64 {
        let c = claimable(&sched, &rec, t);
        assert!(c >= last);
        last = c;
    }
}

#[test]
fn claimable_subtracts_what_was_claimed() {
    let sched = schedule(1_000, 100, 1_000, 0);
    let rec = record(1_000, 400);
    assert_eq!(claimable(&sched, &rec, 600), 100);
    assert_eq!(claimable(&sched, &rec, 450), 0);
}

#[test]
fn claims_accumulate_without_double_counting() {
    let sched = schedule(1_000, 100, 1_000, 0);
    let pool = pool_with_schedule(PoolStatus::Migrate, sched);
    let mut rec = record(1_000, 0);
    assert_eq!(claim_vested_token(&pool, &mut rec, 600), Ok(500));
    assert_eq!(rec.claimed_amount, 500);
    // the same interval cannot be claimed twice
    assert_eq!(
        claim_vested_token(&pool, &mut rec, 600),
        Err(LaunchpadError::NothingToClaim)
    );
    // a later claim pays only the delta
    assert_eq!(claim_vested_token(&pool, &mut rec, 1_100), Ok(500));
    assert_eq!(rec.claimed_amount, 1_000);
}

#[test]
fn claims_wait_for_funding_to_end() {
    let sched = schedule(1_000, 0, 10, 0);
    let pool = pool_with_schedule(PoolStatus::Fund, sched);
    let mut rec = record(1_000, 0);
    assert_eq!(
        claim_vested_token(&pool, &mut rec, 1_000),
        Err(LaunchpadError::PoolNotTrading)
    );
    assert_eq!(rec.claimed_amount, 0);
}

#[test]
fn vesting_account_allocation_is_bounded() {
    let mut sched = schedule(1_000, 100, 1_000, 0);
    sched.allocated_share_amount = 0;
    let mut pool = pool_with_schedule(PoolStatus::Fund, sched);
    let rec = create_vesting_account(&mut pool, 42, 43, 600).unwrap();
    assert_eq!(rec.token_share_amount, 600);
    assert_eq!(rec.claimed_amount, 0);
    assert_eq!(rec.pool, 42);
    assert_eq!(rec.beneficiary, 43);
    assert_eq!(pool.vesting_schedule.allocated_share_amount, 600);
    // the rest of the locked amount can still be allocated...
    assert!(create_vesting_account(&mut pool, 42, 44, 400).is_ok());
    // ...but nothing beyond it
    assert_eq!(
        create_vesting_account(&mut pool, 42, 45, 1),
        Err(LaunchpadError::InsufficientLiquidity)
    );
    // and a zero share is rejected outright
    assert_eq!(
        create_vesting_account(&mut pool, 42, 46, 0),
        Err(LaunchpadError::InvalidConfig)
    );
}

#[test]
fn vesting_accounts_only_during_funding() {
    let sched = schedule(1_000, 100, 1_000, 0);
    let mut pool = pool_with_schedule(PoolStatus::Migrate, sched);
    assert_eq!(
        create_vesting_account(&mut pool, 42, 43, 100),
        Err(LaunchpadError::PoolNotTrading)
    );
}

#[test]
fn migration_trigger_fires_once() {
    let sched = schedule(0, 0, 0, 0);
    let mut pool = pool_with_schedule(PoolStatus::Fund, sched);
    pool.real_quote = pool.total_quote_fund_raising;
    assert!(try_trigger_migration(&mut pool, 123));
    assert_eq!(pool.status, PoolStatus::Migrate);
    assert_eq!(pool.vesting_schedule.start_time, 123);
    // a second offer changes nothing, the clock keeps its first value
    let before = pool;
    assert!(!try_trigger_migration(&mut pool, 456));
    assert_eq!(pool, before);
}

#[test]
fn migration_trigger_waits_for_the_target() {
    let sched = schedule(0, 0, 0, 0);
    let mut pool = pool_with_schedule(PoolStatus::Fund, sched);
    pool.real_quote = pool.total_quote_fund_raising - 1;
    assert!(!try_trigger_migration(&mut pool, 123));
    assert_eq!(pool.status, PoolStatus::Fund);
}

#[test]
fn migration_completes_exactly_once() {
    let sched = schedule(0, 0, 0, 0);
    let mut pool = pool_with_schedule(PoolStatus::Migrate, sched);
    assert_eq!(complete_migration(&mut pool), Ok(()));
    assert_eq!(pool.status, PoolStatus::Trade);
    // a retry sees the terminal state and fails without touching anything
    let before = pool;
    assert_eq!(complete_migration(&mut pool), Err(LaunchpadError::PoolNotTrading));
    assert_eq!(pool, before);
    // and a funding pool cannot skip ahead
    let mut fresh = pool_with_schedule(PoolStatus::Fund, schedule(0, 0, 0, 0));
    assert_eq!(complete_migration(&mut fresh), Err(LaunchpadError::PoolNotTrading));
}
