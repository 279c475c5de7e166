use launchpad::errors::LaunchpadError;
use launchpad::states::AmmCreatorFeeOn;
use launchpad::states::CurveKind;
use launchpad::states::GlobalConfig;
use launchpad::states::MigrateType;
use launchpad::states::PlatformConfig;
use launchpad::states::PoolState;
use launchpad::states::PoolStatus;
use launchpad::states::TokenProgramFlag;
use launchpad::states::VestingSchedule;
use launchpad::states::SCHEMA_VERSION;
use launchpad::swap::buy_exact_in;
use launchpad::swap::buy_exact_out;
use launchpad::swap::sell_exact_in;
use launchpad::swap::sell_exact_out;

fn global_config(trade_fee_rate: u64, max_share_fee_rate: u64) -> GlobalConfig {
    GlobalConfig {
        curve_type: CurveKind::Constant,
        index: 0,
        migrate_fee: 0,
        trade_fee_rate,
        max_share_fee_rate,
        min_base_supply: 0,
        max_lock_rate: 1_000_000,
        min_base_sell_rate: 0,
        min_base_migrate_rate: 0,
        min_quote_fund_raising: 0,
        quote_mint: 1,
        protocol_fee_owner: 2,
        migrate_fee_owner: 3,
        migrate_to_amm_wallet: 4,
        migrate_to_cpswap_wallet: 5,
    }
}

fn platform_config(fee_rate: u64, creator_fee_rate: u64) -> PlatformConfig {
    PlatformConfig {
        platform_fee_wallet: 10,
        platform_nft_wallet: 11,
        platform_scale: 1_000_000,
        creator_scale: 0,
        burn_scale: 0,
        fee_rate,
        name: Vec::new(),
        web: Vec::new(),
        img: Vec::new(),
        cpswap_config: 12,
        creator_fee_rate,
        transfer_fee_extension_auth: 13,
        curve_params: Vec::new(),
    }
}

fn constant_pool(
    virtual_base: u64,
    virtual_quote: u64,
    total_base_sell: u64,
    real_base: u64,
    real_quote: u64,
    total_quote_fund_raising: u64,
) -> PoolState {
    PoolState {
        schema_version: SCHEMA_VERSION,
        status: PoolStatus::Fund,
        curve_kind: CurveKind::Constant,
        migrate_type: MigrateType::AMM,
        base_decimals: 6,
        quote_decimals: 9,
        supply: total_base_sell * 2,
        total_base_sell,
        virtual_base,
        virtual_quote,
        real_base,
        real_quote,
        total_quote_fund_raising,
        quote_protocol_fee: 0,
        platform_fee: 0,
        migrate_fee: 0,
        vesting_schedule: VestingSchedule {
            total_locked_amount: 0,
            cliff_period: 0,
            unlock_period: 0,
            start_time: 0,
            allocated_share_amount: 0,
        },
        global_config: 1,
        platform_config: 2,
        base_mint: 3,
        quote_mint: 4,
        base_vault: 5,
        quote_vault: 6,
        creator: 7,
        base_token_program: TokenProgramFlag::SPLTokenProgram,
        quote_token_program: TokenProgramFlag::SPLTokenProgram,
        amm_creator_fee_on: AmmCreatorFeeOn::QuoteToken,
    }
}

#[test]
fn buy_exact_in_constant_product_scenario() {
    // virtual 1_000_000 x 30, trade fee rate 100 (0.01%): the 10-unit buy
    // pays no fee (rounded down), and the curve output follows the formula
    let global = global_config(100, 0);
    let platform = platform_config(0, 0);
    let mut pool = constant_pool(1_000_000, 30, 1_000_000, 1_000_000, 0, 1_000);
    let r = buy_exact_in(&mut pool, &global, &platform, 10, 0, 0, 99).unwrap();
    assert_eq!(r.protocol_fee, 0);
    assert_eq!(r.amount_in, 10);
    assert_eq!(r.amount_out, 500_000);
    assert_eq!(pool.real_quote, 10);
    assert_eq!(pool.real_base, 1_000_000 - 500_000);
    assert_eq!(pool.status, PoolStatus::Fund);
}

#[test]
fn buy_exact_in_deducts_fees_before_curve() {
    // 1% trade fee, 0.5% platform fee on a 1000-unit buy: 15 units of fee,
    // 985 reach the curve
    let global = global_config(10_000, 0);
    let platform = platform_config(5_000, 0);
    let mut pool = constant_pool(1_000_000, 1_000_000, 1_000_000, 1_000_000, 0, 1_000_000);
    let r = buy_exact_in(&mut pool, &global, &platform, 1_000, 0, 0, 99).unwrap();
    assert_eq!(r.protocol_fee, 10);
    assert_eq!(r.platform_fee, 5);
    assert_eq!(r.creator_fee, 0);
    assert_eq!(r.share_fee, 0);
    assert_eq!(pool.real_quote, 985);
    assert_eq!(pool.quote_protocol_fee, 10);
    assert_eq!(pool.platform_fee, 5);
    assert_eq!(r.amount_in, 1_000);
}

#[test]
fn buy_crossing_target_flips_status_exactly_once() {
    // room of 5 quote units left; a 50-unit buy is filled up to the target,
    // the rest refunded, and the status flips in the same operation
    let global = global_config(0, 0);
    let platform = platform_config(0, 0);
    let mut pool = constant_pool(1_000, 100, 500, 500, 95, 100);
    let r = buy_exact_in(&mut pool, &global, &platform, 50, 0, 0, 777).unwrap();
    assert_eq!(r.amount_in, 5);
    assert_eq!(r.amount_out, 37);
    assert_eq!(pool.real_quote, 100);
    assert_eq!(pool.status, PoolStatus::Migrate);
    assert_eq!(pool.vesting_schedule.start_time, 777);
    // a subsequent buy fails and changes nothing
    let before = pool;
    let r2 = buy_exact_in(&mut pool, &global, &platform, 1, 0, 0, 778);
    assert_eq!(r2, Err(LaunchpadError::PoolNotTrading));
    assert_eq!(pool, before);
}

#[test]
fn buy_slippage_bound_is_enforced() {
    let global = global_config(100, 0);
    let platform = platform_config(0, 0);
    let mut pool = constant_pool(1_000_000, 30, 1_000_000, 1_000_000, 0, 1_000);
    let r = buy_exact_in(&mut pool, &global, &platform, 10, 500_001, 0, 99);
    assert_eq!(r, Err(LaunchpadError::SlippageExceeded));
    assert_eq!(pool.real_quote, 0);
}

#[test]
fn buy_share_fee_rate_above_maximum_is_invalid() {
    let global = global_config(0, 1_000);
    let platform = platform_config(0, 0);
    let mut pool = constant_pool(1_000, 100, 500, 500, 0, 100);
    let r = buy_exact_in(&mut pool, &global, &platform, 10, 0, 1_001, 99);
    assert_eq!(r, Err(LaunchpadError::InvalidConfig));
}

#[test]
fn buy_exact_out_charges_fees_on_top() {
    // the curve needs 10 net for 500_000 base; a 1% trade fee grosses the
    // charge up to ceil(10 / 0.99) = 11
    let global = global_config(10_000, 0);
    let platform = platform_config(0, 0);
    let mut pool = constant_pool(1_000_000, 30, 1_000_000, 1_000_000, 0, 1_000);
    let r = buy_exact_out(&mut pool, &global, &platform, 500_000, 100, 0, 99).unwrap();
    assert_eq!(r.amount_out, 500_000);
    assert_eq!(r.amount_in, 11);
    assert_eq!(r.protocol_fee, 0); // floor(11 * 1% ) = 0
    assert_eq!(pool.real_quote, 11);
    assert_eq!(pool.real_base, 500_000);
}

#[test]
fn buy_exact_out_beyond_reserve_is_insufficient() {
    let global = global_config(0, 0);
    let platform = platform_config(0, 0);
    let mut pool = constant_pool(1_000, 100, 500, 500, 0, 100);
    let r = buy_exact_out(&mut pool, &global, &platform, 501, u64::MAX, 0, 99);
    assert_eq!(r, Err(LaunchpadError::InsufficientLiquidity));
}

#[test]
fn buy_exact_out_slippage_bound_is_enforced() {
    let global = global_config(0, 0);
    let platform = platform_config(0, 0);
    let mut pool = constant_pool(1_000_000, 30, 1_000_000, 1_000_000, 0, 1_000);
    let r = buy_exact_out(&mut pool, &global, &platform, 500_000, 9, 0, 99);
    assert_eq!(r, Err(LaunchpadError::SlippageExceeded));
}

#[test]
fn full_fee_rate_starves_exact_out_of_digits() {
    // a combined fee rate of 100% leaves nothing for the curve: the
    // gross-up division loses all significant digits
    let global = global_config(1_000_000, 0);
    let platform = platform_config(0, 0);
    let mut pool = constant_pool(1_000_000, 30, 1_000_000, 1_000_000, 0, 1_000);
    let r = buy_exact_out(&mut pool, &global, &platform, 100, u64::MAX, 0, 99);
    assert_eq!(r, Err(LaunchpadError::ArithmeticError));
}

#[test]
fn sell_returns_quote_minus_fees() {
    // after the standard buy, selling the 500_000 base back frees the 10
    // quote units; a 10% trade fee keeps 1 of them
    let global = global_config(100_000, 0);
    let platform = platform_config(0, 0);
    let mut pool = constant_pool(1_000_000, 30, 1_000_000, 500_000, 10, 1_000);
    let r = sell_exact_in(&mut pool, &global, &platform, 500_000, 0, 0).unwrap();
    assert_eq!(r.amount_in, 500_000);
    assert_eq!(r.amount_out, 9);
    assert_eq!(r.protocol_fee, 1);
    assert_eq!(pool.real_base, 1_000_000);
    assert_eq!(pool.real_quote, 0);
    assert_eq!(pool.quote_protocol_fee, 1);
}

#[test]
fn sell_more_than_bought_is_insufficient() {
    let global = global_config(0, 0);
    let platform = platform_config(0, 0);
    // only 500_000 were ever sold off the curve
    let mut pool = constant_pool(1_000_000, 30, 1_000_000, 500_000, 10, 1_000);
    let r = sell_exact_in(&mut pool, &global, &platform, 500_001, 0, 0);
    assert_eq!(r, Err(LaunchpadError::InsufficientLiquidity));
}

#[test]
fn sell_after_funding_is_rejected() {
    let global = global_config(0, 0);
    let platform = platform_config(0, 0);
    let mut pool = constant_pool(1_000_000, 30, 1_000_000, 500_000, 10, 1_000);
    pool.status = PoolStatus::Migrate;
    pool.real_quote = 1_000;
    let r = sell_exact_in(&mut pool, &global, &platform, 1, 0, 0);
    assert_eq!(r, Err(LaunchpadError::PoolNotTrading));
}

#[test]
fn sell_exact_out_computes_base_charge() {
    // fee-free: receiving all 10 raised quote units costs the full
    // 500_000 base that were bought
    let global = global_config(0, 0);
    let platform = platform_config(0, 0);
    let mut pool = constant_pool(1_000_000, 30, 1_000_000, 500_000, 10, 1_000);
    let r = sell_exact_out(&mut pool, &global, &platform, 10, u64::MAX, 0).unwrap();
    assert_eq!(r.amount_in, 500_000);
    assert_eq!(r.amount_out, 10);
    assert_eq!(pool.real_base, 1_000_000);
    assert_eq!(pool.real_quote, 0);
}

#[test]
fn sell_exact_out_slippage_bound_is_enforced() {
    let global = global_config(0, 0);
    let platform = platform_config(0, 0);
    let mut pool = constant_pool(1_000_000, 30, 1_000_000, 500_000, 10, 1_000);
    let r = sell_exact_out(&mut pool, &global, &platform, 10, 499_999, 0);
    assert_eq!(r, Err(LaunchpadError::SlippageExceeded));
}

#[test]
fn sell_exact_out_beyond_reserve_is_insufficient() {
    let global = global_config(0, 0);
    let platform = platform_config(0, 0);
    let mut pool = constant_pool(1_000_000, 30, 1_000_000, 500_000, 10, 1_000);
    let r = sell_exact_out(&mut pool, &global, &platform, 11, u64::MAX, 0);
    assert_eq!(r, Err(LaunchpadError::InsufficientLiquidity));
}

#[test]
fn linear_pool_buys_along_the_slope() {
    let global = GlobalConfig { curve_type: CurveKind::Linear, ..global_config(0, 0) };
    let platform = platform_config(0, 0);
    let mut pool = constant_pool(2, 0, 1_000, 1_000, 0, 1_000_000);
    pool.curve_kind = CurveKind::Linear;
    // 100 quote buys 10 base at slope 2 from a fresh pool
    let r = buy_exact_in(&mut pool, &global, &platform, 100, 0, 0, 99).unwrap();
    assert_eq!(r.amount_out, 10);
    assert_eq!(pool.real_base, 990);
    assert_eq!(pool.real_quote, 100);
    // buying 5 more base exactly costs the integral over [10, 15]
    let r = buy_exact_out(&mut pool, &global, &platform, 5, u64::MAX, 0, 99).unwrap();
    assert_eq!(r.amount_in, 125);
    // selling those 5 back pays the same amount out
    let r = sell_exact_in(&mut pool, &global, &platform, 5, 0, 0).unwrap();
    assert_eq!(r.amount_out, 125);
}

#[test]
fn fixed_pool_trades_at_constant_price() {
    let global = GlobalConfig { curve_type: CurveKind::Fixed, ..global_config(0, 0) };
    let platform = platform_config(0, 0);
    // price vq / vb = 2 quote per base
    let mut pool = constant_pool(500, 1_000, 500, 500, 0, 1_000);
    pool.curve_kind = CurveKind::Fixed;
    let r = buy_exact_in(&mut pool, &global, &platform, 10, 0, 0, 99).unwrap();
    assert_eq!(r.amount_out, 5);
    let r = sell_exact_in(&mut pool, &global, &platform, 5, 0, 0).unwrap();
    assert_eq!(r.amount_out, 10);
}
