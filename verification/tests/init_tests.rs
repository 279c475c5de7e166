use launchpad::errors::LaunchpadError;
use launchpad::fees::claim_platform_fee;
use launchpad::fees::claim_protocol_fee;
use launchpad::fees::split_trade_fee;
use launchpad::init::initialize;
use launchpad::platform::create_platform_config;
use launchpad::platform::update_platform_config;
use launchpad::states::ConstantCurve;
use launchpad::states::CurveKind;
use launchpad::states::CurveParams;
use launchpad::states::FixedCurve;
use launchpad::states::GlobalConfig;
use launchpad::states::LinearCurve;
use launchpad::states::MigrateNftInfo;
use launchpad::states::MigrateType;
use launchpad::states::MintParams;
use launchpad::states::PlatformConfig;
use launchpad::states::PlatformConfigParam;
use launchpad::states::PlatformParams;
use launchpad::states::PoolAccounts;
use launchpad::states::PoolStatus;
use launchpad::states::TokenProgramFlag;
use launchpad::states::VestingParams;

fn global_config(curve_type: CurveKind) -> GlobalConfig {
    GlobalConfig {
        curve_type,
        index: 0,
        migrate_fee: 500,
        trade_fee_rate: 10_000,
        max_share_fee_rate: 10_000,
        min_base_supply: 1,
        max_lock_rate: 500_000,
        min_base_sell_rate: 200_000,
        min_base_migrate_rate: 100_000,
        min_quote_fund_raising: 1_000,
        quote_mint: 1,
        protocol_fee_owner: 2,
        migrate_fee_owner: 3,
        migrate_to_amm_wallet: 4,
        migrate_to_cpswap_wallet: 5,
    }
}

fn platform() -> PlatformConfig {
    PlatformConfig {
        platform_fee_wallet: 10,
        platform_nft_wallet: 11,
        platform_scale: 500_000,
        creator_scale: 250_000,
        burn_scale: 250_000,
        fee_rate: 10_000,
        name: b"pad".to_vec(),
        web: Vec::new(),
        img: Vec::new(),
        cpswap_config: 12,
        creator_fee_rate: 5_000,
        transfer_fee_extension_auth: 13,
        curve_params: Vec::new(),
    }
}

fn accounts() -> PoolAccounts {
    PoolAccounts {
        global_config: 20,
        platform_config: 21,
        base_mint: 22,
        quote_mint: 23,
        base_vault: 24,
        quote_vault: 25,
        creator: 26,
        base_token_program: TokenProgramFlag::SPLTokenProgram,
        quote_token_program: TokenProgramFlag::TokenProgram2022,
    }
}

fn mint(decimals: u8) -> MintParams {
    MintParams {
        decimals,
        name: "Token".to_string(),
        symbol: "TOK".to_string(),
        uri: "https://example.invalid/meta.json".to_string(),
    }
}

fn vesting(locked: u64) -> VestingParams {
    VestingParams { total_locked_amount: locked, cliff_period: 3_600, unlock_period: 86_400 }
}

fn constant_params() -> CurveParams {
    CurveParams::Constant {
        data: ConstantCurve {
            supply: 1_000_000_000,
            total_base_sell: 793_100_000,
            total_quote_fund_raising: 85_000_000_000,
            migrate_type: MigrateType::AMM,
        },
    }
}

#[test]
fn constant_pool_derives_continuous_virtual_reserves() {
    let global = global_config(CurveKind::Constant);
    let pool = initialize(
        &global,
        &platform(),
        &accounts(),
        &mint(6),
        &constant_params(),
        &vesting(100_000_000),
        9,
    )
    .unwrap();
    // virtual reserves solve sell-out at the target and price continuity
    // into the migration AMM: vb = tbs*(s-tbs)/(2*tbs-s) rounded down,
    // vq = tqf*(s-tbs)/(2*tbs-s) rounded up
    assert_eq!(pool.virtual_base, 279_925_605);
    assert_eq!(pool.virtual_quote, 30_000_852_952);
    assert_eq!(pool.status, PoolStatus::Fund);
    assert_eq!(pool.total_base_sell, 793_100_000);
    assert_eq!(pool.real_base, 793_100_000);
    assert_eq!(pool.real_quote, 0);
    assert_eq!(pool.migrate_fee, 500);
    assert_eq!(pool.curve_kind, CurveKind::Constant);
    assert_eq!(pool.vesting_schedule.total_locked_amount, 100_000_000);
    assert_eq!(pool.vesting_schedule.start_time, 0);
    assert_eq!(pool.vesting_schedule.allocated_share_amount, 0);
    assert_eq!(pool.base_decimals, 6);
    assert_eq!(pool.quote_decimals, 9);
    assert_eq!(pool.global_config, 20);
}

#[test]
fn fixed_pool_sells_half_the_supply() {
    let global = global_config(CurveKind::Fixed);
    let params = CurveParams::Fixed {
        data: FixedCurve {
            supply: 1_000_000,
            total_quote_fund_raising: 250_000,
            migrate_type: MigrateType::CPSWAP,
        },
    };
    let pool = initialize(&global, &platform(), &accounts(), &mint(6), &params, &vesting(0), 9)
        .unwrap();
    assert_eq!(pool.total_base_sell, 500_000);
    assert_eq!(pool.virtual_base, 500_000);
    assert_eq!(pool.virtual_quote, 250_000);
    assert_eq!(pool.migrate_type, MigrateType::CPSWAP);
}

#[test]
fn linear_pool_sells_two_thirds_with_a_covering_slope() {
    let global = global_config(CurveKind::Linear);
    let params = CurveParams::Linear {
        data: LinearCurve {
            supply: 300_000,
            total_quote_fund_raising: 40_000_000_000,
            migrate_type: MigrateType::AMM,
        },
    };
    let pool = initialize(&global, &platform(), &accounts(), &mint(4), &params, &vesting(0), 9)
        .unwrap();
    assert_eq!(pool.total_base_sell, 200_000);
    // slope = ceil(2 * tqf / tbs^2) = ceil(80e9 / 4e10) = 2
    assert_eq!(pool.virtual_base, 2);
    assert_eq!(pool.virtual_quote, 0);
}

#[test]
fn curve_family_must_match_the_config() {
    let global = global_config(CurveKind::Fixed);
    let r = initialize(
        &global,
        &platform(),
        &accounts(),
        &mint(6),
        &constant_params(),
        &vesting(0),
        9,
    );
    assert_eq!(r, Err(LaunchpadError::InvalidConfig));
}

#[test]
fn too_small_a_supply_is_rejected() {
    let mut global = global_config(CurveKind::Constant);
    // with 6 decimals, demand more whole tokens than the supply holds
    global.min_base_supply = 1_001;
    let mut params = constant_params();
    if let CurveParams::Constant { data } = &mut params {
        data.supply = 1_000_000_000; // 1000 whole tokens
        data.total_base_sell = 793_100_000;
    }
    let r = initialize(&global, &platform(), &accounts(), &mint(6), &params, &vesting(0), 9);
    assert_eq!(r, Err(LaunchpadError::InvalidConfig));
}

#[test]
fn sell_and_migrate_rates_are_enforced() {
    let global = global_config(CurveKind::Constant);
    // selling only 15% of the supply is under the 20% minimum
    let params = CurveParams::Constant {
        data: ConstantCurve {
            supply: 1_000_000,
            total_base_sell: 150_000,
            total_quote_fund_raising: 1_000_000,
            migrate_type: MigrateType::AMM,
        },
    };
    let r = initialize(&global, &platform(), &accounts(), &mint(0), &params, &vesting(0), 9);
    assert_eq!(r, Err(LaunchpadError::InvalidConfig));
    // locking so much that under 10% is left for migration fails too
    let params = constant_params();
    let r = initialize(&global, &platform(), &accounts(), &mint(0), &params, &vesting(200_000_000), 9);
    assert_eq!(r, Err(LaunchpadError::InvalidConfig));
}

#[test]
fn fund_raising_minimum_is_enforced() {
    let global = global_config(CurveKind::Constant);
    let params = CurveParams::Constant {
        data: ConstantCurve {
            supply: 1_000_000,
            total_base_sell: 793_100,
            total_quote_fund_raising: 999,
            migrate_type: MigrateType::AMM,
        },
    };
    let r = initialize(&global, &platform(), &accounts(), &mint(0), &params, &vesting(0), 9);
    assert_eq!(r, Err(LaunchpadError::InvalidConfig));
}

#[test]
fn constant_curve_needs_majority_on_the_curve() {
    let mut global = global_config(CurveKind::Constant);
    global.min_base_sell_rate = 0;
    global.min_base_migrate_rate = 0;
    // exactly half the supply leaves the derivation's denominator at zero
    let params = CurveParams::Constant {
        data: ConstantCurve {
            supply: 1_000_000,
            total_base_sell: 500_000,
            total_quote_fund_raising: 1_000_000,
            migrate_type: MigrateType::AMM,
        },
    };
    let r = initialize(&global, &platform(), &accounts(), &mint(0), &params, &vesting(0), 9);
    assert_eq!(r, Err(LaunchpadError::InvalidConfig));
}

#[test]
fn fee_split_uses_exact_rates() {
    let fees = split_trade_fee(1_000_000, 2_500, 1_000, 300, 200);
    assert_eq!(fees.protocol_fee, 2_500);
    assert_eq!(fees.platform_fee, 1_000);
    assert_eq!(fees.creator_fee, 300);
    assert_eq!(fees.share_fee, 200);
    // rounding is always downward
    let fees = split_trade_fee(999, 2_500, 0, 0, 0);
    assert_eq!(fees.protocol_fee, 2); // floor(999 * 0.25%)
}

#[test]
fn fee_claims_reset_atomically() {
    let sched = launchpad::states::VestingSchedule {
        total_locked_amount: 0,
        cliff_period: 0,
        unlock_period: 0,
        start_time: 0,
        allocated_share_amount: 0,
    };
    let mut pool = launchpad::states::PoolState {
        schema_version: launchpad::states::SCHEMA_VERSION,
        status: PoolStatus::Migrate,
        curve_kind: CurveKind::Constant,
        migrate_type: MigrateType::AMM,
        base_decimals: 6,
        quote_decimals: 9,
        supply: 1_000,
        total_base_sell: 600,
        virtual_base: 100,
        virtual_quote: 100,
        real_base: 0,
        real_quote: 500,
        total_quote_fund_raising: 500,
        quote_protocol_fee: 70,
        platform_fee: 40,
        migrate_fee: 0,
        vesting_schedule: sched,
        global_config: 1,
        platform_config: 2,
        base_mint: 3,
        quote_mint: 4,
        base_vault: 5,
        quote_vault: 6,
        creator: 7,
        base_token_program: TokenProgramFlag::SPLTokenProgram,
        quote_token_program: TokenProgramFlag::SPLTokenProgram,
        amm_creator_fee_on: launchpad::states::AmmCreatorFeeOn::QuoteToken,
    };
    assert_eq!(claim_platform_fee(&mut pool), Ok(40));
    assert_eq!(pool.platform_fee, 0);
    assert_eq!(claim_platform_fee(&mut pool), Err(LaunchpadError::NothingToClaim));
    assert_eq!(claim_protocol_fee(&mut pool), Ok(70));
    assert_eq!(pool.quote_protocol_fee, 0);
    assert_eq!(claim_protocol_fee(&mut pool), Err(LaunchpadError::NothingToClaim));
}

#[test]
fn platform_config_creation_validates_inputs() {
    let params = PlatformParams {
        migrate_nft_info: MigrateNftInfo {
            platform_scale: 500_000,
            creator_scale: 300_000,
            burn_scale: 200_000,
        },
        fee_rate: 20_000,
        name: b"launcher".to_vec(),
        web: b"https://example.invalid".to_vec(),
        img: Vec::new(),
    };
    let config = create_platform_config(params, 1, 2, 3, 4).unwrap();
    assert_eq!(config.fee_rate, 20_000);
    assert_eq!(config.platform_scale, 500_000);
    assert_eq!(config.name, b"launcher".to_vec());
    assert_eq!(config.creator_fee_rate, 0);
    assert!(config.curve_params.is_empty());
    // a fee rate above 100% is rejected
    let bad = PlatformParams {
        migrate_nft_info: MigrateNftInfo {
            platform_scale: 1_000_000,
            creator_scale: 0,
            burn_scale: 0,
        },
        fee_rate: 1_000_001,
        name: Vec::new(),
        web: Vec::new(),
        img: Vec::new(),
    };
    assert!(matches!(
        create_platform_config(bad, 1, 2, 3, 4),
        Err(LaunchpadError::InvalidConfig)
    ));
    // scales that do not split the whole are rejected
    let bad = PlatformParams {
        migrate_nft_info: MigrateNftInfo {
            platform_scale: 500_000,
            creator_scale: 0,
            burn_scale: 0,
        },
        fee_rate: 0,
        name: Vec::new(),
        web: Vec::new(),
        img: Vec::new(),
    };
    assert!(matches!(
        create_platform_config(bad, 1, 2, 3, 4),
        Err(LaunchpadError::InvalidConfig)
    ));
    // an oversized name is rejected
    let bad = PlatformParams {
        migrate_nft_info: MigrateNftInfo {
            platform_scale: 1_000_000,
            creator_scale: 0,
            burn_scale: 0,
        },
        fee_rate: 0,
        name: vec![b'x'; 65],
        web: Vec::new(),
        img: Vec::new(),
    };
    assert!(matches!(
        create_platform_config(bad, 1, 2, 3, 4),
        Err(LaunchpadError::InvalidConfig)
    ));
}

#[test]
fn platform_config_updates_one_field_at_a_time() {
    let mut config = platform();
    assert_eq!(update_platform_config(&mut config, PlatformConfigParam::FeeWallet(99)), Ok(()));
    assert_eq!(config.platform_fee_wallet, 99);
    assert_eq!(update_platform_config(&mut config, PlatformConfigParam::FeeRate(123)), Ok(()));
    assert_eq!(config.fee_rate, 123);
    assert_eq!(
        update_platform_config(&mut config, PlatformConfigParam::FeeRate(1_000_001)),
        Err(LaunchpadError::InvalidConfig)
    );
    assert_eq!(config.fee_rate, 123);
    assert_eq!(
        update_platform_config(&mut config, PlatformConfigParam::Name(b"other".to_vec())),
        Ok(())
    );
    assert_eq!(config.name, b"other".to_vec());
    assert_eq!(
        update_platform_config(&mut config, PlatformConfigParam::Name(vec![b'x'; 65])),
        Err(LaunchpadError::InvalidConfig)
    );
    assert_eq!(
        update_platform_config(&mut config, PlatformConfigParam::CpSwapConfig(7)),
        Ok(())
    );
    assert_eq!(config.cpswap_config, 7);
}
