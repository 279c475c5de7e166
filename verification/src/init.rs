//! Pool creation: validates the launch parameters against the protocol's
//! configured minimums and derives the curve parameters.
//!
//! The virtual reserves are derived so that the curve raises exactly the
//! funding target by the time the allocated base is sold out, and so that
//! the curve's final spot price matches the price of the migration AMM
//! seeded with the remaining base and the raised quote (price continuity
//! at migration).  For the constant-product family that derivation is
//! `virtual_base = tbs * (s - tbs) / (2 * tbs - s)` (rounded down) and
//! `virtual_quote = tqf * (s - tbs) / (2 * tbs - s)` (rounded up, so the
//! raise completes within the allocation); the fixed-price family sells
//! half the supply at price `tqf / (s / 2)`; the linear family sells two
//! thirds of the supply with slope `ceil(2 * tqf / tbs^2)`.

use vstd::prelude::*;

use crate::errors::LaunchpadError;
use crate::math::ceil_div;
use crate::math::meets_min_supply;
use crate::math::mul_div_ceil;
use crate::math::mul_div_floor;
use crate::math::pow10;
use crate::math::product_at_least;
use crate::states::AmmCreatorFeeOn;
use crate::states::CurveKind;
use crate::states::CurveParams;
use crate::states::GlobalConfig;
use crate::states::MigrateType;
use crate::states::MintParams;
use crate::states::PlatformConfig;
use crate::states::PoolAccounts;
use crate::states::PoolState;
use crate::states::PoolStatus;
use crate::states::VestingParams;
use crate::states::VestingSchedule;
use crate::states::FEE_RATE_DENOMINATOR_VALUE;
use crate::states::SCHEMA_VERSION;

verus! {

/// The curve family a parameter bundle selects.
pub open spec fn params_curve_kind(cp: CurveParams) -> CurveKind {
    match cp {
        CurveParams::Constant { .. } => CurveKind::Constant,
        CurveParams::Fixed { .. } => CurveKind::Fixed,
        CurveParams::Linear { .. } => CurveKind::Linear,
    }
}

/// The total supply a parameter bundle declares.
pub open spec fn params_supply(cp: CurveParams) -> int {
    match cp {
        CurveParams::Constant { data } => data.supply as int,
        CurveParams::Fixed { data } => data.supply as int,
        CurveParams::Linear { data } => data.supply as int,
    }
}

/// The quote fund-raising target a parameter bundle declares.
pub open spec fn params_fund_raising(cp: CurveParams) -> int {
    match cp {
        CurveParams::Constant { data } => data.total_quote_fund_raising as int,
        CurveParams::Fixed { data } => data.total_quote_fund_raising as int,
        CurveParams::Linear { data } => data.total_quote_fund_raising as int,
    }
}

/// Which AMM the parameter bundle migrates to.
pub open spec fn params_migrate_type(cp: CurveParams) -> MigrateType {
    match cp {
        CurveParams::Constant { data } => data.migrate_type,
        CurveParams::Fixed { data } => data.migrate_type,
        CurveParams::Linear { data } => data.migrate_type,
    }
}

/// Base units allocated to the curve: given for the constant-product
/// family, half the supply for fixed price, two thirds for linear price.
pub open spec fn derived_total_base_sell(cp: CurveParams) -> int {
    match cp {
        CurveParams::Constant { data } => data.total_base_sell as int,
        CurveParams::Fixed { data } => (data.supply as int) / 2,
        CurveParams::Linear { data } => (2 * data.supply) / 3,
    }
}

/// The derived `virtual_base` curve parameter (the slope, for the linear
/// family).
pub open spec fn derived_virtual_base(cp: CurveParams) -> int {
    match cp {
        CurveParams::Constant { data } => {
            let s = data.supply as int;
            let tbs = data.total_base_sell as int;
            (tbs * (s - tbs)) / (2 * tbs - s)
        },
        CurveParams::Fixed { data } => (data.supply as int) / 2,
        CurveParams::Linear { data } => {
            let tbs = derived_total_base_sell(cp);
            ceil_div(2 * (data.total_quote_fund_raising as int), tbs * tbs)
        },
    }
}

/// The derived `virtual_quote` curve parameter (unused, zero, for the
/// linear family).
pub open spec fn derived_virtual_quote(cp: CurveParams) -> int {
    match cp {
        CurveParams::Constant { data } => {
            let s = data.supply as int;
            let tbs = data.total_base_sell as int;
            ceil_div((data.total_quote_fund_raising as int) * (s - tbs), 2 * tbs - s)
        },
        CurveParams::Fixed { data } => data.total_quote_fund_raising as int,
        CurveParams::Linear { .. } => 0,
    }
}

/// Everything pool creation checks.  A parameter bundle that fails any of
/// these is rejected with `InvalidConfig` and no pool is created.
pub open spec fn init_valid(
    global: GlobalConfig,
    platform: PlatformConfig,
    decimals: u8,
    cp: CurveParams,
    vp: VestingParams,
) -> bool {
    let s = params_supply(cp);
    let tqf = params_fund_raising(cp);
    let tbs = derived_total_base_sell(cp);
    let locked = vp.total_locked_amount as int;
    let d = FEE_RATE_DENOMINATOR_VALUE as int;
    &&& params_curve_kind(cp) == global.curve_type
    &&& s >= 1
    &&& tqf >= 1
    &&& tbs >= 1
    &&& s >= global.min_base_supply * pow10(decimals as nat)
    &&& tbs * d >= global.min_base_sell_rate * s
    &&& locked * d <= global.max_lock_rate * s
    &&& tbs + locked <= s
    &&& (s - tbs - locked) * d >= global.min_base_migrate_rate * s
    &&& tqf >= global.min_quote_fund_raising
    &&& vp.cliff_period != u64::MAX
    &&& vp.unlock_period != u64::MAX
    &&& global.trade_fee_rate + platform.fee_rate + platform.creator_fee_rate
        + global.max_share_fee_rate <= d
    &&& match cp {
        CurveParams::Constant { .. } => {
            &&& 2 * tbs > s
            &&& derived_virtual_base(cp) >= 1
            &&& derived_virtual_quote(cp) >= 1
            &&& derived_virtual_base(cp) + tbs <= u64::MAX
            &&& derived_virtual_quote(cp) + tqf <= u64::MAX
        },
        CurveParams::Fixed { .. } => true,
        CurveParams::Linear { .. } => derived_virtual_base(cp) <= u64::MAX,
    }
}

/// The pool a valid parameter bundle creates: funding, with the whole
/// curve allocation as its base reserve, nothing raised, and the vesting
/// clock not yet started.
pub open spec fn initial_pool(
    global: GlobalConfig,
    accounts: PoolAccounts,
    decimals: u8,
    quote_decimals: u8,
    cp: CurveParams,
    vp: VestingParams,
) -> PoolState {
    PoolState {
        schema_version: SCHEMA_VERSION,
        status: PoolStatus::Fund,
        curve_kind: params_curve_kind(cp),
        migrate_type: params_migrate_type(cp),
        base_decimals: decimals,
        quote_decimals,
        supply: params_supply(cp) as u64,
        total_base_sell: derived_total_base_sell(cp) as u64,
        virtual_base: derived_virtual_base(cp) as u64,
        virtual_quote: derived_virtual_quote(cp) as u64,
        real_base: derived_total_base_sell(cp) as u64,
        real_quote: 0,
        total_quote_fund_raising: params_fund_raising(cp) as u64,
        quote_protocol_fee: 0,
        platform_fee: 0,
        migrate_fee: global.migrate_fee,
        vesting_schedule: VestingSchedule {
            total_locked_amount: vp.total_locked_amount,
            cliff_period: vp.cliff_period,
            unlock_period: vp.unlock_period,
            start_time: 0,
            allocated_share_amount: 0,
        },
        global_config: accounts.global_config,
        platform_config: accounts.platform_config,
        base_mint: accounts.base_mint,
        quote_mint: accounts.quote_mint,
        base_vault: accounts.base_vault,
        quote_vault: accounts.quote_vault,
        creator: accounts.creator,
        base_token_program: accounts.base_token_program,
        quote_token_program: accounts.quote_token_program,
        amm_creator_fee_on: AmmCreatorFeeOn::QuoteToken,
    }
}

/// Creates a new funding pool from the launch parameters, or rejects them
/// with `InvalidConfig`.
///
/// Checks, against the global configuration: the curve family matches,
/// the supply covers the configured minimum in whole tokens, enough of
/// the supply is for sale and enough is left for migration, the locked
/// vesting amount respects the maximum lock rate, the fund-raising target
/// covers its minimum, the vesting periods are in range, and the
/// combined fee rates cannot exceed 100%.  The derived curve parameters
/// must be positive and small enough for the curve arithmetic.
pub fn initialize(
    global: &GlobalConfig,
    platform: &PlatformConfig,
    accounts: &PoolAccounts,
    base_mint_param: &MintParams,
    curve_param: &CurveParams,
    vesting_param: &VestingParams,
    quote_decimals: u8,
) -> (r: Result<PoolState, LaunchpadError>)
    requires
        global.wf(),
        platform.wf(),
    ensures
        (r is Ok) <==> init_valid(
            *global,
            *platform,
            base_mint_param.decimals,
            *curve_param,
            *vesting_param,
        ),
        r is Err ==> r == Err::<PoolState, LaunchpadError>(LaunchpadError::InvalidConfig),
        r is Ok ==> r->Ok_0 == initial_pool(
            *global,
            *accounts,
            base_mint_param.decimals,
            quote_decimals,
            *curve_param,
            *vesting_param,
        ) && r->Ok_0.wf(),
{
    let kind = match curve_param {
        CurveParams::Constant { .. } => CurveKind::Constant,
        CurveParams::Fixed { .. } => CurveKind::Fixed,
        CurveParams::Linear { .. } => CurveKind::Linear,
    };
    if kind != global.curve_type {
        return Err(LaunchpadError::InvalidConfig);
    }
    let (supply, tqf, migrate_type) = match curve_param {
        CurveParams::Constant { data } => (
            data.supply,
            data.total_quote_fund_raising,
            data.migrate_type,
        ),
        CurveParams::Fixed { data } => (data.supply, data.total_quote_fund_raising, data.migrate_type),
        CurveParams::Linear { data } => (data.supply, data.total_quote_fund_raising, data.migrate_type),
    };
    let tbs: u64 = match curve_param {
        CurveParams::Constant { data } => data.total_base_sell,
        CurveParams::Fixed { .. } => supply / 2,
        CurveParams::Linear { .. } => ((2 * (supply as u128)) / 3) as u64,
    };
    if supply == 0 || tqf == 0 || tbs == 0 {
        return Err(LaunchpadError::InvalidConfig);
    }
    if !meets_min_supply(supply, global.min_base_supply, base_mint_param.decimals) {
        return Err(LaunchpadError::InvalidConfig);
    }
    if !product_at_least(tbs, FEE_RATE_DENOMINATOR_VALUE, global.min_base_sell_rate, supply) {
        return Err(LaunchpadError::InvalidConfig);
    }
    let locked = vesting_param.total_locked_amount;
    if !product_at_least(global.max_lock_rate, supply, locked, FEE_RATE_DENOMINATOR_VALUE) {
        return Err(LaunchpadError::InvalidConfig);
    }
    if locked > supply || tbs > supply - locked {
        return Err(LaunchpadError::InvalidConfig);
    }
    if !product_at_least(
        supply - tbs - locked,
        FEE_RATE_DENOMINATOR_VALUE,
        global.min_base_migrate_rate,
        supply,
    ) {
        return Err(LaunchpadError::InvalidConfig);
    }
    if tqf < global.min_quote_fund_raising {
        return Err(LaunchpadError::InvalidConfig);
    }
    if vesting_param.cliff_period == u64::MAX || vesting_param.unlock_period == u64::MAX {
        return Err(LaunchpadError::InvalidConfig);
    }
    if global.trade_fee_rate + platform.fee_rate + platform.creator_fee_rate
        + global.max_share_fee_rate > FEE_RATE_DENOMINATOR_VALUE {
        return Err(LaunchpadError::InvalidConfig);
    }
    let (virtual_base, virtual_quote): (u64, u64) = match curve_param {
        CurveParams::Constant { data } => {
            if 2 * (tbs as u128) <= supply as u128 {
                return Err(LaunchpadError::InvalidConfig);
            }
            let denom: u64 = tbs - (supply - tbs);
            let side: u64 = supply - tbs;
            let vb: u64 = match mul_div_floor(tbs, side, denom) {
                Ok(v) => v,
                Err(_) => {
                    return Err(LaunchpadError::InvalidConfig);
                },
            };
            let vq: u64 = match mul_div_ceil(tqf, side, denom) {
                Ok(v) => v,
                Err(_) => {
                    return Err(LaunchpadError::InvalidConfig);
                },
            };
            if vb == 0 || vq == 0 {
                return Err(LaunchpadError::InvalidConfig);
            }
            if vb > u64::MAX - tbs || vq > u64::MAX - tqf {
                return Err(LaunchpadError::InvalidConfig);
            }
            (vb, vq)
        },
        CurveParams::Fixed { .. } => (tbs, tqf),
        CurveParams::Linear { .. } => {
            proof {
                crate::math::lemma_u64_product_fits(tbs, tbs);
            }
            let sq: u128 = (tbs as u128) * (tbs as u128);
            proof {
                assert(1 <= sq && 2 * (tqf as int) + sq - 1 <= u128::MAX) by (nonlinear_arith)
                    requires
                        sq == (tbs as int) * (tbs as int),
                        1 <= tbs <= u64::MAX,
                        tqf <= u64::MAX;
            }
            let slope_wide: u128 = (2 * (tqf as u128) + (sq - 1)) / sq;
            proof {
                assert(slope_wide == ceil_div(2 * (tqf as int), sq as int));
            }
            if slope_wide > u64::MAX as u128 {
                return Err(LaunchpadError::InvalidConfig);
            }
            (slope_wide as u64, 0)
        },
    };
    proof {
        let cp = *curve_param;
        if params_curve_kind(cp) is Linear {
            let tqf_i = params_fund_raising(cp);
            let tbs_i = derived_total_base_sell(cp);
            crate::math::lemma_ceil_div_bounds(2 * tqf_i, tbs_i * tbs_i);
            assert(tbs_i * tbs_i >= 1) by (nonlinear_arith)
                requires
                    tbs_i >= 1;
            if derived_virtual_base(cp) < 1 {
                assert((tbs_i * tbs_i) * derived_virtual_base(cp) <= 0) by (nonlinear_arith)
                    requires
                        tbs_i * tbs_i >= 1,
                        derived_virtual_base(cp) <= 0;
            }
        }
    }
    let pool = PoolState {
        schema_version: SCHEMA_VERSION,
        status: PoolStatus::Fund,
        curve_kind: kind,
        migrate_type,
        base_decimals: base_mint_param.decimals,
        quote_decimals,
        supply,
        total_base_sell: tbs,
        virtual_base,
        virtual_quote,
        real_base: tbs,
        real_quote: 0,
        total_quote_fund_raising: tqf,
        quote_protocol_fee: 0,
        platform_fee: 0,
        migrate_fee: global.migrate_fee,
        vesting_schedule: VestingSchedule {
            total_locked_amount: locked,
            cliff_period: vesting_param.cliff_period,
            unlock_period: vesting_param.unlock_period,
            start_time: 0,
            allocated_share_amount: 0,
        },
        global_config: accounts.global_config,
        platform_config: accounts.platform_config,
        base_mint: accounts.base_mint,
        quote_mint: accounts.quote_mint,
        base_vault: accounts.base_vault,
        quote_vault: accounts.quote_vault,
        creator: accounts.creator,
        base_token_program: accounts.base_token_program,
        quote_token_program: accounts.quote_token_program,
        amm_creator_fee_on: AmmCreatorFeeOn::QuoteToken,
    };
    Ok(pool)
}

} // verus!
