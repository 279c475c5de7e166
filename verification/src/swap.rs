//! Quote/execute orchestrator: composes the curve engine, the fee ledger
//! and the lifecycle state machine into the four swap operations.
//!
//! Every operation is atomic: either the pool snapshot is updated as a
//! whole and a `SwapResult` reports the amounts the caller must transfer,
//! or an error is returned and the snapshot is untouched.
//!
//! On a buy, fees are assessed on the requested quote amount before the
//! curve is applied.  A buy that would push the raised quote past the
//! funding target is filled only up to the target: the unconsumed curve
//! input is refunded (it never enters the pool), and the funding-complete
//! transition fires in the same operation.  On a sell, fees are deducted
//! from the quote the curve pays out.

use vstd::prelude::*;

use crate::constant_curve::constant_buy_exact_in;
use crate::constant_curve::constant_buy_exact_out;
use crate::constant_curve::constant_sell_exact_in;
use crate::constant_curve::constant_sell_exact_out;
use crate::constant_curve::cp_buy_in_for_out;
use crate::constant_curve::cp_buy_out;
use crate::constant_curve::cp_sell_in_for_out;
use crate::constant_curve::cp_sell_out;
use crate::errors::LaunchpadError;
use crate::fees::fee_of;
use crate::fees::split_trade_fee;
use crate::fixed_curve::fixed_buy_exact_in;
use crate::fixed_curve::fixed_buy_exact_out;
use crate::fixed_curve::fixed_buy_in_for_out;
use crate::fixed_curve::fixed_buy_out;
use crate::fixed_curve::fixed_sell_exact_in;
use crate::fixed_curve::fixed_sell_exact_out;
use crate::fixed_curve::fixed_sell_in_for_out;
use crate::fixed_curve::fixed_sell_out;
use crate::lifecycle::trigger_migration_spec;
use crate::lifecycle::try_trigger_migration;
use crate::linear_curve::linear_buy_exact_in;
use crate::linear_curve::linear_buy_exact_out;
use crate::linear_curve::linear_buy_out;
use crate::linear_curve::linear_cost;
use crate::linear_curve::linear_payout;
use crate::linear_curve::linear_sell_exact_in;
use crate::linear_curve::linear_sell_exact_out;
use crate::linear_curve::linear_sell_in_for_out;
use crate::states::CurveKind;
use crate::states::GlobalConfig;
use crate::states::PlatformConfig;
use crate::states::PoolState;
use crate::states::PoolStatus;
use crate::states::FEE_RATE_DENOMINATOR_VALUE;

verus! {

/// The amounts one executed swap asks the caller to move.
///
/// `amount_in` is what the user is actually charged (for buys: quote,
/// including fees and net of any refunded excess; for sells: base), and
/// `amount_out` what the user receives.  The two accumulated fee portions
/// stay in the pool's vault; the creator and share portions are owed to
/// the creator and the caller-named referrer respectively.
#[derive(Clone, Copy, Debug, PartialEq, Eq, Structural)]
pub struct SwapResult {
    /// Amount charged to the user.
    pub amount_in: u64,
    /// Amount paid out to the user.
    pub amount_out: u64,
    /// Protocol fee portion, accumulated on the pool.
    pub protocol_fee: u64,
    /// Platform fee portion, accumulated on the pool.
    pub platform_fee: u64,
    /// Creator fee portion, to transfer to the creator's vault.
    pub creator_fee: u64,
    /// Share (referrer) fee portion, to transfer to the referrer.
    pub share_fee: u64,
}

/// The four fee rates of one trade, together.
pub open spec fn total_rate(
    global: GlobalConfig,
    platform: PlatformConfig,
    share_fee_rate: int,
) -> int {
    global.trade_fee_rate + platform.fee_rate + platform.creator_fee_rate + share_fee_rate
}

/// What remains of `gross` after the four fees of one trade.
pub open spec fn net_after_fees(
    gross: int,
    global: GlobalConfig,
    platform: PlatformConfig,
    share_fee_rate: int,
) -> int {
    gross - fee_of(gross, global.trade_fee_rate as int) - fee_of(gross, platform.fee_rate as int)
        - fee_of(gross, platform.creator_fee_rate as int) - fee_of(gross, share_fee_rate)
}

/// Quote units the pool can still absorb before funding completes.
pub open spec fn quote_room(p: PoolState) -> int {
    p.total_quote_fund_raising - p.real_quote
}

/// Base units the pool's curve pays out for `dq` net quote units.
pub open spec fn curve_buy_out_spec(p: PoolState, dq: int) -> int {
    match p.curve_kind {
        CurveKind::Constant => cp_buy_out(
            p.virtual_base + p.real_base,
            p.virtual_quote + p.real_quote,
            dq,
        ),
        CurveKind::Fixed => fixed_buy_out(p.virtual_base as int, p.virtual_quote as int, dq),
        CurveKind::Linear => linear_buy_out(p.virtual_base as int, p.sold(), dq),
    }
}

/// Net quote units the pool's curve charges for exactly `db` base units.
pub open spec fn curve_buy_in_spec(p: PoolState, db: int) -> int {
    match p.curve_kind {
        CurveKind::Constant => cp_buy_in_for_out(
            p.virtual_base + p.real_base,
            p.virtual_quote + p.real_quote,
            db,
        ),
        CurveKind::Fixed => fixed_buy_in_for_out(p.virtual_base as int, p.virtual_quote as int, db),
        CurveKind::Linear => linear_cost(p.virtual_base as int, p.sold(), db),
    }
}

/// Gross quote units the pool's curve pays out for `db` base units sold
/// back.
pub open spec fn curve_sell_out_spec(p: PoolState, db: int) -> int {
    match p.curve_kind {
        CurveKind::Constant => cp_sell_out(
            p.virtual_base + p.real_base,
            p.virtual_quote + p.real_quote,
            db,
        ),
        CurveKind::Fixed => fixed_sell_out(p.virtual_base as int, p.virtual_quote as int, db),
        CurveKind::Linear => linear_payout(p.virtual_base as int, p.sold(), db),
    }
}

/// Base units the pool's curve charges for paying out `dq` gross quote
/// units.
pub open spec fn curve_sell_in_spec(p: PoolState, dq: int) -> int {
    match p.curve_kind {
        CurveKind::Constant => cp_sell_in_for_out(
            p.virtual_base + p.real_base,
            p.virtual_quote + p.real_quote,
            dq,
        ),
        CurveKind::Fixed => fixed_sell_in_for_out(
            p.virtual_base as int,
            p.virtual_quote as int,
            dq,
        ),
        CurveKind::Linear => linear_sell_in_for_out(p.virtual_base as int, p.sold(), dq),
    }
}

/// The pool after a buy that moved `used` quote onto the curve for `out`
/// base, accumulated the two pool fees, and was offered the
/// funding-complete transition.
pub open spec fn pool_after_buy(p: PoolState, used: int, out: int, pf: int, plf: int, now: u64)
    -> PoolState {
    trigger_migration_spec(
        PoolState {
            real_base: (p.real_base - out) as u64,
            real_quote: (p.real_quote + used) as u64,
            quote_protocol_fee: (p.quote_protocol_fee + pf) as u64,
            platform_fee: (p.platform_fee + plf) as u64,
            ..p
        },
        now,
    )
}

/// The pool after a sell that returned `din` base to the curve, paid out
/// `gross` quote, and accumulated the two pool fees.
pub open spec fn pool_after_sell(p: PoolState, din: int, gross: int, pf: int, plf: int)
    -> PoolState {
    PoolState {
        real_base: (p.real_base + din) as u64,
        real_quote: (p.real_quote - gross) as u64,
        quote_protocol_fee: (p.quote_protocol_fee + pf) as u64,
        platform_fee: (p.platform_fee + plf) as u64,
        ..p
    }
}

/// Whether the pool's curve can pay out `dq` gross quote units within what
/// was sold off the curve so far.
pub open spec fn curve_sell_in_possible(p: PoolState, dq: int) -> bool {
    match p.curve_kind {
        CurveKind::Constant => cp_sell_in_for_out(
            p.virtual_base + p.real_base,
            p.virtual_quote + p.real_quote,
            dq,
        ) <= p.sold(),
        CurveKind::Fixed => fixed_sell_in_for_out(p.virtual_base as int, p.virtual_quote as int, dq)
            <= p.sold(),
        CurveKind::Linear => linear_payout(p.virtual_base as int, p.sold(), p.sold()) >= dq,
    }
}

/// Spends `amount_in` quote units to buy base along the curve.
///
/// Fees are assessed on `amount_in` first; the remainder drives the curve,
/// capped at what the pool can still absorb before its funding target —
/// any capped remainder is refunded, never kept.  Fails with
/// `PoolNotTrading` unless the pool is funding, `InvalidConfig` when the
/// caller's share fee rate exceeds the configured maximum,
/// `InsufficientLiquidity` when the curve's output exceeds the base
/// reserve, `SlippageExceeded` when the output falls below
/// `minimum_amount_out`, and `ArithmeticError` when a fee accumulator
/// would overflow.
pub fn buy_exact_in(
    pool: &mut PoolState,
    global: &GlobalConfig,
    platform: &PlatformConfig,
    amount_in: u64,
    minimum_amount_out: u64,
    share_fee_rate: u64,
    now: u64,
) -> (r: Result<SwapResult, LaunchpadError>)
    requires
        old(pool).wf(),
        global.wf(),
        platform.wf(),
        total_rate(*global, *platform, global.max_share_fee_rate as int)
            <= FEE_RATE_DENOMINATOR_VALUE,
    ensures
        r is Err ==> *final(pool) == *old(pool),
        !(old(pool).status is Fund) ==> r == Err::<SwapResult, LaunchpadError>(
            LaunchpadError::PoolNotTrading,
        ),
        old(pool).status is Fund && share_fee_rate > global.max_share_fee_rate ==> r == Err::<
            SwapResult,
            LaunchpadError,
        >(LaunchpadError::InvalidConfig),
        old(pool).status is Fund && share_fee_rate <= global.max_share_fee_rate ==> ({
            let p = *old(pool);
            let pf = fee_of(amount_in as int, global.trade_fee_rate as int);
            let plf = fee_of(amount_in as int, platform.fee_rate as int);
            let cf = fee_of(amount_in as int, platform.creator_fee_rate as int);
            let sf = fee_of(amount_in as int, share_fee_rate as int);
            let net = amount_in - pf - plf - cf - sf;
            let room = quote_room(p);
            let used = if net <= room { net } else { room };
            let out = curve_buy_out_spec(p, used);
            &&& (out > p.real_base ==> r == Err::<SwapResult, LaunchpadError>(
                LaunchpadError::InsufficientLiquidity,
            ))
            &&& (out <= p.real_base && out < minimum_amount_out ==> r == Err::<
                SwapResult,
                LaunchpadError,
            >(LaunchpadError::SlippageExceeded))
            &&& (out <= p.real_base && out >= minimum_amount_out && (p.quote_protocol_fee + pf
                > u64::MAX || p.platform_fee + plf > u64::MAX) ==> r == Err::<
                SwapResult,
                LaunchpadError,
            >(LaunchpadError::ArithmeticError))
            &&& (out <= p.real_base && out >= minimum_amount_out && p.quote_protocol_fee + pf
                <= u64::MAX && p.platform_fee + plf <= u64::MAX ==> {
                &&& r == Ok::<SwapResult, LaunchpadError>(
                    SwapResult {
                        amount_in: (amount_in - (net - used)) as u64,
                        amount_out: out as u64,
                        protocol_fee: pf as u64,
                        platform_fee: plf as u64,
                        creator_fee: cf as u64,
                        share_fee: sf as u64,
                    },
                )
                &&& *final(pool) == pool_after_buy(p, used, out, pf, plf, now)
                &&& final(pool).wf()
            })
        }),
{
    if !matches!(pool.status, PoolStatus::Fund) {
        return Err(LaunchpadError::PoolNotTrading);
    }
    if share_fee_rate > global.max_share_fee_rate {
        return Err(LaunchpadError::InvalidConfig);
    }
    let fees = split_trade_fee(
        amount_in,
        global.trade_fee_rate,
        platform.fee_rate,
        platform.creator_fee_rate,
        share_fee_rate,
    );
    let total_fee = fees.protocol_fee + fees.platform_fee + fees.creator_fee + fees.share_fee;
    let net = amount_in - total_fee;
    let room = pool.total_quote_fund_raising - pool.real_quote;
    let used = if net <= room { net } else { room };
    let out: u64 = match pool.curve_kind {
        CurveKind::Constant => constant_buy_exact_in(
            pool.virtual_base,
            pool.virtual_quote,
            pool.real_base,
            pool.real_quote,
            used,
        ),
        CurveKind::Fixed => {
            match fixed_buy_exact_in(pool.virtual_base, pool.virtual_quote, used) {
                Ok(o) => o,
                Err(_) => {
                    return Err(LaunchpadError::InsufficientLiquidity);
                },
            }
        },
        CurveKind::Linear => {
            let sold = pool.total_base_sell - pool.real_base;
            linear_buy_exact_in(pool.virtual_base, sold, used)
        },
    };
    if out > pool.real_base {
        return Err(LaunchpadError::InsufficientLiquidity);
    }
    if out < minimum_amount_out {
        return Err(LaunchpadError::SlippageExceeded);
    }
    if fees.protocol_fee > u64::MAX - pool.quote_protocol_fee || fees.platform_fee > u64::MAX
        - pool.platform_fee {
        return Err(LaunchpadError::ArithmeticError);
    }
    pool.real_quote = pool.real_quote + used;
    pool.real_base = pool.real_base - out;
    pool.quote_protocol_fee = pool.quote_protocol_fee + fees.protocol_fee;
    pool.platform_fee = pool.platform_fee + fees.platform_fee;
    let _ = try_trigger_migration(pool, now);
    Ok(
        SwapResult {
            amount_in: amount_in - (net - used),
            amount_out: out,
            protocol_fee: fees.protocol_fee,
            platform_fee: fees.platform_fee,
            creator_fee: fees.creator_fee,
            share_fee: fees.share_fee,
        },
    )
}

/// Buys exactly `amount_out` base units, computing the quote to charge.
///
/// The curve's net requirement is grossed up so that the four fees come
/// out of what the user pays; the pool receives at least the curve's
/// requirement and never more than its remaining funding room (any
/// gross-up excess past the target is refunded).  A request whose net
/// requirement would push past the funding target is rejected with
/// `InsufficientLiquidity` rather than partially filled, since the output
/// is fixed.
pub fn buy_exact_out(
    pool: &mut PoolState,
    global: &GlobalConfig,
    platform: &PlatformConfig,
    amount_out: u64,
    maximum_amount_in: u64,
    share_fee_rate: u64,
    now: u64,
) -> (r: Result<SwapResult, LaunchpadError>)
    requires
        old(pool).wf(),
        global.wf(),
        platform.wf(),
        total_rate(*global, *platform, global.max_share_fee_rate as int)
            <= FEE_RATE_DENOMINATOR_VALUE,
    ensures
        r is Err ==> *final(pool) == *old(pool),
        !(old(pool).status is Fund) ==> r == Err::<SwapResult, LaunchpadError>(
            LaunchpadError::PoolNotTrading,
        ),
        old(pool).status is Fund && share_fee_rate > global.max_share_fee_rate ==> r == Err::<
            SwapResult,
            LaunchpadError,
        >(LaunchpadError::InvalidConfig),
        old(pool).status is Fund && share_fee_rate <= global.max_share_fee_rate ==> ({
            let p = *old(pool);
            let d = FEE_RATE_DENOMINATOR_VALUE as int;
            let rs = total_rate(*global, *platform, share_fee_rate as int);
            let need = curve_buy_in_spec(p, amount_out as int);
            let room = quote_room(p);
            &&& (amount_out > p.real_base || need > room ==> r == Err::<
                SwapResult,
                LaunchpadError,
            >(LaunchpadError::InsufficientLiquidity))
            &&& (amount_out <= p.real_base && need <= room ==> ({
                let gross = crate::math::ceil_div(need * d, d - rs);
                &&& (rs == d || gross > u64::MAX ==> r == Err::<SwapResult, LaunchpadError>(
                    LaunchpadError::ArithmeticError,
                ))
                &&& (rs < d && gross <= u64::MAX ==> ({
                    let pf = fee_of(gross, global.trade_fee_rate as int);
                    let plf = fee_of(gross, platform.fee_rate as int);
                    let cf = fee_of(gross, platform.creator_fee_rate as int);
                    let sf = fee_of(gross, share_fee_rate as int);
                    let net = gross - pf - plf - cf - sf;
                    let used = if net <= room { net } else { room };
                    let charged = gross - (net - used);
                    &&& (charged > maximum_amount_in ==> r == Err::<SwapResult, LaunchpadError>(
                        LaunchpadError::SlippageExceeded,
                    ))
                    &&& (charged <= maximum_amount_in && (p.quote_protocol_fee + pf > u64::MAX
                        || p.platform_fee + plf > u64::MAX) ==> r == Err::<
                        SwapResult,
                        LaunchpadError,
                    >(LaunchpadError::ArithmeticError))
                    &&& (charged <= maximum_amount_in && p.quote_protocol_fee + pf <= u64::MAX
                        && p.platform_fee + plf <= u64::MAX ==> {
                        &&& r == Ok::<SwapResult, LaunchpadError>(
                            SwapResult {
                                amount_in: charged as u64,
                                amount_out,
                                protocol_fee: pf as u64,
                                platform_fee: plf as u64,
                                creator_fee: cf as u64,
                                share_fee: sf as u64,
                            },
                        )
                        &&& *final(pool) == pool_after_buy(
                            p,
                            used,
                            amount_out as int,
                            pf,
                            plf,
                            now,
                        )
                        &&& final(pool).wf()
                    })
                }))
            }))
        }),
{
    if !matches!(pool.status, PoolStatus::Fund) {
        return Err(LaunchpadError::PoolNotTrading);
    }
    if share_fee_rate > global.max_share_fee_rate {
        return Err(LaunchpadError::InvalidConfig);
    }
    if amount_out > pool.real_base {
        return Err(LaunchpadError::InsufficientLiquidity);
    }
    let room = pool.total_quote_fund_raising - pool.real_quote;
    let need: u64 = match pool.curve_kind {
        CurveKind::Constant => {
            match constant_buy_exact_out(
                pool.virtual_base,
                pool.virtual_quote,
                pool.real_base,
                pool.real_quote,
                amount_out,
            ) {
                Ok(n) => n,
                Err(_) => {
                    return Err(LaunchpadError::InsufficientLiquidity);
                },
            }
        },
        CurveKind::Fixed => {
            match fixed_buy_exact_out(pool.virtual_base, pool.virtual_quote, amount_out) {
                Ok(n) => n,
                Err(_) => {
                    return Err(LaunchpadError::InsufficientLiquidity);
                },
            }
        },
        CurveKind::Linear => {
            let sold = pool.total_base_sell - pool.real_base;
            match linear_buy_exact_out(pool.virtual_base, sold, amount_out) {
                Ok(n) => n,
                Err(_) => {
                    return Err(LaunchpadError::InsufficientLiquidity);
                },
            }
        },
    };
    if need > room {
        return Err(LaunchpadError::InsufficientLiquidity);
    }
    let rate_rest = FEE_RATE_DENOMINATOR_VALUE - global.trade_fee_rate - platform.fee_rate
        - platform.creator_fee_rate - share_fee_rate;
    let gross: u64 = match crate::math::mul_div_ceil(need, FEE_RATE_DENOMINATOR_VALUE, rate_rest) {
        Ok(g) => g,
        Err(e) => {
            return Err(e);
        },
    };
    let fees = split_trade_fee(
        gross,
        global.trade_fee_rate,
        platform.fee_rate,
        platform.creator_fee_rate,
        share_fee_rate,
    );
    let total_fee = fees.protocol_fee + fees.platform_fee + fees.creator_fee + fees.share_fee;
    let net = gross - total_fee;
    proof {
        let d = FEE_RATE_DENOMINATOR_VALUE as int;
        let rs = total_rate(*global, *platform, share_fee_rate as int);
        assert(need * d >= 0) by (nonlinear_arith)
            requires
                need >= 0,
                d >= 1;
        crate::math::lemma_ceil_div_bounds(need * d, d - rs);
        assert(gross * (d - rs) == (d - rs) * gross) by (nonlinear_arith);
        assert(gross * (d - rs) >= need * d);
        crate::fees::lemma_gross_up_covers(
            gross as int,
            global.trade_fee_rate as int,
            platform.fee_rate as int,
            platform.creator_fee_rate as int,
            share_fee_rate as int,
            need as int,
        );
    }
    let used = if net <= room {
        net
    } else {
        room
    };
    let charged = gross - (net - used);
    if charged > maximum_amount_in {
        return Err(LaunchpadError::SlippageExceeded);
    }
    if fees.protocol_fee > u64::MAX - pool.quote_protocol_fee || fees.platform_fee > u64::MAX
        - pool.platform_fee {
        return Err(LaunchpadError::ArithmeticError);
    }
    pool.real_quote = pool.real_quote + used;
    pool.real_base = pool.real_base - amount_out;
    pool.quote_protocol_fee = pool.quote_protocol_fee + fees.protocol_fee;
    pool.platform_fee = pool.platform_fee + fees.platform_fee;
    let _ = try_trigger_migration(pool, now);
    Ok(
        SwapResult {
            amount_in: charged,
            amount_out,
            protocol_fee: fees.protocol_fee,
            platform_fee: fees.platform_fee,
            creator_fee: fees.creator_fee,
            share_fee: fees.share_fee,
        },
    )
}

/// Sells exactly `amount_in` base units back to the curve for quote.
///
/// The curve prices the returned base against what was sold so far; the
/// four fees are deducted from the quote the curve pays out, and only the
/// remainder reaches the user.  Sells are legal only while the pool is
/// funding, and only for base that was bought off this curve.
pub fn sell_exact_in(
    pool: &mut PoolState,
    global: &GlobalConfig,
    platform: &PlatformConfig,
    amount_in: u64,
    minimum_amount_out: u64,
    share_fee_rate: u64,
) -> (r: Result<SwapResult, LaunchpadError>)
    requires
        old(pool).wf(),
        global.wf(),
        platform.wf(),
        total_rate(*global, *platform, global.max_share_fee_rate as int)
            <= FEE_RATE_DENOMINATOR_VALUE,
    ensures
        r is Err ==> *final(pool) == *old(pool),
        !(old(pool).status is Fund) ==> r == Err::<SwapResult, LaunchpadError>(
            LaunchpadError::PoolNotTrading,
        ),
        old(pool).status is Fund && share_fee_rate > global.max_share_fee_rate ==> r == Err::<
            SwapResult,
            LaunchpadError,
        >(LaunchpadError::InvalidConfig),
        old(pool).status is Fund && share_fee_rate <= global.max_share_fee_rate ==> ({
            let p = *old(pool);
            let gross = curve_sell_out_spec(p, amount_in as int);
            &&& (amount_in > p.sold() ==> r == Err::<SwapResult, LaunchpadError>(
                LaunchpadError::InsufficientLiquidity,
            ))
            &&& (amount_in <= p.sold() && gross > p.real_quote ==> r == Err::<
                SwapResult,
                LaunchpadError,
            >(LaunchpadError::InsufficientLiquidity))
            &&& (amount_in <= p.sold() && gross <= p.real_quote ==> ({
                let pf = fee_of(gross, global.trade_fee_rate as int);
                let plf = fee_of(gross, platform.fee_rate as int);
                let cf = fee_of(gross, platform.creator_fee_rate as int);
                let sf = fee_of(gross, share_fee_rate as int);
                let user_out = gross - pf - plf - cf - sf;
                &&& (user_out < minimum_amount_out ==> r == Err::<SwapResult, LaunchpadError>(
                    LaunchpadError::SlippageExceeded,
                ))
                &&& (user_out >= minimum_amount_out && (p.quote_protocol_fee + pf > u64::MAX
                    || p.platform_fee + plf > u64::MAX) ==> r == Err::<
                    SwapResult,
                    LaunchpadError,
                >(LaunchpadError::ArithmeticError))
                &&& (user_out >= minimum_amount_out && p.quote_protocol_fee + pf <= u64::MAX
                    && p.platform_fee + plf <= u64::MAX ==> {
                    &&& r == Ok::<SwapResult, LaunchpadError>(
                        SwapResult {
                            amount_in,
                            amount_out: user_out as u64,
                            protocol_fee: pf as u64,
                            platform_fee: plf as u64,
                            creator_fee: cf as u64,
                            share_fee: sf as u64,
                        },
                    )
                    &&& *final(pool) == pool_after_sell(p, amount_in as int, gross, pf, plf)
                    &&& final(pool).wf()
                })
            }))
        }),
{
    if !matches!(pool.status, PoolStatus::Fund) {
        return Err(LaunchpadError::PoolNotTrading);
    }
    if share_fee_rate > global.max_share_fee_rate {
        return Err(LaunchpadError::InvalidConfig);
    }
    let sold = pool.total_base_sell - pool.real_base;
    if amount_in > sold {
        return Err(LaunchpadError::InsufficientLiquidity);
    }
    let gross: u64 = match pool.curve_kind {
        CurveKind::Constant => constant_sell_exact_in(
            pool.virtual_base,
            pool.virtual_quote,
            pool.real_base,
            pool.real_quote,
            amount_in,
        ),
        CurveKind::Fixed => {
            match fixed_sell_exact_in(pool.virtual_base, pool.virtual_quote, amount_in) {
                Ok(g) => g,
                Err(_) => {
                    return Err(LaunchpadError::InsufficientLiquidity);
                },
            }
        },
        CurveKind::Linear => {
            match linear_sell_exact_in(pool.virtual_base, sold, amount_in) {
                Ok(g) => g,
                Err(_) => {
                    return Err(LaunchpadError::InsufficientLiquidity);
                },
            }
        },
    };
    if gross > pool.real_quote {
        return Err(LaunchpadError::InsufficientLiquidity);
    }
    let fees = split_trade_fee(
        gross,
        global.trade_fee_rate,
        platform.fee_rate,
        platform.creator_fee_rate,
        share_fee_rate,
    );
    let total_fee = fees.protocol_fee + fees.platform_fee + fees.creator_fee + fees.share_fee;
    let user_out = gross - total_fee;
    if user_out < minimum_amount_out {
        return Err(LaunchpadError::SlippageExceeded);
    }
    if fees.protocol_fee > u64::MAX - pool.quote_protocol_fee || fees.platform_fee > u64::MAX
        - pool.platform_fee {
        return Err(LaunchpadError::ArithmeticError);
    }
    pool.real_base = pool.real_base + amount_in;
    pool.real_quote = pool.real_quote - gross;
    pool.quote_protocol_fee = pool.quote_protocol_fee + fees.protocol_fee;
    pool.platform_fee = pool.platform_fee + fees.platform_fee;
    Ok(
        SwapResult {
            amount_in,
            amount_out: user_out,
            protocol_fee: fees.protocol_fee,
            platform_fee: fees.platform_fee,
            creator_fee: fees.creator_fee,
            share_fee: fees.share_fee,
        },
    )
}

/// Sells base back to the curve until the user has received at least
/// `amount_out` quote units after fees.
///
/// The requested amount is grossed up so the fees come out of the pool's
/// payout, the curve computes the smallest base amount whose payout covers
/// that gross, and the user receives the gross minus fees — never less
/// than requested.
pub fn sell_exact_out(
    pool: &mut PoolState,
    global: &GlobalConfig,
    platform: &PlatformConfig,
    amount_out: u64,
    maximum_amount_in: u64,
    share_fee_rate: u64,
) -> (r: Result<SwapResult, LaunchpadError>)
    requires
        old(pool).wf(),
        global.wf(),
        platform.wf(),
        total_rate(*global, *platform, global.max_share_fee_rate as int)
            <= FEE_RATE_DENOMINATOR_VALUE,
    ensures
        r is Err ==> *final(pool) == *old(pool),
        !(old(pool).status is Fund) ==> r == Err::<SwapResult, LaunchpadError>(
            LaunchpadError::PoolNotTrading,
        ),
        old(pool).status is Fund && share_fee_rate > global.max_share_fee_rate ==> r == Err::<
            SwapResult,
            LaunchpadError,
        >(LaunchpadError::InvalidConfig),
        old(pool).status is Fund && share_fee_rate <= global.max_share_fee_rate ==> ({
            let p = *old(pool);
            let d = FEE_RATE_DENOMINATOR_VALUE as int;
            let rs = total_rate(*global, *platform, share_fee_rate as int);
            let gross = crate::math::ceil_div(amount_out * d, d - rs);
            &&& (rs == d || gross > u64::MAX ==> r == Err::<SwapResult, LaunchpadError>(
                LaunchpadError::ArithmeticError,
            ))
            &&& (rs < d && gross <= u64::MAX ==> ({
                let din = curve_sell_in_spec(p, gross);
                &&& (gross > p.real_quote ==> r == Err::<SwapResult, LaunchpadError>(
                    LaunchpadError::InsufficientLiquidity,
                ))
                &&& (gross <= p.real_quote && !curve_sell_in_possible(p, gross) ==> r == Err::<
                    SwapResult,
                    LaunchpadError,
                >(LaunchpadError::InsufficientLiquidity))
                &&& (gross <= p.real_quote && curve_sell_in_possible(p, gross) ==> ({
                    let pf = fee_of(gross, global.trade_fee_rate as int);
                    let plf = fee_of(gross, platform.fee_rate as int);
                    let cf = fee_of(gross, platform.creator_fee_rate as int);
                    let sf = fee_of(gross, share_fee_rate as int);
                    let user_out = gross - pf - plf - cf - sf;
                    &&& (din > maximum_amount_in ==> r == Err::<SwapResult, LaunchpadError>(
                        LaunchpadError::SlippageExceeded,
                    ))
                    &&& (din <= maximum_amount_in && (p.quote_protocol_fee + pf > u64::MAX
                        || p.platform_fee + plf > u64::MAX) ==> r == Err::<
                        SwapResult,
                        LaunchpadError,
                    >(LaunchpadError::ArithmeticError))
                    &&& (din <= maximum_amount_in && p.quote_protocol_fee + pf <= u64::MAX
                        && p.platform_fee + plf <= u64::MAX ==> {
                        &&& user_out >= amount_out
                        &&& r == Ok::<SwapResult, LaunchpadError>(
                            SwapResult {
                                amount_in: din as u64,
                                amount_out: user_out as u64,
                                protocol_fee: pf as u64,
                                platform_fee: plf as u64,
                                creator_fee: cf as u64,
                                share_fee: sf as u64,
                            },
                        )
                        &&& *final(pool) == pool_after_sell(p, din, gross, pf, plf)
                        &&& final(pool).wf()
                    })
                }))
            }))
        }),
{
    if !matches!(pool.status, PoolStatus::Fund) {
        return Err(LaunchpadError::PoolNotTrading);
    }
    if share_fee_rate > global.max_share_fee_rate {
        return Err(LaunchpadError::InvalidConfig);
    }
    let rate_rest = FEE_RATE_DENOMINATOR_VALUE - global.trade_fee_rate - platform.fee_rate
        - platform.creator_fee_rate - share_fee_rate;
    let gross: u64 = match crate::math::mul_div_ceil(
        amount_out,
        FEE_RATE_DENOMINATOR_VALUE,
        rate_rest,
    ) {
        Ok(g) => g,
        Err(e) => {
            return Err(e);
        },
    };
    if gross > pool.real_quote {
        return Err(LaunchpadError::InsufficientLiquidity);
    }
    let sold = pool.total_base_sell - pool.real_base;
    let din: u64 = match pool.curve_kind {
        CurveKind::Constant => {
            match constant_sell_exact_out(
                pool.virtual_base,
                pool.virtual_quote,
                pool.real_base,
                pool.real_quote,
                gross,
            ) {
                Ok(n) => n,
                Err(_) => {
                    return Err(LaunchpadError::InsufficientLiquidity);
                },
            }
        },
        CurveKind::Fixed => {
            match fixed_sell_exact_out(pool.virtual_base, pool.virtual_quote, gross) {
                Ok(n) => n,
                Err(_) => {
                    return Err(LaunchpadError::InsufficientLiquidity);
                },
            }
        },
        CurveKind::Linear => {
            match linear_sell_exact_out(pool.virtual_base, sold, gross) {
                Ok(n) => n,
                Err(e) => {
                    return Err(e);
                },
            }
        },
    };
    if din > sold {
        return Err(LaunchpadError::InsufficientLiquidity);
    }
    if din > maximum_amount_in {
        return Err(LaunchpadError::SlippageExceeded);
    }
    let fees = split_trade_fee(
        gross,
        global.trade_fee_rate,
        platform.fee_rate,
        platform.creator_fee_rate,
        share_fee_rate,
    );
    let total_fee = fees.protocol_fee + fees.platform_fee + fees.creator_fee + fees.share_fee;
    let user_out = gross - total_fee;
    proof {
        let d = FEE_RATE_DENOMINATOR_VALUE as int;
        let rs = total_rate(*global, *platform, share_fee_rate as int);
        assert(amount_out * d >= 0) by (nonlinear_arith)
            requires
                amount_out >= 0,
                d >= 1;
        crate::math::lemma_ceil_div_bounds(amount_out * d, d - rs);
        assert(gross * (d - rs) == (d - rs) * gross) by (nonlinear_arith);
        crate::fees::lemma_gross_up_covers(
            gross as int,
            global.trade_fee_rate as int,
            platform.fee_rate as int,
            platform.creator_fee_rate as int,
            share_fee_rate as int,
            amount_out as int,
        );
    }
    if fees.protocol_fee > u64::MAX - pool.quote_protocol_fee || fees.platform_fee > u64::MAX
        - pool.platform_fee {
        return Err(LaunchpadError::ArithmeticError);
    }
    pool.real_base = pool.real_base + din;
    pool.real_quote = pool.real_quote - gross;
    pool.quote_protocol_fee = pool.quote_protocol_fee + fees.protocol_fee;
    pool.platform_fee = pool.platform_fee + fees.platform_fee;
    Ok(
        SwapResult {
            amount_in: din,
            amount_out: user_out,
            protocol_fee: fees.protocol_fee,
            platform_fee: fees.platform_fee,
            creator_fee: fees.creator_fee,
            share_fee: fees.share_fee,
        },
    )
}

} // verus!
