//! Fee ledger: splits the gross amount of a trade into protocol, platform,
//! creator and share (referrer) portions, each rounded down, and manages
//! the pool's fee accumulators.
//!
//! The portions that accumulate on the pool (`quote_protocol_fee`,
//! `platform_fee`) are only ever reset by an explicit claim, atomically
//! with reporting the amount to transfer, so the same fee cannot be
//! claimed twice.

use vstd::prelude::*;

use crate::errors::LaunchpadError;
use crate::math::lemma_floor_div_bounds;
use crate::states::FEE_RATE_DENOMINATOR_VALUE;
use crate::states::PoolState;

verus! {

/// The fee owed on a gross amount at `rate` hundredths of a basis point,
/// rounded down.
pub open spec fn fee_of(gross: int, rate: int) -> int {
    (gross * rate) / (FEE_RATE_DENOMINATOR_VALUE as int)
}

/// One trade's gross fee, split four ways.
#[derive(Clone, Copy, Debug, PartialEq, Eq, Structural)]
pub struct TradeFee {
    /// Portion accumulated on the pool for the protocol.
    pub protocol_fee: u64,
    /// Portion accumulated on the pool for the platform.
    pub platform_fee: u64,
    /// Portion owed to the token creator, transferred at trade time.
    pub creator_fee: u64,
    /// Portion owed to the caller-named referrer, transferred at trade time.
    pub share_fee: u64,
}

impl TradeFee {
    /// Everything deducted from the gross amount.
    pub open spec fn total(&self) -> int {
        self.protocol_fee + self.platform_fee + self.creator_fee + self.share_fee
    }
}

/// As long as the rates together stay at or below 100%, the rounded-down
/// fee portions together never exceed the gross amount.
pub proof fn lemma_fee_split_within_gross(gross: int, r1: int, r2: int, r3: int, r4: int)
    requires
        0 <= gross,
        0 <= r1,
        0 <= r2,
        0 <= r3,
        0 <= r4,
        r1 + r2 + r3 + r4 <= FEE_RATE_DENOMINATOR_VALUE,
    ensures
        fee_of(gross, r1) + fee_of(gross, r2) + fee_of(gross, r3) + fee_of(gross, r4) <= gross,
{
    let d = FEE_RATE_DENOMINATOR_VALUE as int;
    assert(gross * r1 >= 0 && gross * r2 >= 0 && gross * r3 >= 0 && gross * r4 >= 0)
        by (nonlinear_arith)
        requires
            gross >= 0,
            r1 >= 0,
            r2 >= 0,
            r3 >= 0,
            r4 >= 0;
    lemma_floor_div_bounds(gross * r1, d);
    lemma_floor_div_bounds(gross * r2, d);
    lemma_floor_div_bounds(gross * r3, d);
    lemma_floor_div_bounds(gross * r4, d);
    let total = fee_of(gross, r1) + fee_of(gross, r2) + fee_of(gross, r3) + fee_of(gross, r4);
    assert(d * total <= gross * r1 + gross * r2 + gross * r3 + gross * r4) by (nonlinear_arith)
        requires
            total == (gross * r1) / d + (gross * r2) / d + (gross * r3) / d + (gross * r4) / d,
            d * ((gross * r1) / d) <= gross * r1,
            d * ((gross * r2) / d) <= gross * r2,
            d * ((gross * r3) / d) <= gross * r3,
            d * ((gross * r4) / d) <= gross * r4;
    assert(gross * r1 + gross * r2 + gross * r3 + gross * r4 <= gross * d) by (nonlinear_arith)
        requires
            gross >= 0,
            r1 + r2 + r3 + r4 <= d;
    if total > gross {
        assert(d * total >= d * (gross + 1) && d * (gross + 1) == gross * d + d)
            by (nonlinear_arith)
            requires
                total >= gross + 1,
                d >= 1;
    }
}

/// A gross amount scaled up against the total rate still covers its target
/// after the rounded-down fees: if `gross * (D - R) >= target * D`, where
/// `R` is the sum of the four rates, then the net after fees is at least
/// `target`.
pub proof fn lemma_gross_up_covers(
    gross: int,
    r1: int,
    r2: int,
    r3: int,
    r4: int,
    target: int,
)
    requires
        0 <= gross,
        0 <= target,
        0 <= r1,
        0 <= r2,
        0 <= r3,
        0 <= r4,
        r1 + r2 + r3 + r4 <= FEE_RATE_DENOMINATOR_VALUE,
        gross * (FEE_RATE_DENOMINATOR_VALUE - (r1 + r2 + r3 + r4)) >= target
            * FEE_RATE_DENOMINATOR_VALUE,
    ensures
        gross - (fee_of(gross, r1) + fee_of(gross, r2) + fee_of(gross, r3) + fee_of(gross, r4))
            >= target,
{
    let d = FEE_RATE_DENOMINATOR_VALUE as int;
    let rs = r1 + r2 + r3 + r4;
    assert(gross * r1 >= 0 && gross * r2 >= 0 && gross * r3 >= 0 && gross * r4 >= 0)
        by (nonlinear_arith)
        requires
            gross >= 0,
            r1 >= 0,
            r2 >= 0,
            r3 >= 0,
            r4 >= 0;
    lemma_floor_div_bounds(gross * r1, d);
    lemma_floor_div_bounds(gross * r2, d);
    lemma_floor_div_bounds(gross * r3, d);
    lemma_floor_div_bounds(gross * r4, d);
    let total = fee_of(gross, r1) + fee_of(gross, r2) + fee_of(gross, r3) + fee_of(gross, r4);
    assert(d * total <= gross * r1 + gross * r2 + gross * r3 + gross * r4) by (nonlinear_arith)
        requires
            total == (gross * r1) / d + (gross * r2) / d + (gross * r3) / d + (gross * r4) / d,
            d * ((gross * r1) / d) <= gross * r1,
            d * ((gross * r2) / d) <= gross * r2,
            d * ((gross * r3) / d) <= gross * r3,
            d * ((gross * r4) / d) <= gross * r4;
    assert(gross * r1 + gross * r2 + gross * r3 + gross * r4 == gross * rs) by (nonlinear_arith)
        requires
            rs == r1 + r2 + r3 + r4;
    assert(gross * (d - rs) == gross * d - gross * rs) by (nonlinear_arith);
    // d * (gross - total) >= gross * d - gross * rs >= target * d
    assert(d * (gross - total) == d * gross - d * total) by (nonlinear_arith);
    assert(d * gross == gross * d) by (nonlinear_arith);
    if gross - total < target {
        assert(d * (gross - total) <= d * (target - 1) && d * (target - 1) == d * target - d)
            by (nonlinear_arith)
            requires
                gross - total <= target - 1,
                d >= 1;
        assert(d * target == target * d) by (nonlinear_arith);
        assert(false);
    }
}

/// The fee on `gross` at `rate`, rounded down.  Never exceeds `gross`.
pub fn fee_amount(gross: u64, rate: u64) -> (f: u64)
    requires
        rate <= FEE_RATE_DENOMINATOR_VALUE,
    ensures
        f == fee_of(gross as int, rate as int),
        f <= gross,
{
    let d: u128 = FEE_RATE_DENOMINATOR_VALUE as u128;
    proof {
        crate::math::lemma_u64_product_fits(gross, rate);
    }
    let p: u128 = (gross as u128) * (rate as u128);
    let q: u128 = p / d;
    proof {
        let di = d as int;
        assert(p <= gross * di) by (nonlinear_arith)
            requires
                p == gross * rate,
                rate <= di,
                gross >= 0;
        vstd::arithmetic::div_mod::lemma_div_is_ordered(p as int, gross * di, di);
        vstd::arithmetic::div_mod::lemma_div_by_multiple(gross as int, di);
        assert((gross * di) / di == gross);
    }
    q as u64
}

/// Splits the gross quote amount of one trade into its four fee portions,
/// each `gross * rate / 10^6` rounded down.  The rates together stay at or
/// below 100%, so what remains after all fees is never negative.
pub fn split_trade_fee(
    gross: u64,
    trade_fee_rate: u64,
    platform_fee_rate: u64,
    creator_fee_rate: u64,
    share_fee_rate: u64,
) -> (fees: TradeFee)
    requires
        trade_fee_rate + platform_fee_rate + creator_fee_rate + share_fee_rate
            <= FEE_RATE_DENOMINATOR_VALUE,
    ensures
        fees.protocol_fee == fee_of(gross as int, trade_fee_rate as int),
        fees.platform_fee == fee_of(gross as int, platform_fee_rate as int),
        fees.creator_fee == fee_of(gross as int, creator_fee_rate as int),
        fees.share_fee == fee_of(gross as int, share_fee_rate as int),
        fees.total() <= gross,
{
    let protocol_fee = fee_amount(gross, trade_fee_rate);
    let platform_fee = fee_amount(gross, platform_fee_rate);
    let creator_fee = fee_amount(gross, creator_fee_rate);
    let share_fee = fee_amount(gross, share_fee_rate);
    proof {
        lemma_fee_split_within_gross(
            gross as int,
            trade_fee_rate as int,
            platform_fee_rate as int,
            creator_fee_rate as int,
            share_fee_rate as int,
        );
    }
    TradeFee { protocol_fee, platform_fee, creator_fee, share_fee }
}

/// Claims the accumulated platform fee: reports the amount to transfer and
/// resets the accumulator in the same atomic step, so a second claim finds
/// nothing.  Fails with `NothingToClaim` when the accumulator is zero.
pub fn claim_platform_fee(pool: &mut PoolState) -> (r: Result<u64, LaunchpadError>)
    ensures
        old(pool).platform_fee == 0 ==> r == Err::<u64, LaunchpadError>(
            LaunchpadError::NothingToClaim,
        ) && *final(pool) == *old(pool),
        old(pool).platform_fee > 0 ==> {
            &&& r == Ok::<u64, LaunchpadError>(old(pool).platform_fee)
            &&& *final(pool) == PoolState { platform_fee: 0, ..*old(pool) }
        },
{
    if pool.platform_fee == 0 {
        return Err(LaunchpadError::NothingToClaim);
    }
    let amount = pool.platform_fee;
    pool.platform_fee = 0;
    Ok(amount)
}

/// Claims the accumulated protocol fee, exactly as `claim_platform_fee`
/// does for the platform's accumulator.
pub fn claim_protocol_fee(pool: &mut PoolState) -> (r: Result<u64, LaunchpadError>)
    ensures
        old(pool).quote_protocol_fee == 0 ==> r == Err::<u64, LaunchpadError>(
            LaunchpadError::NothingToClaim,
        ) && *final(pool) == *old(pool),
        old(pool).quote_protocol_fee > 0 ==> {
            &&& r == Ok::<u64, LaunchpadError>(old(pool).quote_protocol_fee)
            &&& *final(pool) == PoolState { quote_protocol_fee: 0, ..*old(pool) }
        },
{
    if pool.quote_protocol_fee == 0 {
        return Err(LaunchpadError::NothingToClaim);
    }
    let amount = pool.quote_protocol_fee;
    pool.quote_protocol_fee = 0;
    Ok(amount)
}

} // verus!
