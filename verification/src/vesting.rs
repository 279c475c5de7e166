//! Vesting scheduler: linear release of a beneficiary's base-token share
//! after a cliff, computed from an externally supplied timestamp.
//!
//! The claimable amount is always the vested amount minus what was already
//! claimed; a claim records the payout in the same atomic step that reports
//! it, so no interval can be claimed twice.

use vstd::prelude::*;

use crate::errors::LaunchpadError;
use crate::states::PoolState;
use crate::states::VestingRecord;
use crate::states::VestingSchedule;

verus! {

/// Base units of a share of `share` vested by time `now`, on a schedule
/// that starts at `start`, waits `cliff` seconds, then unlocks linearly
/// over `unlock` seconds.  Zero before the cliff ends, the full share after
/// the unlock period, and a floor-rounded linear ramp in between.
pub open spec fn vested_amount(share: int, start: int, cliff: int, unlock: int, now: int) -> int {
    let cliff_end = start + cliff;
    if now >= cliff_end + unlock {
        share
    } else if now <= cliff_end {
        0
    } else {
        (share * (now - cliff_end)) / unlock
    }
}

/// What `record` may claim from `schedule` at `now`: the vested part of its
/// share, less what it already claimed.
pub open spec fn claimable_spec(
    schedule: VestingSchedule,
    record: VestingRecord,
    now: int,
) -> int {
    let vested = vested_amount(
        record.token_share_amount as int,
        schedule.start_time as int,
        schedule.cliff_period as int,
        schedule.unlock_period as int,
        now,
    );
    if vested >= record.claimed_amount {
        vested - record.claimed_amount
    } else {
        0
    }
}

/// The vested amount never leaves `[0, share]`.
pub proof fn lemma_vested_bounds(share: int, start: int, cliff: int, unlock: int, now: int)
    requires
        0 <= share,
        0 <= start,
        0 <= cliff,
        0 <= unlock,
    ensures
        0 <= vested_amount(share, start, cliff, unlock, now) <= share,
{
    let cliff_end = start + cliff;
    if now <= cliff_end || now >= cliff_end + unlock {
    } else {
        let dt = now - cliff_end;
        assert(0 < dt < unlock);
        assert(0 <= share * dt <= share * unlock) by (nonlinear_arith)
            requires
                share >= 0,
                0 < dt <= unlock;
        crate::math::lemma_floor_div_bounds(share * dt, unlock);
        vstd::arithmetic::div_mod::lemma_div_is_ordered(share * dt, share * unlock, unlock);
        vstd::arithmetic::div_mod::lemma_div_by_multiple(share, unlock);
    }
}

/// Vesting releases monotonically: a later timestamp never vests less, and
/// at the end of the unlock period the whole share is vested.
pub proof fn lemma_vested_monotonic(
    share: int,
    start: int,
    cliff: int,
    unlock: int,
    t1: int,
    t2: int,
)
    requires
        0 <= share,
        0 <= start,
        0 <= cliff,
        0 <= unlock,
        t1 <= t2,
    ensures
        vested_amount(share, start, cliff, unlock, t1) <= vested_amount(
            share,
            start,
            cliff,
            unlock,
            t2,
        ),
        vested_amount(share, start, cliff, unlock, start + cliff + unlock) == share,
{
    let cliff_end = start + cliff;
    lemma_vested_bounds(share, start, cliff, unlock, t1);
    lemma_vested_bounds(share, start, cliff, unlock, t2);
    if cliff_end < t1 && t1 < cliff_end + unlock && cliff_end < t2 && t2 < cliff_end + unlock {
        let d1 = t1 - cliff_end;
        let d2 = t2 - cliff_end;
        assert(share * d1 <= share * d2) by (nonlinear_arith)
            requires
                share >= 0,
                d1 <= d2;
        vstd::arithmetic::div_mod::lemma_div_is_ordered(share * d1, share * d2, unlock);
    }
}

/// A beneficiary's claim never shrinks with time: for `t1 <= t2` the
/// claimable amount at `t1` is at most that at `t2`, and once the unlock
/// period has passed an untouched record can claim its full share.
pub proof fn lemma_claimable_monotonic(
    schedule: VestingSchedule,
    record: VestingRecord,
    t1: int,
    t2: int,
)
    requires
        t1 <= t2,
    ensures
        claimable_spec(schedule, record, t1) <= claimable_spec(schedule, record, t2),
        record.claimed_amount == 0 ==> claimable_spec(
            schedule,
            record,
            schedule.start_time + schedule.cliff_period + schedule.unlock_period,
        ) == record.token_share_amount,
{
    lemma_vested_monotonic(
        record.token_share_amount as int,
        schedule.start_time as int,
        schedule.cliff_period as int,
        schedule.unlock_period as int,
        t1,
        t2,
    );
}

/// The amount `record` may claim from `schedule` at time `now`.
pub fn claimable(schedule: &VestingSchedule, record: &VestingRecord, now: u64) -> (r: u64)
    ensures
        r == claimable_spec(*schedule, *record, now as int),
{
    let share = record.token_share_amount;
    let cliff_end: u128 = (schedule.start_time as u128) + (schedule.cliff_period as u128);
    let vested: u64 = if (now as u128) >= cliff_end + (schedule.unlock_period as u128) {
        share
    } else if (now as u128) <= cliff_end {
        0
    } else {
        let dt: u64 = ((now as u128) - cliff_end) as u64;
        proof {
            crate::math::lemma_u64_product_fits(share, dt);
            let u = schedule.unlock_period as int;
            assert(share * dt <= share * u) by (nonlinear_arith)
                requires
                    share >= 0,
                    dt <= u;
            vstd::arithmetic::div_mod::lemma_div_is_ordered(
                share as int * dt as int,
                share as int * u,
                u,
            );
            vstd::arithmetic::div_mod::lemma_div_by_multiple(share as int, u);
            vstd::arithmetic::div_mod::lemma_div_pos_is_pos(share as int * dt as int, u);
        }
        (((share as u128) * (dt as u128)) / (schedule.unlock_period as u128)) as u64
    };
    proof {
        lemma_vested_bounds(
            share as int,
            schedule.start_time as int,
            schedule.cliff_period as int,
            schedule.unlock_period as int,
            now as int,
        );
    }
    if vested >= record.claimed_amount {
        vested - record.claimed_amount
    } else {
        0
    }
}

/// Claims everything `record` may claim from the pool's schedule at `now`.
///
/// Fails with `PoolNotTrading` while the pool is still funding (the
/// schedule has not started), and with `NothingToClaim` when the claimable
/// delta is zero.  On success the claimed bookkeeping grows by exactly the
/// amount reported for transfer, atomically.
pub fn claim_vested_token(pool: &PoolState, record: &mut VestingRecord, now: u64) -> (r: Result<
    u64,
    LaunchpadError,
>)
    ensures
        pool.status is Fund ==> r == Err::<u64, LaunchpadError>(LaunchpadError::PoolNotTrading)
            && *final(record) == *old(record),
        !(pool.status is Fund) && claimable_spec(pool.vesting_schedule, *old(record), now as int)
            == 0 ==> r == Err::<u64, LaunchpadError>(LaunchpadError::NothingToClaim)
            && *final(record) == *old(record),
        !(pool.status is Fund) && claimable_spec(pool.vesting_schedule, *old(record), now as int)
            > 0 ==> {
            let delta = claimable_spec(pool.vesting_schedule, *old(record), now as int);
            &&& r == Ok::<u64, LaunchpadError>(delta as u64)
            &&& *final(record) == VestingRecord {
                claimed_amount: (old(record).claimed_amount + delta) as u64,
                ..*old(record)
            }
        },
{
    if matches!(pool.status, crate::states::PoolStatus::Fund) {
        return Err(LaunchpadError::PoolNotTrading);
    }
    let delta = claimable(&pool.vesting_schedule, record, now);
    if delta == 0 {
        return Err(LaunchpadError::NothingToClaim);
    }
    proof {
        lemma_vested_bounds(
            record.token_share_amount as int,
            pool.vesting_schedule.start_time as int,
            pool.vesting_schedule.cliff_period as int,
            pool.vesting_schedule.unlock_period as int,
            now as int,
        );
    }
    record.claimed_amount = record.claimed_amount + delta;
    Ok(delta)
}

/// Allocates `share_amount` of the pool's locked tokens to a new
/// beneficiary and returns the fresh vesting record.
///
/// Only legal while the pool is funding (`PoolNotTrading` otherwise); a
/// zero share is rejected as `InvalidConfig`; an allocation beyond the
/// locked amount fails with `InsufficientLiquidity`.  On success the
/// schedule's allocated bookkeeping grows by exactly the new share.
pub fn create_vesting_account(
    pool: &mut PoolState,
    pool_id: crate::states::AccountId,
    beneficiary: crate::states::AccountId,
    share_amount: u64,
) -> (r: Result<VestingRecord, LaunchpadError>)
    ensures
        !(old(pool).status is Fund) ==> r == Err::<VestingRecord, LaunchpadError>(
            LaunchpadError::PoolNotTrading,
        ) && *final(pool) == *old(pool),
        old(pool).status is Fund && share_amount == 0 ==> r == Err::<
            VestingRecord,
            LaunchpadError,
        >(LaunchpadError::InvalidConfig) && *final(pool) == *old(pool),
        old(pool).status is Fund && share_amount > 0
            && old(pool).vesting_schedule.allocated_share_amount + share_amount > old(
            pool,
        ).vesting_schedule.total_locked_amount ==> r == Err::<VestingRecord, LaunchpadError>(
            LaunchpadError::InsufficientLiquidity,
        ) && *final(pool) == *old(pool),
        old(pool).status is Fund && share_amount > 0
            && old(pool).vesting_schedule.allocated_share_amount + share_amount <= old(
            pool,
        ).vesting_schedule.total_locked_amount ==> {
            &&& r == Ok::<VestingRecord, LaunchpadError>(
                VestingRecord {
                    pool: pool_id,
                    beneficiary,
                    claimed_amount: 0,
                    token_share_amount: share_amount,
                },
            )
            &&& *final(pool) == PoolState {
                vesting_schedule: VestingSchedule {
                    allocated_share_amount: (old(
                        pool,
                    ).vesting_schedule.allocated_share_amount + share_amount) as u64,
                    ..old(pool).vesting_schedule
                },
                ..*old(pool)
            }
            &&& old(pool).wf() ==> final(pool).wf()
        },
{
    if !matches!(pool.status, crate::states::PoolStatus::Fund) {
        return Err(LaunchpadError::PoolNotTrading);
    }
    if share_amount == 0 {
        return Err(LaunchpadError::InvalidConfig);
    }
    let schedule = &pool.vesting_schedule;
    if share_amount > schedule.total_locked_amount
        || schedule.allocated_share_amount > schedule.total_locked_amount - share_amount {
        return Err(LaunchpadError::InsufficientLiquidity);
    }
    pool.vesting_schedule.allocated_share_amount =
        pool.vesting_schedule.allocated_share_amount + share_amount;
    Ok(
        VestingRecord {
            pool: pool_id,
            beneficiary,
            claimed_amount: 0,
            token_share_amount: share_amount,
        },
    )
}

} // verus!
