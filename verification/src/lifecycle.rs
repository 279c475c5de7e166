//! Pool lifecycle state machine: `Fund -> Migrate -> Trade`, forward only.
//!
//! The first transition fires exactly when a buy makes the raised quote
//! reach the funding target, and it starts the vesting clock; the second is
//! performed by the external migration step, which re-checks the status so
//! that a retry is harmless.

use vstd::prelude::*;

use crate::errors::LaunchpadError;
use crate::states::PoolState;
use crate::states::PoolStatus;
use crate::states::VestingSchedule;

verus! {

/// The state after offering the funding-complete transition at time `now`:
/// unchanged unless the pool is funding and its raised quote has reached
/// the target, in which case the status advances to `Migrate` and the
/// vesting clock starts at `now`.
pub open spec fn trigger_migration_spec(p: PoolState, now: u64) -> PoolState {
    if p.status is Fund && p.real_quote >= p.total_quote_fund_raising {
        PoolState {
            status: PoolStatus::Migrate,
            vesting_schedule: VestingSchedule { start_time: now, ..p.vesting_schedule },
            ..p
        }
    } else {
        p
    }
}

/// Position of a status along the pool's one-way life:
/// `Fund` before `Migrate` before `Trade`.
pub open spec fn status_rank(s: PoolStatus) -> int {
    match s {
        PoolStatus::Fund => 0,
        PoolStatus::Migrate => 1,
        PoolStatus::Trade => 2,
    }
}

/// The funding-complete transition never moves the status backward.
pub proof fn lemma_status_only_advances(p: PoolState, now: u64)
    ensures
        status_rank(trigger_migration_spec(p, now).status) >= status_rank(p.status),
{
}

/// Offering the transition a second time changes nothing: after the first
/// offer either the pool left `Fund`, or it was not ready and is untouched.
pub proof fn lemma_migration_trigger_idempotent(p: PoolState, t1: u64, t2: u64)
    ensures
        trigger_migration_spec(trigger_migration_spec(p, t1), t2) == trigger_migration_spec(
            p,
            t1,
        ),
{
}

/// Flips a funding pool whose raised quote has reached the target over to
/// `Migrate`, starting the vesting clock at `now`; does nothing otherwise.
/// Returns whether the transition fired.
pub fn try_trigger_migration(pool: &mut PoolState, now: u64) -> (triggered: bool)
    ensures
        *final(pool) == trigger_migration_spec(*old(pool), now),
        triggered == (old(pool).status is Fund && old(pool).real_quote >= old(
            pool,
        ).total_quote_fund_raising),
{
    if matches!(pool.status, PoolStatus::Fund)
        && pool.real_quote >= pool.total_quote_fund_raising {
        pool.status = PoolStatus::Migrate;
        pool.vesting_schedule.start_time = now;
        true
    } else {
        false
    }
}

/// Completes the migration: a pool waiting in `Migrate` advances to the
/// terminal `Trade` state; any other state fails with `PoolNotTrading` and
/// is left untouched, so the external migration step can retry safely.
pub fn complete_migration(pool: &mut PoolState) -> (r: Result<(), LaunchpadError>)
    ensures
        old(pool).status is Migrate ==> r is Ok && *final(pool) == (PoolState {
            status: PoolStatus::Trade,
            ..*old(pool)
        }),
        !(old(pool).status is Migrate) ==> r == Err::<(), LaunchpadError>(
            LaunchpadError::PoolNotTrading,
        ) && *final(pool) == *old(pool),
{
    if matches!(pool.status, PoolStatus::Migrate) {
        pool.status = PoolStatus::Trade;
        Ok(())
    } else {
        Err(LaunchpadError::PoolNotTrading)
    }
}

} // verus!
