//! Constant-product curve: effective reserves are the virtual parameters
//! plus the real reserves, and every trade preserves (or increases) the
//! product of the effective reserves.
//!
//! Rounding always favours the pool: on a buy, the new effective base
//! reserve is rounded up, so the user receives the rounded-down output; on
//! an exact-out trade, the amount the user must pay is rounded up.

use vstd::prelude::*;

use crate::errors::LaunchpadError;
use crate::math::ceil_div;
use crate::math::lemma_ceil_div_bounds;
use crate::math::lemma_ceil_div_ge;
use crate::math::lemma_ceil_div_le;

verus! {

/// Base units paid out for `dq` net quote units paid in, with effective
/// reserves `b` and `q`.
pub open spec fn cp_buy_out(b: int, q: int, dq: int) -> int {
    b - ceil_div(b * q, q + dq)
}

/// Net quote units charged to receive exactly `db` base units, with
/// effective reserves `b` and `q`.
pub open spec fn cp_buy_in_for_out(b: int, q: int, db: int) -> int {
    ceil_div(b * q, b - db) - q
}

/// Quote units paid out for `db` base units sold back, with effective
/// reserves `b` and `q`.
pub open spec fn cp_sell_out(b: int, q: int, db: int) -> int {
    q - ceil_div(b * q, b + db)
}

/// Base units charged to receive exactly `dq` quote units, with effective
/// reserves `b` and `q`.
pub open spec fn cp_sell_in_for_out(b: int, q: int, dq: int) -> int {
    ceil_div(b * q, q - dq) - b
}

/// An exact-in buy never decreases the product of the effective reserves,
/// and the increase from rounding stays below one base unit's worth of the
/// new quote reserve: the pool keeps every rounding remainder, and loses
/// none.
pub proof fn lemma_cp_buy_conserves_product(b: int, q: int, dq: int)
    requires
        1 <= b,
        1 <= q,
        0 <= dq,
    ensures
        0 <= cp_buy_out(b, q, dq) <= b - 1,
        (b - cp_buy_out(b, q, dq)) * (q + dq) >= b * q,
        (b - cp_buy_out(b, q, dq)) * (q + dq) < b * q + (q + dq),
{
    let nb = ceil_div(b * q, q + dq);
    assert(b * q >= 1) by (nonlinear_arith)
        requires
            b >= 1,
            q >= 1;
    lemma_ceil_div_bounds(b * q, q + dq);
    assert((q + dq) * nb == nb * (q + dq)) by (nonlinear_arith);
    // nb <= b because b * q <= b * (q + dq)
    assert(b * q <= b * (q + dq)) by (nonlinear_arith)
        requires
            b >= 1,
            dq >= 0;
    lemma_ceil_div_le(b * q, q + dq, b);
    // nb >= 1 because b * q >= 1
    if nb < 1 {
        assert((q + dq) * nb <= 0) by (nonlinear_arith)
            requires
                nb <= 0,
                q + dq >= 1;
    }
}

/// An exact-out buy charges at least the quote amount that keeps the
/// product of the effective reserves from decreasing, and no more than one
/// extra quote unit.
pub proof fn lemma_cp_buy_exact_out_conserves_product(b: int, q: int, db: int)
    requires
        1 <= b,
        1 <= q,
        0 <= db <= b - 1,
    ensures
        cp_buy_in_for_out(b, q, db) >= 0,
        (b - db) * (q + cp_buy_in_for_out(b, q, db)) >= b * q,
        (b - db) * (q + cp_buy_in_for_out(b, q, db)) < b * q + (b - db),
{
    let d = b - db;
    let nq = ceil_div(b * q, d);
    assert(b * q >= 1) by (nonlinear_arith)
        requires
            b >= 1,
            q >= 1;
    lemma_ceil_div_bounds(b * q, d);
    // nq >= q because b * q >= q * d
    assert(b * q >= q * d) by (nonlinear_arith)
        requires
            d <= b,
            q >= 1;
    lemma_ceil_div_ge(b * q, d, q);
    assert((b - db) * (q + cp_buy_in_for_out(b, q, db)) == d * nq) by (nonlinear_arith)
        requires
            d == b - db,
            nq == q + cp_buy_in_for_out(b, q, db);
}

/// An exact-in sell never decreases the product of the effective reserves:
/// the quote paid out is rounded down in the pool's favour.
pub proof fn lemma_cp_sell_conserves_product(b: int, q: int, db: int)
    requires
        1 <= b,
        1 <= q,
        0 <= db,
    ensures
        0 <= cp_sell_out(b, q, db) <= q - 1,
        (b + db) * (q - cp_sell_out(b, q, db)) >= b * q,
        (b + db) * (q - cp_sell_out(b, q, db)) < b * q + (b + db),
{
    let nq = ceil_div(b * q, b + db);
    assert(b * q >= 1) by (nonlinear_arith)
        requires
            b >= 1,
            q >= 1;
    lemma_ceil_div_bounds(b * q, b + db);
    assert((b + db) * nq == nq * (b + db)) by (nonlinear_arith);
    assert(b * q <= q * (b + db)) by (nonlinear_arith)
        requires
            q >= 1,
            db >= 0;
    lemma_ceil_div_le(b * q, b + db, q);
    if nq < 1 {
        assert((b + db) * nq <= 0) by (nonlinear_arith)
            requires
                nq <= 0,
                b + db >= 1;
    }
}

/// An exact-out sell charges at least the base amount that keeps the
/// product of the effective reserves from decreasing.
pub proof fn lemma_cp_sell_exact_out_conserves_product(b: int, q: int, dq: int)
    requires
        1 <= b,
        1 <= q,
        0 <= dq <= q - 1,
    ensures
        cp_sell_in_for_out(b, q, dq) >= 0,
        (b + cp_sell_in_for_out(b, q, dq)) * (q - dq) >= b * q,
        (b + cp_sell_in_for_out(b, q, dq)) * (q - dq) < b * q + (q - dq),
{
    let d = q - dq;
    let nb = ceil_div(b * q, d);
    assert(b * q >= 1) by (nonlinear_arith)
        requires
            b >= 1,
            q >= 1;
    lemma_ceil_div_bounds(b * q, d);
    assert(b * q >= b * d) by (nonlinear_arith)
        requires
            d <= q,
            b >= 1;
    lemma_ceil_div_ge(b * q, d, b);
    assert((b + cp_sell_in_for_out(b, q, dq)) * (q - dq) == d * nb) by (nonlinear_arith)
        requires
            d == q - dq,
            nb == b + cp_sell_in_for_out(b, q, dq);
}

/// Across a buy and the matching sell of everything the buy paid out, the
/// product of the effective reserves never decreases.
pub proof fn lemma_cp_round_trip(b: int, q: int, dq: int)
    requires
        1 <= b,
        1 <= q,
        0 <= dq,
    ensures
        ({
            let bought = cp_buy_out(b, q, dq);
            let b2 = b - bought;
            let q2 = q + dq;
            let refunded = cp_sell_out(b2, q2, bought);
            (b2 + bought) * (q2 - refunded) >= b * q
        }),
{
    lemma_cp_buy_conserves_product(b, q, dq);
    let bought = cp_buy_out(b, q, dq);
    let b2 = b - bought;
    let q2 = q + dq;
    lemma_cp_sell_conserves_product(b2, q2, bought);
    let refunded = cp_sell_out(b2, q2, bought);
    assert((b2 + bought) * (q2 - refunded) >= b2 * q2);
    assert(b2 * q2 >= b * q);
}

/// Base units paid out of the pool for an exact net quote input of
/// `amount_in`, on effective reserves `virtual_base + real_base` and
/// `virtual_quote + real_quote`.
pub fn constant_buy_exact_in(
    virtual_base: u64,
    virtual_quote: u64,
    real_base: u64,
    real_quote: u64,
    amount_in: u64,
) -> (r: u64)
    requires
        1 <= virtual_base,
        1 <= virtual_quote,
        virtual_base + real_base <= u64::MAX,
        virtual_quote + real_quote <= u64::MAX,
    ensures
        r == cp_buy_out(
            virtual_base + real_base,
            virtual_quote + real_quote,
            amount_in as int,
        ),
{
    let b_eff: u128 = virtual_base as u128 + real_base as u128;
    let q_eff: u128 = virtual_quote as u128 + real_quote as u128;
    let q_new: u128 = q_eff + amount_in as u128;
    proof {
        assert(b_eff * q_eff <= u128::MAX && b_eff * q_eff + q_new - 1 <= u128::MAX)
            by (nonlinear_arith)
            requires
                1 <= b_eff <= u64::MAX,
                1 <= q_eff <= u64::MAX,
                q_eff <= q_new <= 2 * (u64::MAX as int);
    }
    let prod: u128 = b_eff * q_eff;
    let new_b: u128 = (prod + (q_new - 1)) / q_new;
    proof {
        assert(new_b == ceil_div(b_eff as int * q_eff as int, q_new as int));
        lemma_cp_buy_conserves_product(b_eff as int, q_eff as int, amount_in as int);
    }
    (b_eff - new_b) as u64
}

/// Net quote units the user must pay to receive exactly `amount_out` base
/// units.  Fails with `ArithmeticError` when the required quote amount does
/// not fit in 64 bits.
pub fn constant_buy_exact_out(
    virtual_base: u64,
    virtual_quote: u64,
    real_base: u64,
    real_quote: u64,
    amount_out: u64,
) -> (r: Result<u64, LaunchpadError>)
    requires
        1 <= virtual_base,
        1 <= virtual_quote,
        virtual_base + real_base <= u64::MAX,
        virtual_quote + real_quote <= u64::MAX,
        amount_out <= real_base,
    ensures
        ({
            let need = cp_buy_in_for_out(
                virtual_base + real_base,
                virtual_quote + real_quote,
                amount_out as int,
            );
            &&& ((r is Ok) <==> need <= u64::MAX)
            &&& ((r is Err) ==> r == Err::<u64, LaunchpadError>(LaunchpadError::ArithmeticError))
            &&& ((r is Ok) ==> r->Ok_0 == need)
        }),
{
    let b_eff: u128 = virtual_base as u128 + real_base as u128;
    let q_eff: u128 = virtual_quote as u128 + real_quote as u128;
    let b_new: u128 = b_eff - amount_out as u128;
    proof {
        assert(b_eff * q_eff <= u128::MAX && b_eff * q_eff + b_new - 1 <= u128::MAX)
            by (nonlinear_arith)
            requires
                1 <= b_eff <= u64::MAX,
                1 <= q_eff <= u64::MAX,
                1 <= b_new <= b_eff;
    }
    let prod: u128 = b_eff * q_eff;
    let new_q: u128 = (prod + (b_new - 1)) / b_new;
    proof {
        assert(new_q == ceil_div(b_eff as int * q_eff as int, b_new as int));
        lemma_cp_buy_exact_out_conserves_product(
            b_eff as int,
            q_eff as int,
            amount_out as int,
        );
    }
    let need: u128 = new_q - q_eff;
    if need > u64::MAX as u128 {
        Err(LaunchpadError::ArithmeticError)
    } else {
        Ok(need as u64)
    }
}

/// Quote units paid out of the pool for selling back exactly `amount_in`
/// base units.
pub fn constant_sell_exact_in(
    virtual_base: u64,
    virtual_quote: u64,
    real_base: u64,
    real_quote: u64,
    amount_in: u64,
) -> (r: u64)
    requires
        1 <= virtual_base,
        1 <= virtual_quote,
        virtual_base + real_base <= u64::MAX,
        virtual_quote + real_quote <= u64::MAX,
    ensures
        r == cp_sell_out(
            virtual_base + real_base,
            virtual_quote + real_quote,
            amount_in as int,
        ),
{
    let b_eff: u128 = virtual_base as u128 + real_base as u128;
    let q_eff: u128 = virtual_quote as u128 + real_quote as u128;
    let b_new: u128 = b_eff + amount_in as u128;
    proof {
        assert(b_eff * q_eff <= u128::MAX && b_eff * q_eff + b_new - 1 <= u128::MAX)
            by (nonlinear_arith)
            requires
                1 <= b_eff <= u64::MAX,
                1 <= q_eff <= u64::MAX,
                b_eff <= b_new <= 2 * (u64::MAX as int);
    }
    let prod: u128 = b_eff * q_eff;
    let new_q: u128 = (prod + (b_new - 1)) / b_new;
    proof {
        assert(new_q == ceil_div(b_eff as int * q_eff as int, b_new as int));
        lemma_cp_sell_conserves_product(b_eff as int, q_eff as int, amount_in as int);
    }
    (q_eff - new_q) as u64
}

/// Base units the user must sell to receive exactly `amount_out` quote
/// units.  Fails with `ArithmeticError` when the required base amount does
/// not fit in 64 bits.
pub fn constant_sell_exact_out(
    virtual_base: u64,
    virtual_quote: u64,
    real_base: u64,
    real_quote: u64,
    amount_out: u64,
) -> (r: Result<u64, LaunchpadError>)
    requires
        1 <= virtual_base,
        1 <= virtual_quote,
        virtual_base + real_base <= u64::MAX,
        virtual_quote + real_quote <= u64::MAX,
        amount_out <= real_quote,
    ensures
        ({
            let need = cp_sell_in_for_out(
                virtual_base + real_base,
                virtual_quote + real_quote,
                amount_out as int,
            );
            &&& ((r is Ok) <==> need <= u64::MAX)
            &&& ((r is Err) ==> r == Err::<u64, LaunchpadError>(LaunchpadError::ArithmeticError))
            &&& ((r is Ok) ==> r->Ok_0 == need)
        }),
{
    let b_eff: u128 = virtual_base as u128 + real_base as u128;
    let q_eff: u128 = virtual_quote as u128 + real_quote as u128;
    let q_new: u128 = q_eff - amount_out as u128;
    proof {
        assert(b_eff * q_eff <= u128::MAX && b_eff * q_eff + q_new - 1 <= u128::MAX)
            by (nonlinear_arith)
            requires
                1 <= b_eff <= u64::MAX,
                1 <= q_eff <= u64::MAX,
                1 <= q_new <= q_eff;
    }
    let prod: u128 = b_eff * q_eff;
    let new_b: u128 = (prod + (q_new - 1)) / q_new;
    proof {
        assert(new_b == ceil_div(b_eff as int * q_eff as int, q_new as int));
        lemma_cp_sell_exact_out_conserves_product(
            b_eff as int,
            q_eff as int,
            amount_out as int,
        );
    }
    let need: u128 = new_b - b_eff;
    if need > u64::MAX as u128 {
        Err(LaunchpadError::ArithmeticError)
    } else {
        Ok(need as u64)
    }
}

} // verus!
