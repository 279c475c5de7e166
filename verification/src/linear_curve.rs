//! Linear-price curve: the spot price grows linearly with cumulative base
//! sold, `price(x) = slope * x`, where the slope is stored in
//! `virtual_base`.  The quote amount for a trade integrates that price over
//! the traded range, which gives a quadratic form; exact-in amounts solve it
//! with an integer square root.
//!
//! Quote the user must pay is rounded up, quote paid out to the user is
//! rounded down: the pool never loses value to rounding.

use vstd::prelude::*;

use crate::errors::LaunchpadError;
use crate::math::ceil_div;
use crate::math::isqrt_u128;
use crate::math::lemma_ceil_div_bounds;
use crate::math::lemma_ceil_div_gt;
use crate::math::lemma_ceil_div_le;
use crate::math::lemma_floor_div_bounds;
use crate::math::lemma_floor_div_ge;
use crate::math::lemma_floor_div_lt;
use crate::math::lemma_u64_product_fits;

verus! {

/// Quote units charged to buy `d` base units when `s` units were already
/// sold: `ceil(slope * ((s + d)^2 - s^2) / 2)`, the integral of the price
/// over the purchased range, rounded against the buyer.
pub open spec fn linear_cost(slope: int, s: int, d: int) -> int {
    ceil_div(slope * ((s + d) * (s + d) - s * s), 2)
}

/// Quote units paid out for selling back `d` of the `s` units sold so far:
/// `floor(slope * (s^2 - (s - d)^2) / 2)`, rounded against the seller.
pub open spec fn linear_payout(slope: int, s: int, d: int) -> int {
    (slope * (s * s - (s - d) * (s - d))) / 2
}

/// Base units bought for a net quote input of `dq` when `s` units were
/// already sold: the largest `d` with `linear_cost(slope, s, d) <= dq`,
/// in closed form through the integer square root.
pub open spec fn linear_buy_out(slope: int, s: int, dq: int) -> int {
    crate::math::isqrt_spec(s * s + (2 * dq) / slope) - s
}

/// Base units that must be sold back to receive at least `dq` quote units:
/// the smallest such `d`, in closed form through the integer square root.
pub open spec fn linear_sell_in_for_out(slope: int, s: int, dq: int) -> int {
    s - crate::math::isqrt_spec(s * s - ceil_div(2 * dq, slope))
}

/// Rounding never favours the user: twice the charge covers the exact
/// quadratic form, and twice the payout never exceeds it.
pub proof fn lemma_linear_rounding_favours_pool(slope: int, s: int, d: int)
    requires
        1 <= slope,
        0 <= d <= s,
    ensures
        2 * linear_cost(slope, s, d) >= slope * ((s + d) * (s + d) - s * s),
        2 * linear_payout(slope, s, d) <= slope * (s * s - (s - d) * (s - d)),
{
    let grow = (s + d) * (s + d) - s * s;
    let shrink = s * s - (s - d) * (s - d);
    assert(grow >= 0 && shrink >= 0) by (nonlinear_arith)
        requires
            0 <= d <= s,
            grow == (s + d) * (s + d) - s * s,
            shrink == s * s - (s - d) * (s - d);
    assert(slope * grow >= 0 && slope * shrink >= 0) by (nonlinear_arith)
        requires
            slope >= 1,
            grow >= 0,
            shrink >= 0;
    lemma_ceil_div_bounds(slope * grow, 2);
    lemma_floor_div_bounds(slope * shrink, 2);
}

/// Base units bought for a net quote input of `amount_in`: the largest `d`
/// whose charge `linear_cost` stays within `amount_in`.
pub fn linear_buy_exact_in(slope: u64, sold: u64, amount_in: u64) -> (r: u64)
    requires
        1 <= slope,
    ensures
        r == linear_buy_out(slope as int, sold as int, amount_in as int),
        linear_cost(slope as int, sold as int, r as int) <= amount_in,
        linear_cost(slope as int, sold as int, r as int + 1) > amount_in,
        sold + r <= u64::MAX,
{
    let budget: u128 = 2 * (amount_in as u128);
    let scaled: u128 = budget / (slope as u128);
    proof {
        lemma_u64_product_fits(sold, sold);
    }
    let sq: u128 = (sold as u128) * (sold as u128);
    proof {
        assert(sq + scaled <= u128::MAX) by (nonlinear_arith)
            requires
                sq == (sold as int) * (sold as int),
                sold <= u64::MAX,
                0 <= scaled <= 2 * (u64::MAX as int);
    }
    let root: u64 = isqrt_u128(sq + scaled);
    proof {
        // root >= sold, because sold * sold <= sq + scaled < (root + 1)^2
        if root < sold {
            assert((root + 1) as int * (root + 1) as int <= sq) by (nonlinear_arith)
                requires
                    root + 1 <= sold,
                    sq == (sold as int) * (sold as int);
        }
    }
    let d: u64 = root - sold;
    proof {
        let a = slope as int;
        let s = sold as int;
        let e = scaled as int;
        let two_in = 2 * (amount_in as int);
        lemma_floor_div_bounds(two_in, a);
        assert(a * e <= two_in && a * e + a > two_in) by (nonlinear_arith)
            requires
                e == two_in / a,
                a * (two_in / a) <= two_in,
                a * (two_in / a) + a > two_in;
        // charge for d stays within the budget:
        // (s + d)^2 - s^2 <= e, and a * e <= 2 * amount_in
        let grow = (s + d) * (s + d) - s * s;
        assert(grow <= e && grow >= 0) by (nonlinear_arith)
            requires
                grow == (s + d) * (s + d) - s * s,
                s + d == root as int,
                (root as int) * (root as int) <= s * s + e,
                s >= 0,
                d >= 0;
        assert(a * grow <= a * e && a * grow >= 0) by (nonlinear_arith)
            requires
                a >= 1,
                0 <= grow <= e;
        lemma_ceil_div_le(a * grow, 2, amount_in as int);
        // charge for d + 1 exceeds the budget:
        // (s + d + 1)^2 - s^2 >= e + 1, and a * (e + 1) > 2 * amount_in
        let grow1 = (s + d + 1) * (s + d + 1) - s * s;
        assert(grow1 >= e + 1) by (nonlinear_arith)
            requires
                grow1 == (s + d + 1) * (s + d + 1) - s * s,
                s + d == root as int,
                (root + 1) as int * (root + 1) as int > s * s + e;
        assert(a * grow1 >= a * (e + 1) && a * (e + 1) == a * e + a) by (nonlinear_arith)
            requires
                a >= 1,
                grow1 >= e + 1;
        assert(a * grow1 > two_in);
        lemma_ceil_div_gt(a * grow1, 2, amount_in as int);
    }
    d
}

/// Quote units charged to buy exactly `amount_out` base units.  Fails with
/// `ArithmeticError` when the charge does not fit in 64 bits.
pub fn linear_buy_exact_out(slope: u64, sold: u64, amount_out: u64) -> (r: Result<
    u64,
    LaunchpadError,
>)
    requires
        1 <= slope,
        sold + amount_out <= u64::MAX,
    ensures
        ((r is Ok) <==> linear_cost(slope as int, sold as int, amount_out as int) <= u64::MAX),
        ((r is Err) ==> r == Err::<u64, LaunchpadError>(LaunchpadError::ArithmeticError)),
        ((r is Ok) ==> r->Ok_0 == linear_cost(slope as int, sold as int, amount_out as int)),
{
    let reach: u128 = (sold as u128) + (amount_out as u128);
    proof {
        lemma_u64_product_fits(sold, sold);
        lemma_u64_product_fits((sold + amount_out) as u64, (sold + amount_out) as u64);
        assert((sold as int) * (sold as int) <= reach * reach) by (nonlinear_arith)
            requires
                0 <= sold as int <= reach;
    }
    let grow: u128 = reach * reach - (sold as u128) * (sold as u128);
    let cap: u128 = 2 * (u64::MAX as u128);
    proof {
        let a = slope as int;
        let g = grow as int;
        assert(a * g >= 0) by (nonlinear_arith)
            requires
                a >= 1,
                g >= 0;
    }
    if grow > 0 && (slope as u128) > u128::MAX / grow {
        proof {
            let a = slope as int;
            let g = grow as int;
            let m = u128::MAX as int;
            lemma_floor_div_bounds(m, g);
            assert(a * g >= g * (m / g) + g) by (nonlinear_arith)
                requires
                    a >= m / g + 1,
                    g >= 1;
            assert(a * g > m);
            lemma_ceil_div_gt(a * g, 2, u64::MAX as int);
        }
        return Err(LaunchpadError::ArithmeticError);
    }
    proof {
        if grow > 0 {
            let a = slope as int;
            let g = grow as int;
            let m = u128::MAX as int;
            lemma_floor_div_bounds(m, g);
            assert(a * g <= g * (m / g)) by (nonlinear_arith)
                requires
                    a <= m / g,
                    g >= 1;
            assert(a * g <= m);
        } else {
            assert(slope as int * (grow as int) == 0) by (nonlinear_arith)
                requires
                    grow as int == 0;
        }
    }
    let charge_twice: u128 = (slope as u128) * grow;
    if charge_twice > cap {
        proof {
            lemma_ceil_div_gt(charge_twice as int, 2, u64::MAX as int);
        }
        return Err(LaunchpadError::ArithmeticError);
    }
    proof {
        lemma_ceil_div_le(charge_twice as int, 2, u64::MAX as int);
        lemma_ceil_div_bounds(charge_twice as int, 2);
    }
    Ok(((charge_twice + 1) / 2) as u64)
}

/// Quote units paid out for selling back exactly `amount_in` base units.
/// Fails with `ArithmeticError` when the payout does not fit in 64 bits.
pub fn linear_sell_exact_in(slope: u64, sold: u64, amount_in: u64) -> (r: Result<
    u64,
    LaunchpadError,
>)
    requires
        1 <= slope,
        amount_in <= sold,
    ensures
        ((r is Ok) <==> linear_payout(slope as int, sold as int, amount_in as int) <= u64::MAX),
        ((r is Err) ==> r == Err::<u64, LaunchpadError>(LaunchpadError::ArithmeticError)),
        ((r is Ok) ==> r->Ok_0 == linear_payout(slope as int, sold as int, amount_in as int)),
{
    let left: u128 = (sold - amount_in) as u128;
    proof {
        lemma_u64_product_fits(sold, sold);
        lemma_u64_product_fits((sold - amount_in) as u64, (sold - amount_in) as u64);
        assert(left * left <= (sold as int) * (sold as int)) by (nonlinear_arith)
            requires
                0 <= left <= sold as int;
    }
    let shrink: u128 = (sold as u128) * (sold as u128) - left * left;
    let cap: u128 = 2 * (u64::MAX as u128) + 1;
    proof {
        let a = slope as int;
        let g = shrink as int;
        assert(a * g >= 0) by (nonlinear_arith)
            requires
                a >= 1,
                g >= 0;
    }
    if shrink > 0 && (slope as u128) > u128::MAX / shrink {
        proof {
            let a = slope as int;
            let g = shrink as int;
            let m = u128::MAX as int;
            lemma_floor_div_bounds(m, g);
            assert(a * g >= g * (m / g) + g) by (nonlinear_arith)
                requires
                    a >= m / g + 1,
                    g >= 1;
            assert(a * g > m);
            lemma_floor_div_ge(a * g, 2, u64::MAX as int + 1);
        }
        return Err(LaunchpadError::ArithmeticError);
    }
    proof {
        if shrink > 0 {
            let a = slope as int;
            let g = shrink as int;
            let m = u128::MAX as int;
            lemma_floor_div_bounds(m, g);
            assert(a * g <= g * (m / g)) by (nonlinear_arith)
                requires
                    a <= m / g,
                    g >= 1;
            assert(a * g <= m);
        } else {
            assert(slope as int * (shrink as int) == 0) by (nonlinear_arith)
                requires
                    shrink as int == 0;
        }
    }
    let payout_twice: u128 = (slope as u128) * shrink;
    if payout_twice > cap {
        proof {
            lemma_floor_div_ge(payout_twice as int, 2, u64::MAX as int + 1);
        }
        return Err(LaunchpadError::ArithmeticError);
    }
    proof {
        lemma_floor_div_lt(payout_twice as int, 2, u64::MAX as int + 1);
    }
    Ok((payout_twice / 2) as u64)
}

/// Base units the user must sell to receive at least `amount_out` quote
/// units: the smallest such `d`.  Fails with `InsufficientLiquidity` when
/// even selling back all `sold` units pays out less than `amount_out`.
pub fn linear_sell_exact_out(slope: u64, sold: u64, amount_out: u64) -> (r: Result<
    u64,
    LaunchpadError,
>)
    requires
        1 <= slope,
    ensures
        ((r is Ok) <==> linear_payout(slope as int, sold as int, sold as int) >= amount_out),
        ((r is Err) ==> r == Err::<u64, LaunchpadError>(LaunchpadError::InsufficientLiquidity)),
        ((r is Ok) ==> {
            let d = r->Ok_0 as int;
            &&& d == linear_sell_in_for_out(slope as int, sold as int, amount_out as int)
            &&& d <= sold
            &&& linear_payout(slope as int, sold as int, d) >= amount_out
            &&& (d >= 1 ==> linear_payout(slope as int, sold as int, d - 1) < amount_out)
        }),
{
    let ghost ai = slope as int;
    let ghost si = sold as int;
    let want: u128 = 2 * (amount_out as u128);
    let needed: u128 = (want + (slope as u128 - 1)) / (slope as u128);
    proof {
        lemma_u64_product_fits(sold, sold);
        assert(needed == ceil_div(2 * (amount_out as int), ai));
        lemma_ceil_div_bounds(2 * (amount_out as int), ai);
        assert(ai * (needed as int) == (needed as int) * ai) by (nonlinear_arith);
    }
    let sq: u128 = (sold as u128) * (sold as u128);
    proof {
        // the payout for selling everything back is floor(a * s^2 / 2)
        assert(si * si - (si - si) * (si - si) == si * si) by (nonlinear_arith);
        assert(ai * (si * si) >= 0) by (nonlinear_arith)
            requires
                ai >= 1,
                si * si >= 0;
    }
    if needed > sq {
        proof {
            let e = needed as int;
            // a * sq <= a * (e - 1) = a * e - a < 2 * amount_out
            assert(ai * (si * si) <= ai * (e - 1) && ai * (e - 1) == ai * e - ai)
                by (nonlinear_arith)
                requires
                    ai >= 1,
                    si * si <= e - 1;
            assert(ai * (si * si) < 2 * (amount_out as int));
            lemma_floor_div_lt(ai * (si * si), 2, amount_out as int);
        }
        return Err(LaunchpadError::InsufficientLiquidity);
    }
    let root: u64 = isqrt_u128(sq - needed);
    proof {
        if root > sold {
            assert((root as int) * (root as int) > si * si) by (nonlinear_arith)
                requires
                    root as int >= si + 1,
                    si >= 0;
        }
    }
    let d: u64 = sold - root;
    proof {
        let e = needed as int;
        let ri = root as int;
        let di = d as int;
        // payout(d) >= amount_out: (s - d)^2 = root^2 <= sq - e,
        // so a * (sq - root^2) >= a * e >= 2 * amount_out
        let shrink = si * si - (si - di) * (si - di);
        assert(si - di == ri);
        assert(shrink >= e) by (nonlinear_arith)
            requires
                shrink == si * si - ri * ri,
                ri * ri <= si * si - e;
        assert(ai * shrink >= ai * e && ai * shrink >= 0) by (nonlinear_arith)
            requires
                ai >= 1,
                shrink >= e,
                e >= 0;
        lemma_floor_div_ge(ai * shrink, 2, amount_out as int);
        // payout(s) >= payout(d): more base sold back pays out at least as much
        let all = si * si - (si - si) * (si - si);
        assert(all >= shrink && ai * all >= ai * shrink) by (nonlinear_arith)
            requires
                shrink == si * si - ri * ri,
                all == si * si - (si - si) * (si - si),
                0 <= ri,
                ai >= 1;
        vstd::arithmetic::div_mod::lemma_div_is_ordered(ai * shrink, ai * all, 2);
        // minimality: with one unit less, (s - (d - 1))^2 = (root + 1)^2 > sq - e,
        // so the payout falls below amount_out
        if d >= 1 {
            let shrink1 = si * si - (si - (di - 1)) * (si - (di - 1));
            assert(shrink1 <= e - 1) by (nonlinear_arith)
                requires
                    shrink1 == si * si - (ri + 1) * (ri + 1),
                    (ri + 1) * (ri + 1) > si * si - e;
            assert(ai * shrink1 <= ai * (e - 1) && ai * (e - 1) == ai * e - ai)
                by (nonlinear_arith)
                requires
                    ai >= 1,
                    shrink1 <= e - 1;
            assert(ai * shrink1 < 2 * (amount_out as int));
            if shrink1 >= 0 {
                lemma_floor_div_lt(ai * shrink1, 2, amount_out as int);
            } else {
                assert(ai * shrink1 < 0) by (nonlinear_arith)
                    requires
                        ai >= 1,
                        shrink1 < 0;
                vstd::arithmetic::div_mod::lemma_div_is_ordered(ai * shrink1, 0, 2);
            }
        }
    }
    Ok(d)
}

} // verus!
