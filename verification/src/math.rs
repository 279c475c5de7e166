//! Overflow-checked integer arithmetic helpers.
//!
//! Every multiply-then-divide goes through a 128-bit intermediate, and each
//! operation declares its rounding direction.  Division by zero and results
//! that do not fit in 64 bits surface as `ArithmeticError`, never as a
//! silently wrapped or clamped value.

use vstd::prelude::*;

use crate::errors::LaunchpadError;

verus! {

/// Quotient of `x / d` rounded towards positive infinity.
pub open spec fn ceil_div(x: int, d: int) -> int {
    (x + d - 1) / d
}

/// For non-negative `x` and positive `d`, `ceil_div` is the least integer
/// at or above the exact quotient: `d * ceil_div(x, d)` covers `x`, and
/// removing one multiple of `d` drops below `x`.
pub proof fn lemma_ceil_div_bounds(x: int, d: int)
    requires
        x >= 0,
        d >= 1,
    ensures
        d * ceil_div(x, d) >= x,
        d * ceil_div(x, d) < x + d,
        ceil_div(x, d) >= 0,
{
    let q = (x + d - 1) / d;
    vstd::arithmetic::div_mod::lemma_fundamental_div_mod(x + d - 1, d);
    vstd::arithmetic::div_mod::lemma_mod_bound(x + d - 1, d);
    vstd::arithmetic::div_mod::lemma_div_pos_is_pos(x + d - 1, d);
    assert(d * q == x + d - 1 - ((x + d - 1) % d));
}

/// For non-negative `x` and positive `d`, the floor quotient stays within
/// one divisor of `x`: `d * (x / d) <= x < d * (x / d) + d`.
pub proof fn lemma_floor_div_bounds(x: int, d: int)
    requires
        x >= 0,
        d >= 1,
    ensures
        d * (x / d) <= x,
        d * (x / d) + d > x,
        x / d >= 0,
{
    vstd::arithmetic::div_mod::lemma_fundamental_div_mod(x, d);
    vstd::arithmetic::div_mod::lemma_mod_bound(x, d);
    vstd::arithmetic::div_mod::lemma_div_pos_is_pos(x, d);
    assert(d * (x / d) == x - x % d);
}

/// `floor(a * b / c)` for 64-bit operands through a 128-bit intermediate.
///
/// Fails with `ArithmeticError` when `c == 0` or when the quotient does not
/// fit in a `u64`; otherwise the result is exact.
pub fn mul_div_floor(a: u64, b: u64, c: u64) -> (r: Result<u64, LaunchpadError>)
    ensures
        c == 0 ==> r is Err,
        c > 0 ==> ((r is Ok) <==> (a * b) / (c as int) <= u64::MAX),
        r is Ok ==> r->Ok_0 == (a * b) / (c as int),
        r is Err ==> r == Err::<u64, LaunchpadError>(LaunchpadError::ArithmeticError),
{
    if c == 0 {
        return Err(LaunchpadError::ArithmeticError);
    }
    proof {
        lemma_u64_product_fits(a, b);
    }
    let p: u128 = (a as u128) * (b as u128);
    let q: u128 = p / (c as u128);
    assert(q == (a * b) / (c as int));
    if q > u64::MAX as u128 {
        Err(LaunchpadError::ArithmeticError)
    } else {
        Ok(q as u64)
    }
}

/// `ceil(a * b / c)` for 64-bit operands through a 128-bit intermediate.
///
/// Fails with `ArithmeticError` when `c == 0` or when the quotient does not
/// fit in a `u64`; otherwise the result is exact.
pub fn mul_div_ceil(a: u64, b: u64, c: u64) -> (r: Result<u64, LaunchpadError>)
    ensures
        c == 0 ==> r is Err,
        c > 0 ==> ((r is Ok) <==> ceil_div(a * b, c as int) <= u64::MAX),
        r is Ok ==> r->Ok_0 == ceil_div(a * b, c as int),
        r is Err ==> r == Err::<u64, LaunchpadError>(LaunchpadError::ArithmeticError),
{
    if c == 0 {
        return Err(LaunchpadError::ArithmeticError);
    }
    proof {
        lemma_u64_product_fits(a, b);
    }
    let p: u128 = (a as u128) * (b as u128);
    assert(p + c - 1 <= u128::MAX) by (nonlinear_arith)
        requires
            p == a * b,
            a <= u64::MAX,
            b <= u64::MAX,
            1 <= c <= u64::MAX;
    let q: u128 = (p + (c - 1) as u128) / (c as u128);
    assert(q == ceil_div(a * b, c as int));
    proof {
        lemma_ceil_div_bounds(a * b, c as int);
    }
    if q > u64::MAX as u128 {
        Err(LaunchpadError::ArithmeticError)
    } else {
        Ok(q as u64)
    }
}

/// `ceil_div(x, d)` is at most `m` whenever `x` is at most `m * d`.
pub proof fn lemma_ceil_div_le(x: int, d: int, m: int)
    requires
        0 <= x,
        1 <= d,
        0 <= m,
        x <= m * d,
    ensures
        ceil_div(x, d) <= m,
{
    lemma_ceil_div_bounds(x, d);
    let c = ceil_div(x, d);
    assert(d * c < x + d);
    if c > m {
        assert(d * c >= d * (m + 1)) by (nonlinear_arith)
            requires
                c >= m + 1,
                d >= 1;
        assert(d * (m + 1) == d * m + d) by (nonlinear_arith);
        assert(d * m == m * d) by (nonlinear_arith);
        assert(false);
    }
}

/// `ceil_div(x, d)` is at least `m` whenever `x` is at least `m * d`.
pub proof fn lemma_ceil_div_ge(x: int, d: int, m: int)
    requires
        0 <= x,
        1 <= d,
        0 <= m,
        x >= m * d,
    ensures
        ceil_div(x, d) >= m,
{
    lemma_ceil_div_bounds(x, d);
    let c = ceil_div(x, d);
    assert(d * c >= x);
    if c < m {
        assert(d * c <= d * (m - 1)) by (nonlinear_arith)
            requires
                c <= m - 1,
                d >= 1;
        assert(d * (m - 1) == d * m - d) by (nonlinear_arith);
        assert(d * m == m * d) by (nonlinear_arith);
        assert(false);
    }
}

/// `ceil_div(x, d)` exceeds `m` whenever `x` exceeds `m * d`.
pub proof fn lemma_ceil_div_gt(x: int, d: int, m: int)
    requires
        1 <= d,
        0 <= m,
        x > m * d,
    ensures
        ceil_div(x, d) > m,
{
    assert(m * d >= 0) by (nonlinear_arith)
        requires
            m >= 0,
            d >= 1;
    lemma_ceil_div_bounds(x, d);
    let c = ceil_div(x, d);
    if c <= m {
        assert(d * c <= d * m) by (nonlinear_arith)
            requires
                c <= m,
                d >= 1;
        assert(d * m == m * d) by (nonlinear_arith);
        assert(false);
    }
}

/// `x / d` is at least `m` whenever `x` is at least `m * d`.
pub proof fn lemma_floor_div_ge(x: int, d: int, m: int)
    requires
        1 <= d,
        0 <= m,
        x >= m * d,
    ensures
        x / d >= m,
{
    assert(m * d >= 0) by (nonlinear_arith)
        requires
            m >= 0,
            d >= 1;
    lemma_floor_div_bounds(x, d);
    let f = x / d;
    if f < m {
        assert(d * f <= d * (m - 1)) by (nonlinear_arith)
            requires
                f <= m - 1,
                d >= 1;
        assert(d * (m - 1) == m * d - d) by (nonlinear_arith);
        assert(false);
    }
}

/// `x / d` stays below `m` whenever `x` stays below `m * d`.
pub proof fn lemma_floor_div_lt(x: int, d: int, m: int)
    requires
        0 <= x,
        1 <= d,
        x < m * d,
    ensures
        x / d < m,
{
    lemma_floor_div_bounds(x, d);
    let f = x / d;
    if f >= m {
        assert(d * f >= d * m) by (nonlinear_arith)
            requires
                f >= m,
                d >= 1;
        assert(d * m == m * d) by (nonlinear_arith);
        assert(false);
    }
}

/// The product of two 64-bit values always fits in 128 bits.
pub proof fn lemma_u64_product_fits(a: u64, b: u64)
    ensures
        (a as int) * (b as int) <= u128::MAX,
{
    assert((a as int) * (b as int) <= u128::MAX) by (nonlinear_arith)
        requires
            a <= u64::MAX,
            b <= u64::MAX;
}

/// Compares two products of 64-bit values exactly, through 128-bit
/// intermediates: whether `a * b >= c * e`.
pub fn product_at_least(a: u64, b: u64, c: u64, e: u64) -> (r: bool)
    ensures
        r <==> a * b >= c * e,
{
    proof {
        lemma_u64_product_fits(a, b);
        lemma_u64_product_fits(c, e);
    }
    (a as u128) * (b as u128) >= (c as u128) * (e as u128)
}

/// `10^e`, for scaling whole-token amounts by a decimal count.
pub open spec fn pow10(e: nat) -> int
    decreases e,
{
    if e == 0 {
        1
    } else {
        10 * pow10((e - 1) as nat)
    }
}

/// Powers of ten are positive.
pub proof fn lemma_pow10_pos(e: nat)
    ensures
        pow10(e) >= 1,
    decreases e,
{
    if e > 0 {
        lemma_pow10_pos((e - 1) as nat);
    }
}

/// Splitting the exponent splits the power: `10^(a+b) == 10^a * 10^b`.
pub proof fn lemma_pow10_adds(a: nat, b: nat)
    ensures
        pow10(a + b) == pow10(a) * pow10(b),
    decreases b,
{
    if b == 0 {
        assert(pow10(a) * 1 == pow10(a)) by (nonlinear_arith);
    } else {
        lemma_pow10_adds(a, (b - 1) as nat);
        assert(pow10(a + b) == 10 * pow10((a + b - 1) as nat));
        assert(10 * (pow10(a) * pow10((b - 1) as nat)) == pow10(a) * (10 * pow10(
            (b - 1) as nat,
        ))) by (nonlinear_arith);
    }
}

/// Whether `supply` covers `min_base * 10^decimals`: the configured
/// minimum is counted in whole tokens, the supply in base units.
pub fn meets_min_supply(supply: u64, min_base: u64, decimals: u8) -> (b: bool)
    ensures
        b <==> supply as int >= min_base as int * pow10(decimals as nat),
{
    let mut acc: u128 = min_base as u128;
    let mut i: u8 = 0;
    while i < decimals
        invariant
            i <= decimals,
            acc == min_base as int * pow10(i as nat),
            acc <= u128::MAX,
        decreases decimals - i,
    {
        if acc > u64::MAX as u128 {
            proof {
                let rest = (decimals - i) as nat;
                lemma_pow10_adds(i as nat, rest);
                lemma_pow10_pos(rest);
                lemma_pow10_pos(i as nat);
                assert(min_base as int * pow10(decimals as nat) >= acc) by (nonlinear_arith)
                    requires
                        min_base as int * pow10(decimals as nat) == min_base as int * (pow10(
                            i as nat,
                        ) * pow10(rest)),
                        acc == min_base as int * pow10(i as nat),
                        pow10(rest) >= 1,
                        pow10(i as nat) >= 1,
                        min_base >= 0;
            }
            return false;
        }
        proof {
            assert(acc * 10 == 10 * (min_base as int * pow10(i as nat))) by (nonlinear_arith)
                requires
                    acc == min_base as int * pow10(i as nat);
            assert(10 * (min_base as int * pow10(i as nat)) == min_base as int * (10 * pow10(
                i as nat,
            ))) by (nonlinear_arith);
        }
        acc = acc * 10;
        i = i + 1;
    }
    (supply as u128) >= acc
}

/// Integer square root, rounded down: the unique non-negative `r` with
/// `r * r <= n < (r + 1) * (r + 1)`.
pub open spec fn isqrt_spec(n: int) -> int
    decreases n,
{
    if n < 1 {
        0
    } else {
        let r = isqrt_spec(n - 1);
        if (r + 1) * (r + 1) <= n {
            r + 1
        } else {
            r
        }
    }
}

/// `isqrt_spec` squares to at most `n`, and one more already overshoots.
pub proof fn lemma_isqrt_spec_bounds(n: int)
    requires
        0 <= n,
    ensures
        0 <= isqrt_spec(n),
        isqrt_spec(n) * isqrt_spec(n) <= n,
        (isqrt_spec(n) + 1) * (isqrt_spec(n) + 1) > n,
    decreases n,
{
    if n >= 1 {
        lemma_isqrt_spec_bounds(n - 1);
        let r = isqrt_spec(n - 1);
        if (r + 1) * (r + 1) <= n {
            assert((r + 2) * (r + 2) > n) by (nonlinear_arith)
                requires
                    r >= 0,
                    (r + 1) * (r + 1) > n - 1,
                    (r + 1) * (r + 1) <= n;
        }
    }
}

/// Any value whose square brackets `n` as `isqrt_spec(n)`'s does is
/// `isqrt_spec(n)` itself.
pub proof fn lemma_isqrt_unique(n: int, r: int)
    requires
        0 <= n,
        0 <= r,
        r * r <= n,
        (r + 1) * (r + 1) > n,
    ensures
        r == isqrt_spec(n),
{
    lemma_isqrt_spec_bounds(n);
    let s = isqrt_spec(n);
    if r < s {
        assert((r + 1) * (r + 1) <= s * s) by (nonlinear_arith)
            requires
                0 <= r + 1 <= s;
        assert(false);
    }
    if r > s {
        assert((s + 1) * (s + 1) <= r * r) by (nonlinear_arith)
            requires
                0 <= s + 1 <= r;
        assert(false);
    }
}

/// Integer square root of a 128-bit value, rounded down.
///
/// The result `r` is the unique integer with `r * r <= n < (r + 1) * (r + 1)`;
/// it always fits in 64 bits.
pub fn isqrt_u128(n: u128) -> (r: u64)
    ensures
        (r as int) * (r as int) <= n,
        ((r + 1) as int) * ((r + 1) as int) > n,
        r == isqrt_spec(n as int),
{
    let mut lo: u64 = 0;
    let mut hi: u64 = u64::MAX;
    proof {
        assert((u64::MAX as int + 1) * (u64::MAX as int + 1) > u128::MAX) by (nonlinear_arith);
    }
    while lo < hi
        invariant
            lo <= hi,
            (lo as int) * (lo as int) <= n,
            ((hi + 1) as int) * ((hi + 1) as int) > n,
        decreases hi - lo,
    {
        let mid_wide: u128 = ((lo as u128) + (hi as u128) + 1) / 2;
        assert(lo < mid_wide <= hi);
        let mid: u64 = mid_wide as u64;
        proof {
            lemma_u64_product_fits(mid, mid);
        }
        let sq: u128 = (mid as u128) * (mid as u128);
        if sq <= n {
            lo = mid;
        } else {
            hi = mid - 1;
        }
    }
    proof {
        lemma_isqrt_unique(n as int, lo as int);
    }
    lo
}

} // verus!
