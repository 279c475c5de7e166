//! Fixed-price curve: the price is the constant `virtual_quote /
//! virtual_base`, with no reserve-dependent slippage.
//!
//! Amounts paid out of the pool round down; amounts the user must pay round
//! up, so at the fixed price the pool never loses value to rounding.

use vstd::prelude::*;

use crate::errors::LaunchpadError;
use crate::math::ceil_div;
use crate::math::lemma_ceil_div_bounds;
use crate::math::lemma_floor_div_bounds;
use crate::math::mul_div_ceil;
use crate::math::mul_div_floor;

verus! {

/// Base units paid out for `dq` net quote units at price `vq / vb`.
pub open spec fn fixed_buy_out(vb: int, vq: int, dq: int) -> int {
    (dq * vb) / vq
}

/// Net quote units charged to receive exactly `db` base units.
pub open spec fn fixed_buy_in_for_out(vb: int, vq: int, db: int) -> int {
    ceil_div(db * vq, vb)
}

/// Quote units paid out for selling back `db` base units.
pub open spec fn fixed_sell_out(vb: int, vq: int, db: int) -> int {
    (db * vq) / vb
}

/// Base units charged to receive exactly `dq` quote units.
pub open spec fn fixed_sell_in_for_out(vb: int, vq: int, dq: int) -> int {
    ceil_div(dq * vb, vq)
}

/// Rounding never favours the user: the base paid out for `dq` quote is
/// worth at most `dq` at the fixed price, and the quote charged for `db`
/// base is worth at least `db`.
pub proof fn lemma_fixed_rounding_favours_pool(vb: int, vq: int, x: int)
    requires
        1 <= vb,
        1 <= vq,
        0 <= x,
    ensures
        fixed_buy_out(vb, vq, x) * vq <= x * vb,
        fixed_buy_in_for_out(vb, vq, x) * vb >= x * vq,
        fixed_sell_out(vb, vq, x) * vb <= x * vq,
        fixed_sell_in_for_out(vb, vq, x) * vq >= x * vb,
{
    assert(x * vb >= 0 && x * vq >= 0) by (nonlinear_arith)
        requires
            x >= 0,
            vb >= 1,
            vq >= 1;
    lemma_floor_div_bounds(x * vb, vq);
    lemma_ceil_div_bounds(x * vq, vb);
    lemma_floor_div_bounds(x * vq, vb);
    lemma_ceil_div_bounds(x * vb, vq);
    assert(fixed_buy_out(vb, vq, x) * vq == vq * ((x * vb) / vq)) by (nonlinear_arith);
    assert(fixed_buy_in_for_out(vb, vq, x) * vb == vb * ceil_div(x * vq, vb))
        by (nonlinear_arith);
    assert(fixed_sell_out(vb, vq, x) * vb == vb * ((x * vq) / vb)) by (nonlinear_arith);
    assert(fixed_sell_in_for_out(vb, vq, x) * vq == vq * ceil_div(x * vb, vq))
        by (nonlinear_arith);
}

/// Base units paid out of the pool for a net quote input of `amount_in`,
/// rounded down.  Fails with `ArithmeticError` when the output does not fit
/// in 64 bits.
pub fn fixed_buy_exact_in(
    virtual_base: u64,
    virtual_quote: u64,
    amount_in: u64,
) -> (r: Result<u64, LaunchpadError>)
    requires
        1 <= virtual_base,
        1 <= virtual_quote,
    ensures
        ((r is Ok) <==> fixed_buy_out(virtual_base as int, virtual_quote as int, amount_in as int)
            <= u64::MAX),
        ((r is Err) ==> r == Err::<u64, LaunchpadError>(LaunchpadError::ArithmeticError)),
        ((r is Ok) ==> r->Ok_0 == fixed_buy_out(
            virtual_base as int,
            virtual_quote as int,
            amount_in as int,
        )),
{
    mul_div_floor(amount_in, virtual_base, virtual_quote)
}

/// Net quote units the user must pay to receive exactly `amount_out` base
/// units, rounded up.  Fails with `ArithmeticError` when the charge does
/// not fit in 64 bits.
pub fn fixed_buy_exact_out(
    virtual_base: u64,
    virtual_quote: u64,
    amount_out: u64,
) -> (r: Result<u64, LaunchpadError>)
    requires
        1 <= virtual_base,
        1 <= virtual_quote,
    ensures
        ((r is Ok) <==> fixed_buy_in_for_out(
            virtual_base as int,
            virtual_quote as int,
            amount_out as int,
        ) <= u64::MAX),
        ((r is Err) ==> r == Err::<u64, LaunchpadError>(LaunchpadError::ArithmeticError)),
        ((r is Ok) ==> r->Ok_0 == fixed_buy_in_for_out(
            virtual_base as int,
            virtual_quote as int,
            amount_out as int,
        )),
{
    mul_div_ceil(amount_out, virtual_quote, virtual_base)
}

/// Quote units paid out of the pool for selling back `amount_in` base
/// units, rounded down.  Fails with `ArithmeticError` when the output does
/// not fit in 64 bits.
pub fn fixed_sell_exact_in(
    virtual_base: u64,
    virtual_quote: u64,
    amount_in: u64,
) -> (r: Result<u64, LaunchpadError>)
    requires
        1 <= virtual_base,
        1 <= virtual_quote,
    ensures
        ((r is Ok) <==> fixed_sell_out(virtual_base as int, virtual_quote as int, amount_in as int)
            <= u64::MAX),
        ((r is Err) ==> r == Err::<u64, LaunchpadError>(LaunchpadError::ArithmeticError)),
        ((r is Ok) ==> r->Ok_0 == fixed_sell_out(
            virtual_base as int,
            virtual_quote as int,
            amount_in as int,
        )),
{
    mul_div_floor(amount_in, virtual_quote, virtual_base)
}

/// Base units the user must sell to receive exactly `amount_out` quote
/// units, rounded up.  Fails with `ArithmeticError` when the charge does
/// not fit in 64 bits.
pub fn fixed_sell_exact_out(
    virtual_base: u64,
    virtual_quote: u64,
    amount_out: u64,
) -> (r: Result<u64, LaunchpadError>)
    requires
        1 <= virtual_base,
        1 <= virtual_quote,
    ensures
        ((r is Ok) <==> fixed_sell_in_for_out(
            virtual_base as int,
            virtual_quote as int,
            amount_out as int,
        ) <= u64::MAX),
        ((r is Err) ==> r == Err::<u64, LaunchpadError>(LaunchpadError::ArithmeticError)),
        ((r is Ok) ==> r->Ok_0 == fixed_sell_in_for_out(
            virtual_base as int,
            virtual_quote as int,
            amount_out as int,
        )),
{
    mul_div_ceil(amount_out, virtual_base, virtual_quote)
}

} // verus!
