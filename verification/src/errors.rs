use vstd::prelude::*;

verus! {

/// The failure modes of the engine.
///
/// Every error is a pure return value.  No operation applies part of its
/// effect and then fails: a function that returns an error leaves every
/// `&mut` argument exactly as it found it.
#[derive(Clone, Copy, Debug, PartialEq, Eq, Structural)]
pub enum LaunchpadError {
    /// Overflow or loss of all significant digits.  Fatal to the operation;
    /// the engine never wraps or saturates silently.
    ArithmeticError,
    /// The caller's minimum-out / maximum-in bound was violated.
    SlippageExceeded,
    /// The curve cannot satisfy the request within the pool's reserves.
    InsufficientLiquidity,
    /// The operation is illegal in the pool's current lifecycle state.
    PoolNotTrading,
    /// Curve or rate parameters violate the protocol's bounds.
    InvalidConfig,
    /// A vesting or fee claim whose delta is zero.
    NothingToClaim,
}

} // verus!
