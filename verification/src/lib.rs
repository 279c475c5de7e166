//! Pricing-and-accounting engine for a token-launch bonding-curve exchange.
//!
//! A pool sells a base asset for a quote asset along a deterministic price
//! curve, accumulates protocol and platform fees, vests part of the base
//! allocation to beneficiaries, and moves to an AMM once a funding threshold
//! is reached.  The engine is pure computation over an in-memory snapshot of
//! the pool's state: the caller performs all custody transfers and supplies
//! the clock.

pub mod constant_curve;
pub mod errors;
pub mod fees;
pub mod fixed_curve;
pub mod init;
pub mod lifecycle;
pub mod linear_curve;
pub mod math;
pub mod platform;
pub mod states;
pub mod swap;
pub mod vesting;
