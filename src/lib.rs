//! Accounting core of an over-collateralised stablecoin: risk parameters,
//! per-owner positions, fixed-point valuation and interest math, and the
//! deposit, redeem and liquidate state transitions.
pub mod error;
pub mod math;
pub mod state;
pub mod admin;
pub mod deposit;
pub mod redeem;
pub mod liquidate;
pub mod laws;
