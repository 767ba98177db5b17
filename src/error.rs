use vstd::prelude::*;

verus! {

/// Every way an operation of this library can fail.
#[derive(PartialEq, Eq, Structural, Clone, Copy, Debug)]
pub enum ErrorCode {
    Unauthorized,
    InvalidBps,
    MaxLtvMustBeLessThanLiquidationLtv,
    LiquidationLtvMustBeGreaterThanMaxLtv,
    LiquidationBonusTooHigh,
    MinHealthFactorTooLow,
    MinHealthFactorTooHigh,
    BorrowRateTooHigh,
    InvalidSupplyCap,
    SystemPaused,
    InvalidAmount,
    MathOverflow,
    ExceedsMaxLtv,
    SupplyCapExceeded,
    HealthFactorTooLow,
    InvalidPrice,
    PriceTooOld,
    InvalidTimestamp,
    PositionNotActive,
    InsufficientBalance,
    InsufficientCollateral,
    PositionNotLiquidatable,
}

impl ErrorCode {
    /// Human-readable description of the error.
    pub fn message(&self) -> (r: &'static str) {
        match self {
            ErrorCode::Unauthorized => "Unauthorized: Only authority can perform this action",
            ErrorCode::InvalidBps => "Invalid BPS value: must be between 0 and 10000",
            ErrorCode::MaxLtvMustBeLessThanLiquidationLtv => "Max LTV must be less than liquidation LTV",
            ErrorCode::LiquidationLtvMustBeGreaterThanMaxLtv => "Liquidation LTV must be greater than max LTV",
            ErrorCode::LiquidationBonusTooHigh => "Liquidation bonus too high: max 20%",
            ErrorCode::MinHealthFactorTooLow => "Min health factor too low: must be at least 100%",
            ErrorCode::MinHealthFactorTooHigh => "Min health factor too high: max 200%",
            ErrorCode::BorrowRateTooHigh => "Borrow rate too high: max 50% APR",
            ErrorCode::InvalidSupplyCap => "Invalid supply cap: must be greater than 0",
            ErrorCode::SystemPaused => "System is paused",
            ErrorCode::InvalidAmount => "Invalid amount: must be greater than 0",
            ErrorCode::MathOverflow => "Math overflow occurred",
            ErrorCode::ExceedsMaxLtv => "Exceeds maximum LTV ratio",
            ErrorCode::SupplyCapExceeded => "Supply cap exceeded",
            ErrorCode::HealthFactorTooLow => "Health factor too low",
            ErrorCode::InvalidPrice => "Invalid price from oracle",
            ErrorCode::PriceTooOld => "Oracle price is older than the maximum age",
            ErrorCode::InvalidTimestamp => "Invalid timestamp",
            ErrorCode::PositionNotActive => "Position not active",
            ErrorCode::InsufficientBalance => "Insufficient balance",
            ErrorCode::InsufficientCollateral => "Insufficient collateral",
            ErrorCode::PositionNotLiquidatable => "Position not liquidatable - health factor above threshold",
        }
    }
}

} // verus!
