//! The persisted records and the oracle reading.
use vstd::prelude::*;
use crate::error::ErrorCode;

verus! {

/// A 32-byte account identity.
#[derive(Clone, Copy, Debug)]
pub struct Pubkey {
    pub bytes: [u8; 32],
}

impl Pubkey {
    /// Whether two identities hold the same bytes.
    pub fn same_as(&self, other: &Pubkey) -> (r: bool)
        ensures
            r == (self.bytes@ == other.bytes@),
    {
        let mut i: usize = 0;
        while i < 32
            invariant
                0 <= i <= 32,
                self.bytes@.len() == 32,
                other.bytes@.len() == 32,
                forall|j: int| 0 <= j < i ==> self.bytes@[j] == other.bytes@[j],
            decreases 32 - i,
        {
            if self.bytes[i] != other.bytes[i] {
                return false;
            }
            i = i + 1;
        }
        assert(self.bytes@ =~= other.bytes@);
        true
    }
}


/// Protocol-wide risk parameters.
#[derive(Clone, Copy, Debug)]
pub struct Config {
    /// The only identity that may change these parameters.
    pub authority: Pubkey,
    /// Loan-to-value limit for new borrowing, in basis points.
    pub max_ltv_bps: u16,
    /// Loan-to-value at or above which a position can be liquidated.
    pub liquidation_ltv_bps: u16,
    /// Extra collateral, in basis points of the debt, paid to a liquidator.
    pub liquidation_bonus_bps: u16,
    /// Lowest health factor an operation may leave behind.
    pub min_health_factor_bps: u16,
    /// Yearly simple interest on debt, in basis points.
    pub borrow_rate_bps: u16,
    /// Most debt tokens that may be outstanding.
    pub supply_cap: u64,
    /// When set, every state-changing operation fails.
    pub paused: bool,
}

/// Upper bound of a loan-to-value threshold.
pub const MAX_BPS: u16 = 10000;
/// Upper bound of the liquidation bonus.
pub const MAX_LIQUIDATION_BONUS_BPS: u16 = 2000;
/// Lower bound of the minimum health factor.
pub const MIN_HEALTH_FACTOR_FLOOR_BPS: u16 = 10000;
/// Upper bound of the minimum health factor.
pub const MIN_HEALTH_FACTOR_CEILING_BPS: u16 = 20000;
/// Upper bound of the yearly borrow rate.
pub const MAX_BORROW_RATE_BPS: u16 = 5000;

impl Config {
    /// The invariant every stored configuration keeps.
    pub open spec fn wf(&self) -> bool {
        &&& 0 < self.max_ltv_bps
        &&& self.max_ltv_bps < self.liquidation_ltv_bps
        &&& self.liquidation_ltv_bps <= MAX_BPS
        &&& self.liquidation_bonus_bps <= MAX_LIQUIDATION_BONUS_BPS
        &&& MIN_HEALTH_FACTOR_FLOOR_BPS <= self.min_health_factor_bps <= MIN_HEALTH_FACTOR_CEILING_BPS
        &&& self.borrow_rate_bps <= MAX_BORROW_RATE_BPS
        &&& self.supply_cap > 0
    }
}

/// One owner's collateral and debt.
#[derive(Clone, Copy, Debug)]
pub struct Position {
    pub owner: Pubkey,
    /// Collateral held for the owner, in raw units.
    pub deposited_collateral: u64,
    /// Debt owed, in debt-token units.
    pub debt_shares: u64,
    /// When interest was last added to the debt.
    pub last_update_timestamp: i64,
    /// Whether the position holds collateral or debt.
    pub active: bool,
}

impl Position {
    /// A position is active exactly when it holds collateral or debt.
    pub open spec fn wf(&self) -> bool {
        self.active <==> (self.deposited_collateral > 0 || self.debt_shares > 0)
    }

    /// An empty, inactive position for `owner`.
    pub fn new(owner: Pubkey) -> (r: Position)
        ensures
            r.owner == owner,
            r.deposited_collateral == 0,
            r.debt_shares == 0,
            r.last_update_timestamp == 0,
            !r.active,
            r.wf(),
    {
        Position { owner, deposited_collateral: 0, debt_shares: 0, last_update_timestamp: 0, active: false }
    }
}

/// A price reading: the collateral is worth `price * 10^exponent` debt-token
/// units, as published at `publish_time`.
#[derive(Clone, Copy, Debug)]
pub struct PriceQuote {
    pub price: i64,
    pub exponent: i32,
    pub publish_time: i64,
}

/// Whether a reading published at `publish_time` may still be used at `now`.
pub open spec fn price_is_fresh(publish_time: i64, now: i64, maximum_age: u64) -> bool {
    now - publish_time <= maximum_age
}

/// Fails with `PriceTooOld` unless the reading is at most `maximum_age`
/// seconds old at `now`.
pub fn check_price_age(quote: &PriceQuote, now: i64, maximum_age: u64) -> (r: Result<(), ErrorCode>)
    ensures
        r is Ok <==> price_is_fresh(quote.publish_time, now, maximum_age),
        r is Err ==> r->Err_0 == ErrorCode::PriceTooOld,
{
    if (now as i128) - (quote.publish_time as i128) <= maximum_age as i128 {
        Ok(())
    } else {
        Err(ErrorCode::PriceTooOld)
    }
}
} // verus!
