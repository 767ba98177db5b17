//! Locking collateral and minting debt tokens against it.
use vstd::prelude::*;
use crate::error::ErrorCode;
use crate::math::{
    accrue_interest, accrue_interest_result, calculate_collateral_value, calculate_health_factor,
    calculate_max_borrowable_amount, collateral_value_result, health_factor_value, max_borrowable_result,
    max_borrowable_value, scaled_value,
};
use crate::state::{check_price_age, price_is_fresh, Config, Position, PriceQuote, Pubkey};

verus! {

/// Everything a deposit reads: the depositor, the stored records, the debt
/// token's outstanding supply, the oracle reading and the current time.
#[derive(Clone, Copy, Debug)]
pub struct DepositCollateral {
    pub owner: Pubkey,
    pub config: Config,
    pub position: Position,
    pub mint_supply: u64,
    pub price_update: PriceQuote,
    pub now: i64,
    pub maximum_age: u64,
}

/// The position's debt brought up to `now`: interest is added only to an
/// active position.
pub open spec fn debt_at(p: Position, rate_bps: u16, now: i64) -> Result<u64, ErrorCode> {
    if p.active {
        accrue_interest_result(p.debt_shares, rate_bps, p.last_update_timestamp, now)
    } else {
        Ok(p.debt_shares)
    }
}

/// The checks of a deposit once the debt is brought up to date: the new
/// debt must stay within the loan-to-value limit of the new collateral,
/// the supply cap and the minimum health factor.
pub open spec fn borrow_limits_result(
    d: DepositCollateral,
    debt: u64,
    collateral_amount: u64,
    mint_amount: u64,
) -> Result<Position, ErrorCode> {
    let c = d.config;
    let q = d.price_update;
    if d.position.deposited_collateral + collateral_amount > u64::MAX {
        Err(ErrorCode::MathOverflow)
    } else {
        let new_collateral = (d.position.deposited_collateral + collateral_amount) as u64;
        match collateral_value_result(new_collateral, q.price, q.exponent) {
            Err(e) => Err(e),
            Ok(value) => match max_borrowable_result(value, c.max_ltv_bps) {
                Err(e) => Err(e),
                Ok(limit) => if debt + mint_amount > u64::MAX {
                    Err(ErrorCode::MathOverflow)
                } else if debt + mint_amount > limit {
                    Err(ErrorCode::ExceedsMaxLtv)
                } else if d.mint_supply + mint_amount > u64::MAX {
                    Err(ErrorCode::MathOverflow)
                } else if d.mint_supply + mint_amount > c.supply_cap {
                    Err(ErrorCode::SupplyCapExceeded)
                } else if health_factor_value(value as int, debt + mint_amount, c.liquidation_ltv_bps as int)
                    < c.min_health_factor_bps {
                    Err(ErrorCode::HealthFactorTooLow)
                } else {
                    Ok(
                        Position {
                            owner: d.owner,
                            deposited_collateral: new_collateral,
                            debt_shares: (debt + mint_amount) as u64,
                            last_update_timestamp: d.now,
                            active: true,
                        },
                    )
                },
            },
        }
    }
}

/// The position a deposit leaves behind, or the error it fails with.
pub open spec fn deposit_result(d: DepositCollateral, collateral_amount: u64, mint_amount: u64) -> Result<
    Position,
    ErrorCode,
> {
    if d.config.paused {
        Err(ErrorCode::SystemPaused)
    } else if collateral_amount == 0 {
        Err(ErrorCode::InvalidAmount)
    } else if !price_is_fresh(d.price_update.publish_time, d.now, d.maximum_age) {
        Err(ErrorCode::PriceTooOld)
    } else {
        match debt_at(d.position, d.config.borrow_rate_bps, d.now) {
            Err(e) => Err(e),
            Ok(debt) => borrow_limits_result(d, debt, collateral_amount, mint_amount),
        }
    }
}

impl DepositCollateral {
    fn validate_borrow_limits(&self, debt: u64, collateral_amount: u64, mint_amount: u64) -> (r: Result<
        Position,
        ErrorCode,
    >)
        ensures
            r == borrow_limits_result(*self, debt, collateral_amount, mint_amount),
            r is Ok ==> r->Ok_0.debt_shares <= max_borrowable_value(
                scaled_value(r->Ok_0.deposited_collateral as int, self.price_update.price as int, self.price_update.exponent as int),
                self.config.max_ltv_bps as int,
            ),
            r is Ok ==> r->Ok_0.deposited_collateral > 0 || collateral_amount == 0,
    {
        let c = self.config;
        let q = self.price_update;
        if collateral_amount > u64::MAX - self.position.deposited_collateral {
            return Err(ErrorCode::MathOverflow);
        }
        let new_collateral = self.position.deposited_collateral + collateral_amount;
        let value = match calculate_collateral_value(new_collateral, q.price, q.exponent) {
            Ok(v) => v,
            Err(e) => {
                return Err(e);
            },
        };
        let limit = match calculate_max_borrowable_amount(value, c.max_ltv_bps) {
            Ok(v) => v,
            Err(e) => {
                return Err(e);
            },
        };
        if mint_amount > u64::MAX - debt {
            return Err(ErrorCode::MathOverflow);
        }
        let new_debt = debt + mint_amount;
        if new_debt > limit {
            return Err(ErrorCode::ExceedsMaxLtv);
        }
        if mint_amount > u64::MAX - self.mint_supply {
            return Err(ErrorCode::MathOverflow);
        }
        if self.mint_supply + mint_amount > c.supply_cap {
            return Err(ErrorCode::SupplyCapExceeded);
        }
        let health = match calculate_health_factor(value, new_debt, c.liquidation_ltv_bps) {
            Ok(h) => h,
            Err(e) => {
                return Err(e);
            },
        };
        assert(value as int == scaled_value(new_collateral as int, q.price as int, q.exponent as int));
        assert(limit as int == max_borrowable_value(value as int, c.max_ltv_bps as int));
        if health < c.min_health_factor_bps {
            return Err(ErrorCode::HealthFactorTooLow);
        }
        Ok(
            Position {
                owner: self.owner,
                deposited_collateral: new_collateral,
                debt_shares: new_debt,
                last_update_timestamp: self.now,
                active: true,
            },
        )
    }

    /// Locks `collateral_amount` more collateral and mints
    /// `stablecoin_to_mint` debt tokens to the owner. On success the position
    /// holds the new collateral and the accrued debt plus the minted amount;
    /// on failure nothing changes.
    pub fn deposit_collateral_and_mint_tokens(&mut self, collateral_amount: u64, stablecoin_to_mint: u64) -> (r:
        Result<(), ErrorCode>)
        ensures
            final(self).owner == old(self).owner,
            final(self).config == old(self).config,
            final(self).mint_supply == old(self).mint_supply,
            final(self).price_update == old(self).price_update,
            final(self).now == old(self).now,
            final(self).maximum_age == old(self).maximum_age,
            match deposit_result(*old(self), collateral_amount, stablecoin_to_mint) {
                Ok(p) => r is Ok && final(self).position == p,
                Err(e) => r == Err::<(), ErrorCode>(e) && final(self).position == old(self).position,
            },
            r is Ok ==> {
                let p = final(self).position;
                let q = final(self).price_update;
                &&& p.debt_shares <= max_borrowable_value(
                    scaled_value(p.deposited_collateral as int, q.price as int, q.exponent as int),
                    final(self).config.max_ltv_bps as int,
                )
                &&& old(self).mint_supply + stablecoin_to_mint <= final(self).config.supply_cap
                &&& p.active
                &&& p.wf()
            },
    {
        if self.config.paused {
            return Err(ErrorCode::SystemPaused);
        }
        if collateral_amount == 0 {
            return Err(ErrorCode::InvalidAmount);
        }
        match check_price_age(&self.price_update, self.now, self.maximum_age) {
            Ok(()) => {},
            Err(e) => {
                return Err(e);
            },
        }
        let debt = if self.position.active {
            match accrue_interest(
                self.position.debt_shares,
                self.config.borrow_rate_bps,
                self.position.last_update_timestamp,
                self.now,
            ) {
                Ok(d) => d,
                Err(e) => {
                    return Err(e);
                },
            }
        } else {
            self.position.debt_shares
        };
        match self.validate_borrow_limits(debt, collateral_amount, stablecoin_to_mint) {
            Ok(p) => {
                self.position = p;
                Ok(())
            },
            Err(e) => Err(e),
        }
    }
}

} // verus!
