//! Closing an under-collateralised position.
use vstd::prelude::*;
use crate::error::ErrorCode;
use crate::math::{
    accrue_interest, accrue_interest_result, calculate_collateral_value, calculate_liquidation_amounts,
    collateral_value_result, compute_ltv, liquidation_amounts_result, ltv_value, scaled_value,
};
use crate::state::{check_price_age, price_is_fresh, Config, Position, PriceQuote, Pubkey};

verus! {

/// Everything a liquidation reads: the liquidator, the stored records, the
/// liquidator's debt-token balance, the collateral vault's balance, the
/// oracle reading and the current time.
#[derive(Clone, Copy, Debug)]
pub struct Liquidate {
    pub liquidator: Pubkey,
    pub config: Config,
    pub position: Position,
    pub liquidator_balance: u64,
    pub vault_balance: u64,
    pub price_update: PriceQuote,
    pub now: i64,
    pub maximum_age: u64,
}

/// What a successful liquidation moves: the debt tokens the liquidator
/// burns, the collateral the liquidator receives and the collateral that
/// goes back to the owner, and the loan-to-value it was judged at.
#[derive(Clone, Copy, Debug, PartialEq, Eq, Structural)]
pub struct LiquidationSettlement {
    pub debt_repaid: u64,
    pub collateral_seized: u64,
    pub collateral_returned: u64,
    pub ltv_bps: u16,
}

/// The emptied, inactive position a liquidation leaves behind.
pub open spec fn cleared_position(p: Position, now: i64) -> Position {
    Position { owner: p.owner, deposited_collateral: 0, debt_shares: 0, last_update_timestamp: now, active: false }
}

/// What a liquidation settles, or the error it fails with.
pub open spec fn liquidate_result(d: Liquidate) -> Result<LiquidationSettlement, ErrorCode> {
    let p = d.position;
    let c = d.config;
    let q = d.price_update;
    if !p.active {
        Err(ErrorCode::PositionNotActive)
    } else if c.paused {
        Err(ErrorCode::SystemPaused)
    } else if !price_is_fresh(q.publish_time, d.now, d.maximum_age) {
        Err(ErrorCode::PriceTooOld)
    } else {
        match accrue_interest_result(p.debt_shares, c.borrow_rate_bps, p.last_update_timestamp, d.now) {
            Err(e) => Err(e),
            Ok(debt) => match collateral_value_result(p.deposited_collateral, q.price, q.exponent) {
                Err(e) => Err(e),
                Ok(value) => if ltv_value(debt as int, value as int) < c.liquidation_ltv_bps {
                    Err(ErrorCode::PositionNotLiquidatable)
                } else {
                    match liquidation_amounts_result(
                        debt,
                        p.deposited_collateral,
                        c.liquidation_bonus_bps,
                        q.price,
                        q.exponent,
                    ) {
                        Err(e) => Err(e),
                        Ok(split) => if d.liquidator_balance < debt {
                            Err(ErrorCode::InsufficientBalance)
                        } else if d.vault_balance < split.0 + split.1 {
                            Err(ErrorCode::InsufficientCollateral)
                        } else {
                            Ok(
                                LiquidationSettlement {
                                    debt_repaid: debt,
                                    collateral_seized: split.0,
                                    collateral_returned: split.1,
                                    ltv_bps: ltv_value(debt as int, value as int) as u16,
                                },
                            )
                        },
                    }
                },
            },
        }
    }
}

impl Liquidate {
    /// Liquidates the position: the liquidator repays its whole accrued
    /// debt and takes collateral worth the debt plus the bonus; all the rest
    /// of the position's collateral goes back to the owner, and the position
    /// is emptied and closed. Only a position whose loan-to-value has
    /// reached the liquidation threshold can be liquidated, and only while
    /// the vault holds all of its collateral. On failure nothing changes.
    pub fn liquidate(&mut self) -> (r: Result<LiquidationSettlement, ErrorCode>)
        ensures
            final(self).liquidator == old(self).liquidator,
            final(self).config == old(self).config,
            final(self).liquidator_balance == old(self).liquidator_balance,
            final(self).vault_balance == old(self).vault_balance,
            final(self).price_update == old(self).price_update,
            final(self).now == old(self).now,
            final(self).maximum_age == old(self).maximum_age,
            r == liquidate_result(*old(self)),
            r is Ok ==> final(self).position == cleared_position(old(self).position, old(self).now),
            r is Err ==> final(self).position == old(self).position,
            r is Ok ==> {
                let s = r->Ok_0;
                let q = old(self).price_update;
                &&& s.ltv_bps >= old(self).config.liquidation_ltv_bps
                &&& s.ltv_bps == ltv_value(
                    s.debt_repaid as int,
                    scaled_value(old(self).position.deposited_collateral as int, q.price as int, q.exponent as int),
                )
                &&& s.collateral_seized <= old(self).position.deposited_collateral
                &&& s.collateral_seized + s.collateral_returned == old(self).position.deposited_collateral
                &&& s.collateral_seized + s.collateral_returned <= old(self).vault_balance
                &&& final(self).position.debt_shares == 0
                &&& final(self).position.deposited_collateral == 0
                &&& !final(self).position.active
                &&& final(self).position.wf()
            },
    {
        if !self.position.active {
            return Err(ErrorCode::PositionNotActive);
        }
        if self.config.paused {
            return Err(ErrorCode::SystemPaused);
        }
        let q = self.price_update;
        match check_price_age(&q, self.now, self.maximum_age) {
            Ok(()) => {},
            Err(e) => {
                return Err(e);
            },
        }
        let p = self.position;
        let debt = match accrue_interest(p.debt_shares, self.config.borrow_rate_bps, p.last_update_timestamp, self.now) {
            Ok(d) => d,
            Err(e) => {
                return Err(e);
            },
        };
        let value = match calculate_collateral_value(p.deposited_collateral, q.price, q.exponent) {
            Ok(v) => v,
            Err(e) => {
                return Err(e);
            },
        };
        let ltv = compute_ltv(debt, value);
        if ltv < self.config.liquidation_ltv_bps {
            return Err(ErrorCode::PositionNotLiquidatable);
        }
        let (seized, remaining) = match calculate_liquidation_amounts(
            debt,
            p.deposited_collateral,
            self.config.liquidation_bonus_bps,
            q.price,
            q.exponent,
        ) {
            Ok(split) => split,
            Err(e) => {
                return Err(e);
            },
        };
        if self.liquidator_balance < debt {
            return Err(ErrorCode::InsufficientBalance);
        }
        if self.vault_balance < p.deposited_collateral {
            return Err(ErrorCode::InsufficientCollateral);
        }
        self.position = Position {
            owner: p.owner,
            deposited_collateral: 0,
            debt_shares: 0,
            last_update_timestamp: self.now,
            active: false,
        };
        Ok(LiquidationSettlement { debt_repaid: debt, collateral_seized: seized, collateral_returned: remaining, ltv_bps: ltv })
    }
}

} // verus!
