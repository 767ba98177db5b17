//! Burning debt tokens and withdrawing collateral.
use vstd::prelude::*;
use crate::error::ErrorCode;
use crate::math::{
    accrue_interest, accrue_interest_result, calculate_collateral_value, calculate_health_factor,
    collateral_value_result, health_factor_value,
};
use crate::state::{check_price_age, price_is_fresh, Config, Position, PriceQuote, Pubkey};

verus! {

/// Everything a redemption reads: the owner, the stored records, the
/// owner's debt-token balance, the collateral vault's balance, the oracle
/// reading and the current time.
#[derive(Clone, Copy, Debug)]
pub struct RedeemCollateral {
    pub owner: Pubkey,
    pub config: Config,
    pub position: Position,
    pub user_balance: u64,
    pub vault_balance: u64,
    pub price_update: PriceQuote,
    pub now: i64,
    pub maximum_age: u64,
}

/// Whether `debt` against `collateral` still meets the minimum health
/// factor; the price is consulted only while debt remains.
pub open spec fn health_check_result(d: RedeemCollateral, collateral: u64, debt: u64) -> Result<(), ErrorCode> {
    if debt == 0 {
        Ok(())
    } else if !price_is_fresh(d.price_update.publish_time, d.now, d.maximum_age) {
        Err(ErrorCode::PriceTooOld)
    } else {
        match collateral_value_result(collateral, d.price_update.price, d.price_update.exponent) {
            Err(e) => Err(e),
            Ok(value) => if health_factor_value(value as int, debt as int, d.config.liquidation_ltv_bps as int)
                < d.config.min_health_factor_bps {
                Err(ErrorCode::HealthFactorTooLow)
            } else {
                Ok(())
            },
        }
    }
}

/// The position a redemption leaves behind, or the error it fails with.
pub open spec fn redeem_result(d: RedeemCollateral, burn_amount: u64, withdraw_amount: u64) -> Result<
    Position,
    ErrorCode,
> {
    let p = d.position;
    if d.config.paused {
        Err(ErrorCode::SystemPaused)
    } else if burn_amount == 0 && withdraw_amount == 0 {
        Err(ErrorCode::InvalidAmount)
    } else {
        match accrue_interest_result(p.debt_shares, d.config.borrow_rate_bps, p.last_update_timestamp, d.now) {
            Err(e) => Err(e),
            Ok(debt) => if d.user_balance < burn_amount {
                Err(ErrorCode::InsufficientBalance)
            } else if debt < burn_amount {
                Err(ErrorCode::MathOverflow)
            } else if p.deposited_collateral < withdraw_amount || d.vault_balance < withdraw_amount {
                Err(ErrorCode::InsufficientCollateral)
            } else {
                let new_debt = (debt - burn_amount) as u64;
                let new_collateral = (p.deposited_collateral - withdraw_amount) as u64;
                match health_check_result(d, new_collateral, new_debt) {
                    Err(e) => Err(e),
                    Ok(()) => Ok(
                        Position {
                            owner: p.owner,
                            deposited_collateral: new_collateral,
                            debt_shares: new_debt,
                            last_update_timestamp: d.now,
                            active: if new_debt == 0 && new_collateral == 0 {
                                false
                            } else {
                                p.active
                            },
                        },
                    ),
                }
            },
        }
    }
}

impl RedeemCollateral {
    fn check_health_factor(&self, collateral: u64, debt: u64) -> (r: Result<(), ErrorCode>)
        ensures
            r == health_check_result(*self, collateral, debt),
    {
        if debt == 0 {
            return Ok(());
        }
        match check_price_age(&self.price_update, self.now, self.maximum_age) {
            Ok(()) => {},
            Err(e) => {
                return Err(e);
            },
        }
        let value = match calculate_collateral_value(collateral, self.price_update.price, self.price_update.exponent) {
            Ok(v) => v,
            Err(e) => {
                return Err(e);
            },
        };
        let health = match calculate_health_factor(value, debt, self.config.liquidation_ltv_bps) {
            Ok(h) => h,
            Err(e) => {
                return Err(e);
            },
        };
        if health < self.config.min_health_factor_bps {
            return Err(ErrorCode::HealthFactorTooLow);
        }
        Ok(())
    }

    /// Burns `stablecoin_to_burn` of the owner's debt tokens against the
    /// debt and withdraws `collateral_to_withdraw` collateral. Debt that
    /// remains must keep the minimum health factor; a position left with
    /// neither collateral nor debt is closed. On failure nothing changes.
    pub fn redeem_collateral_and_burn_tokens(&mut self, stablecoin_to_burn: u64, collateral_to_withdraw: u64) -> (r:
        Result<(), ErrorCode>)
        ensures
            final(self).owner == old(self).owner,
            final(self).config == old(self).config,
            final(self).user_balance == old(self).user_balance,
            final(self).vault_balance == old(self).vault_balance,
            final(self).price_update == old(self).price_update,
            final(self).now == old(self).now,
            final(self).maximum_age == old(self).maximum_age,
            match redeem_result(*old(self), stablecoin_to_burn, collateral_to_withdraw) {
                Ok(p) => r is Ok && final(self).position == p,
                Err(e) => r == Err::<(), ErrorCode>(e) && final(self).position == old(self).position,
            },
            r is Ok && old(self).position.wf() ==> final(self).position.wf(),
    {
        if self.config.paused {
            return Err(ErrorCode::SystemPaused);
        }
        if stablecoin_to_burn == 0 && collateral_to_withdraw == 0 {
            return Err(ErrorCode::InvalidAmount);
        }
        let p = self.position;
        let debt = match accrue_interest(
            p.debt_shares,
            self.config.borrow_rate_bps,
            p.last_update_timestamp,
            self.now,
        ) {
            Ok(d) => d,
            Err(e) => {
                return Err(e);
            },
        };
        if self.user_balance < stablecoin_to_burn {
            return Err(ErrorCode::InsufficientBalance);
        }
        if debt < stablecoin_to_burn {
            return Err(ErrorCode::MathOverflow);
        }
        let new_debt = debt - stablecoin_to_burn;
        if p.deposited_collateral < collateral_to_withdraw || self.vault_balance < collateral_to_withdraw {
            return Err(ErrorCode::InsufficientCollateral);
        }
        let new_collateral = p.deposited_collateral - collateral_to_withdraw;
        match self.check_health_factor(new_collateral, new_debt) {
            Ok(()) => {},
            Err(e) => {
                return Err(e);
            },
        }
        let active = if new_debt == 0 && new_collateral == 0 {
            false
        } else {
            p.active
        };
        self.position = Position {
            owner: p.owner,
            deposited_collateral: new_collateral,
            debt_shares: new_debt,
            last_update_timestamp: self.now,
            active,
        };
        Ok(())
    }
}

} // verus!
