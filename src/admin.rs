//! Creating and changing the risk parameters.
use vstd::prelude::*;
use crate::error::ErrorCode;
use crate::state::{
    Config, Pubkey, MAX_BORROW_RATE_BPS, MAX_BPS, MAX_LIQUIDATION_BONUS_BPS, MIN_HEALTH_FACTOR_CEILING_BPS,
    MIN_HEALTH_FACTOR_FLOOR_BPS,
};

verus! {

/// Whether `bps` is a usable loan-to-value threshold.
pub open spec fn valid_ltv_bps(bps: u16) -> bool {
    0 < bps <= MAX_BPS
}

/// The first rule that a new set of parameters breaks, if any.
pub open spec fn initialize_config_error(
    max_ltv_bps: u16,
    liquidation_ltv_bps: u16,
    liquidation_bonus_bps: u16,
    min_health_factor_bps: u16,
    borrow_rate_bps: u16,
    supply_cap: u64,
) -> Option<ErrorCode> {
    if !valid_ltv_bps(max_ltv_bps) || !valid_ltv_bps(liquidation_ltv_bps) {
        Some(ErrorCode::InvalidBps)
    } else if liquidation_ltv_bps <= max_ltv_bps {
        Some(ErrorCode::LiquidationLtvMustBeGreaterThanMaxLtv)
    } else if liquidation_bonus_bps > MAX_LIQUIDATION_BONUS_BPS {
        Some(ErrorCode::LiquidationBonusTooHigh)
    } else if min_health_factor_bps < MIN_HEALTH_FACTOR_FLOOR_BPS {
        Some(ErrorCode::MinHealthFactorTooLow)
    } else if min_health_factor_bps > MIN_HEALTH_FACTOR_CEILING_BPS {
        Some(ErrorCode::MinHealthFactorTooHigh)
    } else if borrow_rate_bps > MAX_BORROW_RATE_BPS {
        Some(ErrorCode::BorrowRateTooHigh)
    } else if supply_cap == 0 {
        Some(ErrorCode::InvalidSupplyCap)
    } else {
        None
    }
}

/// Validates a full set of risk parameters and makes the first, unpaused
/// configuration, administered by `authority`.
pub fn initialize_config(
    authority: Pubkey,
    max_ltv_bps: u16,
    liquidation_ltv_bps: u16,
    liquidation_bonus_bps: u16,
    min_health_factor_bps: u16,
    borrow_rate_bps: u16,
    supply_cap: u64,
) -> (r: Result<Config, ErrorCode>)
    ensures
        match initialize_config_error(
            max_ltv_bps,
            liquidation_ltv_bps,
            liquidation_bonus_bps,
            min_health_factor_bps,
            borrow_rate_bps,
            supply_cap,
        ) {
            Some(e) => r == Err::<Config, ErrorCode>(e),
            None => r is Ok,
        },
        r is Ok ==> {
            let c = r->Ok_0;
            &&& c.authority == authority
            &&& c.max_ltv_bps == max_ltv_bps
            &&& c.liquidation_ltv_bps == liquidation_ltv_bps
            &&& c.liquidation_bonus_bps == liquidation_bonus_bps
            &&& c.min_health_factor_bps == min_health_factor_bps
            &&& c.borrow_rate_bps == borrow_rate_bps
            &&& c.supply_cap == supply_cap
            &&& !c.paused
            &&& c.wf()
        },
{
    if !(max_ltv_bps > 0 && max_ltv_bps <= MAX_BPS) {
        return Err(ErrorCode::InvalidBps);
    }
    if !(liquidation_ltv_bps > 0 && liquidation_ltv_bps <= MAX_BPS) {
        return Err(ErrorCode::InvalidBps);
    }
    if liquidation_ltv_bps <= max_ltv_bps {
        return Err(ErrorCode::LiquidationLtvMustBeGreaterThanMaxLtv);
    }
    if liquidation_bonus_bps > MAX_LIQUIDATION_BONUS_BPS {
        return Err(ErrorCode::LiquidationBonusTooHigh);
    }
    if min_health_factor_bps < MIN_HEALTH_FACTOR_FLOOR_BPS {
        return Err(ErrorCode::MinHealthFactorTooLow);
    }
    if min_health_factor_bps > MIN_HEALTH_FACTOR_CEILING_BPS {
        return Err(ErrorCode::MinHealthFactorTooHigh);
    }
    if borrow_rate_bps > MAX_BORROW_RATE_BPS {
        return Err(ErrorCode::BorrowRateTooHigh);
    }
    if supply_cap == 0 {
        return Err(ErrorCode::InvalidSupplyCap);
    }
    Ok(Config {
        authority,
        max_ltv_bps,
        liquidation_ltv_bps,
        liquidation_bonus_bps,
        min_health_factor_bps,
        borrow_rate_bps,
        supply_cap,
        paused: false,
    })
}

/// The value a field takes after an update: the new one if given, else the
/// stored one.
pub open spec fn effective<T>(update: Option<T>, current: T) -> T {
    match update {
        Some(v) => v,
        None => current,
    }
}

/// A request to change some of the risk parameters.
#[derive(Clone, Copy, Debug)]
pub struct ConfigUpdate {
    pub max_ltv_bps: Option<u16>,
    pub liquidation_ltv_bps: Option<u16>,
    pub liquidation_bonus_bps: Option<u16>,
    pub min_health_factor_bps: Option<u16>,
    pub borrow_rate_bps: Option<u16>,
    pub supply_cap: Option<u64>,
    pub paused: Option<bool>,
}

/// The configuration after `u` is applied to `c`, each absent field kept.
pub open spec fn merged_config(c: Config, u: ConfigUpdate) -> Config {
    Config {
        authority: c.authority,
        max_ltv_bps: effective(u.max_ltv_bps, c.max_ltv_bps),
        liquidation_ltv_bps: effective(u.liquidation_ltv_bps, c.liquidation_ltv_bps),
        liquidation_bonus_bps: effective(u.liquidation_bonus_bps, c.liquidation_bonus_bps),
        min_health_factor_bps: effective(u.min_health_factor_bps, c.min_health_factor_bps),
        borrow_rate_bps: effective(u.borrow_rate_bps, c.borrow_rate_bps),
        supply_cap: effective(u.supply_cap, c.supply_cap),
        paused: effective(u.paused, c.paused),
    }
}

/// The first rule that applying `u` to `c` on behalf of `caller` breaks, if
/// any. The two loan-to-value thresholds are checked against each other as
/// they will stand after the update.
pub open spec fn update_config_error(caller: Pubkey, c: Config, u: ConfigUpdate) -> Option<ErrorCode> {
    let m = merged_config(c, u);
    if caller.bytes@ != c.authority.bytes@ {
        Some(ErrorCode::Unauthorized)
    } else if u.max_ltv_bps is Some && !valid_ltv_bps(m.max_ltv_bps) {
        Some(ErrorCode::InvalidBps)
    } else if u.max_ltv_bps is Some && m.max_ltv_bps >= m.liquidation_ltv_bps {
        Some(ErrorCode::MaxLtvMustBeLessThanLiquidationLtv)
    } else if u.liquidation_ltv_bps is Some && !valid_ltv_bps(m.liquidation_ltv_bps) {
        Some(ErrorCode::InvalidBps)
    } else if u.liquidation_ltv_bps is Some && m.liquidation_ltv_bps <= m.max_ltv_bps {
        Some(ErrorCode::LiquidationLtvMustBeGreaterThanMaxLtv)
    } else if u.liquidation_bonus_bps is Some && m.liquidation_bonus_bps > MAX_LIQUIDATION_BONUS_BPS {
        Some(ErrorCode::LiquidationBonusTooHigh)
    } else if u.min_health_factor_bps is Some && m.min_health_factor_bps < MIN_HEALTH_FACTOR_FLOOR_BPS {
        Some(ErrorCode::MinHealthFactorTooLow)
    } else if u.min_health_factor_bps is Some && m.min_health_factor_bps > MIN_HEALTH_FACTOR_CEILING_BPS {
        Some(ErrorCode::MinHealthFactorTooHigh)
    } else if u.borrow_rate_bps is Some && m.borrow_rate_bps > MAX_BORROW_RATE_BPS {
        Some(ErrorCode::BorrowRateTooHigh)
    } else if u.supply_cap is Some && m.supply_cap == 0 {
        Some(ErrorCode::InvalidSupplyCap)
    } else {
        None
    }
}

/// What the administrator's update works on: the signer and the stored
/// configuration.
pub struct UpdateConfig {
    pub authority: Pubkey,
    pub config: Config,
}

impl UpdateConfig {
    /// Applies every given field to the stored configuration, or changes
    /// nothing and reports the first rule broken.
    pub fn update_config(
        &mut self,
        max_ltv_bps: Option<u16>,
        liquidation_ltv_bps: Option<u16>,
        liquidation_bonus_bps: Option<u16>,
        min_health_factor_bps: Option<u16>,
        borrow_rate_bps: Option<u16>,
        supply_cap: Option<u64>,
        paused: Option<bool>,
    ) -> (r: Result<(), ErrorCode>)
        ensures
            final(self).authority == old(self).authority,
            ({
                let u = ConfigUpdate {
                    max_ltv_bps,
                    liquidation_ltv_bps,
                    liquidation_bonus_bps,
                    min_health_factor_bps,
                    borrow_rate_bps,
                    supply_cap,
                    paused,
                };
                match update_config_error(old(self).authority, old(self).config, u) {
                    Some(e) => r == Err::<(), ErrorCode>(e) && final(self).config == old(self).config,
                    None => r is Ok && final(self).config == merged_config(old(self).config, u),
                }
            }),
            r is Ok ==> final(self).config.max_ltv_bps < final(self).config.liquidation_ltv_bps
                || (max_ltv_bps is None && liquidation_ltv_bps is None),
            r is Ok && old(self).config.wf() ==> final(self).config.wf(),
    {
        if !self.authority.same_as(&self.config.authority) {
            return Err(ErrorCode::Unauthorized);
        }
        let current = self.config;
        let new_max = match max_ltv_bps {
            Some(v) => v,
            None => current.max_ltv_bps,
        };
        let new_liq = match liquidation_ltv_bps {
            Some(v) => v,
            None => current.liquidation_ltv_bps,
        };
        if max_ltv_bps.is_some() {
            if !(new_max > 0 && new_max <= MAX_BPS) {
                return Err(ErrorCode::InvalidBps);
            }
            if new_max >= new_liq {
                return Err(ErrorCode::MaxLtvMustBeLessThanLiquidationLtv);
            }
        }
        if liquidation_ltv_bps.is_some() {
            if !(new_liq > 0 && new_liq <= MAX_BPS) {
                return Err(ErrorCode::InvalidBps);
            }
            if new_liq <= new_max {
                return Err(ErrorCode::LiquidationLtvMustBeGreaterThanMaxLtv);
            }
        }
        let new_bonus = match liquidation_bonus_bps {
            Some(v) => v,
            None => current.liquidation_bonus_bps,
        };
        if liquidation_bonus_bps.is_some() && new_bonus > MAX_LIQUIDATION_BONUS_BPS {
            return Err(ErrorCode::LiquidationBonusTooHigh);
        }
        let new_min_health = match min_health_factor_bps {
            Some(v) => v,
            None => current.min_health_factor_bps,
        };
        if min_health_factor_bps.is_some() {
            if new_min_health < MIN_HEALTH_FACTOR_FLOOR_BPS {
                return Err(ErrorCode::MinHealthFactorTooLow);
            }
            if new_min_health > MIN_HEALTH_FACTOR_CEILING_BPS {
                return Err(ErrorCode::MinHealthFactorTooHigh);
            }
        }
        let new_rate = match borrow_rate_bps {
            Some(v) => v,
            None => current.borrow_rate_bps,
        };
        if borrow_rate_bps.is_some() && new_rate > MAX_BORROW_RATE_BPS {
            return Err(ErrorCode::BorrowRateTooHigh);
        }
        let new_cap = match supply_cap {
            Some(v) => v,
            None => current.supply_cap,
        };
        if supply_cap.is_some() && new_cap == 0 {
            return Err(ErrorCode::InvalidSupplyCap);
        }
        let new_paused = match paused {
            Some(v) => v,
            None => current.paused,
        };
        self.config = Config {
            authority: current.authority,
            max_ltv_bps: new_max,
            liquidation_ltv_bps: new_liq,
            liquidation_bonus_bps: new_bonus,
            min_health_factor_bps: new_min_health,
            borrow_rate_bps: new_rate,
            supply_cap: new_cap,
            paused: new_paused,
        };
        Ok(())
    }
}

} // verus!
