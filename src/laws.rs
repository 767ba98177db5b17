//! Properties that hold across calls of the math and configuration functions.
use vstd::prelude::*;
use crate::admin::{merged_config, update_config_error, ConfigUpdate};
use crate::error::ErrorCode;
use crate::math::{accrue_interest_result, accrued_debt, health_factor_value, BPS_DENOMINATOR, SECONDS_PER_YEAR};
use crate::state::{Config, Pubkey};

verus! {

/// No time elapsed means no interest: accruing from `t` to `t` returns the
/// debt unchanged.
pub proof fn lemma_accrue_interest_no_elapsed_time(debt: u64, rate_bps: u16, t: i64)
    ensures
        accrue_interest_result(debt, rate_bps, t, t) == Ok::<u64, ErrorCode>(debt),
{
    assert((debt as int) * (rate_bps as int) * 0 == 0) by (nonlinear_arith);
}

/// For a fixed debt and rate, the accrued debt does not decrease as the end
/// of the period moves later.
pub proof fn lemma_accrued_debt_monotone(debt: u64, rate_bps: u16, t_prev: i64, t1: i64, t2: i64)
    requires
        t_prev <= t1 <= t2,
    ensures
        accrued_debt(debt as int, rate_bps as int, t_prev as int, t1 as int)
            <= accrued_debt(debt as int, rate_bps as int, t_prev as int, t2 as int),
{
    let dk: int = (debt as int) * (rate_bps as int);
    assert(dk * ((t1 as int) - (t_prev as int)) <= dk * ((t2 as int) - (t_prev as int))) by (nonlinear_arith)
        requires
            dk >= 0,
            t_prev <= t1 <= t2,
    ;
    vstd::arithmetic::div_mod::lemma_div_is_ordered(
        dk * ((t1 as int) - (t_prev as int)),
        dk * ((t2 as int) - (t_prev as int)),
        (BPS_DENOMINATOR as int) * (SECONDS_PER_YEAR as int),
    );
}

/// `accrue_interest` is non-decreasing in the elapsed time: whenever it
/// succeeds for a later time it succeeds for an earlier one too, with a
/// result no larger.
pub proof fn lemma_accrue_interest_monotone(debt: u64, rate_bps: u16, t_prev: i64, t1: i64, t2: i64)
    requires
        t_prev <= t1 <= t2,
        accrue_interest_result(debt, rate_bps, t_prev, t2) is Ok,
    ensures
        accrue_interest_result(debt, rate_bps, t_prev, t1) is Ok,
        accrue_interest_result(debt, rate_bps, t_prev, t1)->Ok_0 <= accrue_interest_result(
            debt,
            rate_bps,
            t_prev,
            t2,
        )->Ok_0,
{
    lemma_accrued_debt_monotone(debt, rate_bps, t_prev, t1, t2);
    let d = debt as int;
    let k = rate_bps as int;
    assert(d * k * ((t1 as int) - (t_prev as int)) >= 0) by (nonlinear_arith)
        requires
            d >= 0,
            k >= 0,
            t1 >= t_prev,
    ;
}

/// A position without debt is infinitely healthy, whatever its collateral.
pub proof fn lemma_health_factor_without_debt(collateral_value_usd: u64, liquidation_ltv_bps: u16)
    ensures
        health_factor_value(collateral_value_usd as int, 0, liquidation_ltv_bps as int) == u16::MAX,
{
}

/// A position with debt and worthless collateral has health factor zero.
pub proof fn lemma_health_factor_without_collateral(debt: u64, liquidation_ltv_bps: u16)
    requires
        debt > 0,
    ensures
        health_factor_value(0, debt as int, liquidation_ltv_bps as int) == 0,
{
    assert(0 * (liquidation_ltv_bps as int) == 0);
    vstd::arithmetic::div_mod::lemma_basic_div(0, debt as int);
}

/// An accepted update that touches either loan-to-value threshold leaves
/// the limit for borrowing strictly below the liquidation threshold, and an
/// accepted update keeps a well-formed configuration well-formed.
pub proof fn lemma_update_config_keeps_ltv_order(caller: Pubkey, c: Config, u: ConfigUpdate)
    requires
        update_config_error(caller, c, u) is None,
    ensures
        (u.max_ltv_bps is Some || u.liquidation_ltv_bps is Some) ==> merged_config(c, u).max_ltv_bps
            < merged_config(c, u).liquidation_ltv_bps,
        c.wf() ==> merged_config(c, u).wf(),
{
}

} // verus!
