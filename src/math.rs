//! Fixed-point valuation, borrowing limits, interest accrual, health factor
//! and the liquidation split.
use vstd::prelude::*;
use vstd::arithmetic::div_mod::{lemma_div_denominator, lemma_basic_div, lemma_fundamental_div_mod};
use crate::error::ErrorCode;

verus! {

/// Basis points in one whole (100%).
pub const BPS_DENOMINATOR: u64 = 10000;

/// Length of a Julian year in seconds, the period of `borrow_rate_bps`.
pub const SECONDS_PER_YEAR: u64 = 31_557_600;

/// `10^n`.
pub open spec fn pow10(n: nat) -> nat
    decreases n,
{
    if n == 0 {
        1
    } else {
        10 * pow10((n - 1) as nat)
    }
}

/// `amount * price` scaled by `10^exponent`, rounded down.
pub open spec fn scaled_value(amount: int, price: int, exponent: int) -> int {
    if exponent < 0 {
        (amount * price) / (pow10((-exponent) as nat) as int)
    } else {
        amount * price * (pow10(exponent as nat) as int)
    }
}

/// What `calculate_collateral_value` returns.
pub open spec fn collateral_value_result(amount: u64, price: i64, exponent: i32) -> Result<u64, ErrorCode> {
    if price <= 0 {
        Err(ErrorCode::InvalidPrice)
    } else if scaled_value(amount as int, price as int, exponent as int) <= u64::MAX {
        Ok(scaled_value(amount as int, price as int, exponent as int) as u64)
    } else {
        Err(ErrorCode::MathOverflow)
    }
}

pub proof fn lemma_pow10_positive(n: nat)
    ensures
        pow10(n) >= 1,
    decreases n,
{
    if n > 0 {
        lemma_pow10_positive((n - 1) as nat);
    }
}

pub proof fn lemma_pow10_monotone(m: nat, n: nat)
    requires
        m <= n,
    ensures
        pow10(m) <= pow10(n),
    decreases n - m,
{
    if m < n {
        lemma_pow10_monotone(m, (n - 1) as nat);
        lemma_pow10_positive((n - 1) as nat);
    }
}

/// Dividing by ten once more divides by the next power of ten.
proof fn lemma_div_pow10_step(x: int, i: nat)
    requires
        x >= 0,
    ensures
        (x / (pow10(i) as int)) / 10 == x / (pow10(i + 1) as int),
{
    lemma_pow10_positive(i);
    lemma_div_denominator(x, pow10(i) as int, 10);
    assert(pow10(i + 1) == 10 * pow10(i));
    assert((pow10(i) as int) * 10 == pow10(i + 1) as int);
}

/// Once a quotient by a power of ten is zero, it stays zero for higher powers.
proof fn lemma_div_pow10_zero(x: int, i: nat, n: nat)
    requires
        x >= 0,
        i <= n,
        x / (pow10(i) as int) == 0,
    ensures
        x / (pow10(n) as int) == 0,
{
    lemma_pow10_positive(i);
    lemma_pow10_monotone(i, n);
    lemma_fundamental_div_mod(x, pow10(i) as int);
    assert(x < pow10(i)) by (nonlinear_arith)
        requires
            x == (pow10(i) as int) * (x / (pow10(i) as int)) + x % (pow10(i) as int),
            x / (pow10(i) as int) == 0,
            x % (pow10(i) as int) < pow10(i),
    ;
    lemma_basic_div(x, pow10(n) as int);
}

/// A larger power of ten gives a product at least as large.
proof fn lemma_mul_pow10_monotone(x: int, m: nat, n: nat)
    requires
        x >= 0,
        m <= n,
    ensures
        x * (pow10(m) as int) <= x * (pow10(n) as int),
{
    lemma_pow10_monotone(m, n);
    assert(x * (pow10(m) as int) <= x * (pow10(n) as int)) by (nonlinear_arith)
        requires
            x >= 0,
            pow10(m) <= pow10(n),
    ;
}

/// Value of `collateral_amount` units at the oracle price `price * 10^exponent`,
/// in the debt token's units, rounded down.
pub fn calculate_collateral_value(collateral_amount: u64, price: i64, exponent: i32) -> (r: Result<u64, ErrorCode>)
    ensures
        r == collateral_value_result(collateral_amount, price, exponent),
        r is Ok ==> r->Ok_0 as int == scaled_value(collateral_amount as int, price as int, exponent as int),
{
    if price <= 0 {
        return Err(ErrorCode::InvalidPrice);
    }
    assert((collateral_amount as int) * (price as int) <= (u64::MAX as int) * (i64::MAX as int)) by (nonlinear_arith)
        requires
            0 < price <= i64::MAX,
    ;
    let raw: u128 = collateral_amount as u128 * price as u128;
    let ghost x: int = raw as int;
    assert(x == (collateral_amount as int) * (price as int));
    if exponent < 0 {
        let steps: u32 = (0i64 - exponent as i64) as u32;
        let mut v: u128 = raw;
        let mut i: u32 = 0;
        proof {
            assert(pow10(0) == 1);
        }
        while i < steps && v != 0
            invariant
                x >= 0,
                x == (collateral_amount as int) * (price as int),
                price > 0,
                i <= steps,
                steps == -exponent,
                v == x / (pow10(i as nat) as int),
            decreases steps - i,
        {
            proof {
                lemma_div_pow10_step(x, i as nat);
            }
            v = v / 10;
            i = i + 1;
        }
        proof {
            if v == 0 {
                lemma_div_pow10_zero(x, i as nat, steps as nat);
            }
            assert(scaled_value(collateral_amount as int, price as int, exponent as int) == v);
        }
        if v > u64::MAX as u128 {
            return Err(ErrorCode::MathOverflow);
        }
        Ok(v as u64)
    } else {
        let steps: u32 = exponent as u32;
        let mut v: u128 = raw;
        let mut i: u32 = 0;
        proof {
            assert(pow10(0) == 1);
        }
        if v > u64::MAX as u128 {
            proof {
                lemma_mul_pow10_monotone(x, 0, steps as nat);
            }
            return Err(ErrorCode::MathOverflow);
        }
        while i < steps && v != 0
            invariant
                x >= 0,
                x == (collateral_amount as int) * (price as int),
                price > 0,
                i <= steps,
                steps == exponent,
                v == x * (pow10(i as nat) as int),
                v <= u64::MAX,
            decreases steps - i,
        {
            let next: u128 = v * 10;
            proof {
                assert(pow10((i + 1) as nat) == 10 * pow10(i as nat));
                assert(next == x * (pow10((i + 1) as nat) as int)) by (nonlinear_arith)
                    requires
                        next == 10 * v,
                        v == x * (pow10(i as nat) as int),
                        pow10((i + 1) as nat) == 10 * pow10(i as nat),
                ;
            }
            if next > u64::MAX as u128 {
                proof {
                    lemma_mul_pow10_monotone(x, (i + 1) as nat, steps as nat);
                    assert(scaled_value(collateral_amount as int, price as int, exponent as int)
                        == x * (pow10(steps as nat) as int));
                    assert(x * (pow10(steps as nat) as int) > u64::MAX);
                }
                return Err(ErrorCode::MathOverflow);
            }
            v = next;
            i = i + 1;
        }
        proof {
            if v == 0 {
                lemma_pow10_positive(i as nat);
                assert(x == 0) by (nonlinear_arith)
                    requires
                        x >= 0,
                        pow10(i as nat) >= 1,
                        x * (pow10(i as nat) as int) == 0,
                ;
                assert(x * (pow10(steps as nat) as int) == 0) by (nonlinear_arith)
                    requires
                        x == 0,
                ;
            }
        }
        Ok(v as u64)
    }
}


/// `value * ltv_bps / 10000`, rounded down.
pub open spec fn max_borrowable_value(collateral_value_usd: int, max_ltv_bps: int) -> int {
    (collateral_value_usd * max_ltv_bps) / (BPS_DENOMINATOR as int)
}

/// What `calculate_max_borrowable_amount` returns.
pub open spec fn max_borrowable_result(collateral_value_usd: u64, max_ltv_bps: u16) -> Result<u64, ErrorCode> {
    if max_borrowable_value(collateral_value_usd as int, max_ltv_bps as int) <= u64::MAX {
        Ok(max_borrowable_value(collateral_value_usd as int, max_ltv_bps as int) as u64)
    } else {
        Err(ErrorCode::MathOverflow)
    }
}

/// Largest debt that a collateral value allows at the given loan-to-value limit.
pub fn calculate_max_borrowable_amount(collateral_value_usd: u64, max_ltv_bps: u16) -> (r: Result<u64, ErrorCode>)
    ensures
        r == max_borrowable_result(collateral_value_usd, max_ltv_bps),
        max_ltv_bps <= BPS_DENOMINATOR ==> r is Ok,
{
    assert((collateral_value_usd as int) * (max_ltv_bps as int) <= (u64::MAX as int) * (u16::MAX as int)) by (nonlinear_arith);
    let product: u128 = collateral_value_usd as u128 * max_ltv_bps as u128;
    let limit: u128 = product / (BPS_DENOMINATOR as u128);
    proof {
        if max_ltv_bps <= BPS_DENOMINATOR {
            let v: int = collateral_value_usd as int;
            assert(product <= v * 10000) by (nonlinear_arith)
                requires
                    product == v * (max_ltv_bps as int),
                    max_ltv_bps <= 10000,
                    v >= 0,
            ;
            vstd::arithmetic::div_mod::lemma_div_is_ordered(product as int, v * 10000, 10000);
            vstd::arithmetic::div_mod::lemma_div_by_multiple(v, 10000);
        }
    }
    if limit > u64::MAX as u128 {
        return Err(ErrorCode::MathOverflow);
    }
    Ok(limit as u64)
}

/// `BPS_DENOMINATOR * SECONDS_PER_YEAR`: the divisor of simple interest.
pub const INTEREST_DIVISOR: u128 = 315_576_000_000;

/// Debt after simple interest at `rate_bps` a year from `t_prev` to `t_now`,
/// the interest rounded down.
pub open spec fn accrued_debt(debt: int, rate_bps: int, t_prev: int, t_now: int) -> int {
    debt + (debt * rate_bps * (t_now - t_prev)) / ((BPS_DENOMINATOR as int) * (SECONDS_PER_YEAR as int))
}

/// What `accrue_interest` returns.
pub open spec fn accrue_interest_result(debt: u64, rate_bps: u16, t_prev: i64, t_now: i64) -> Result<u64, ErrorCode> {
    if debt == 0 {
        Ok(0)
    } else if t_now < t_prev {
        Err(ErrorCode::InvalidTimestamp)
    } else if accrued_debt(debt as int, rate_bps as int, t_prev as int, t_now as int) <= u64::MAX {
        Ok(accrued_debt(debt as int, rate_bps as int, t_prev as int, t_now as int) as u64)
    } else {
        Err(ErrorCode::MathOverflow)
    }
}

/// Adds to `current_debt` the simple interest owed for the time from
/// `last_update_timestamp` to `current_timestamp`.
pub fn accrue_interest(
    current_debt: u64,
    borrow_rate_bps: u16,
    last_update_timestamp: i64,
    current_timestamp: i64,
) -> (r: Result<u64, ErrorCode>)
    ensures
        r == accrue_interest_result(current_debt, borrow_rate_bps, last_update_timestamp, current_timestamp),
{
    assert(INTEREST_DIVISOR == (BPS_DENOMINATOR as int) * (SECONDS_PER_YEAR as int));
    if current_debt == 0 {
        return Ok(0);
    }
    if current_timestamp < last_update_timestamp {
        return Err(ErrorCode::InvalidTimestamp);
    }
    let elapsed: u128 = (current_timestamp as i128 - last_update_timestamp as i128) as u128;
    let ghost d: int = current_debt as int;
    let ghost k: int = borrow_rate_bps as int;
    let ghost e: int = elapsed as int;
    assert(d * k <= (u64::MAX as int) * (u16::MAX as int)) by (nonlinear_arith)
        requires
            0 <= d <= u64::MAX,
            0 <= k <= u16::MAX,
    ;
    let debt_rate: u128 = current_debt as u128 * borrow_rate_bps as u128;
    if debt_rate == 0 || elapsed == 0 {
        assert(d * k * e == 0) by (nonlinear_arith)
            requires
                d * k == 0 || e == 0,
        ;
        return Ok(current_debt);
    }
    if elapsed > u128::MAX / debt_rate {
        proof {
            let m: int = u128::MAX as int;
            let dr: int = debt_rate as int;
            lemma_fundamental_div_mod(m, dr);
            assert(dr * e > m) by (nonlinear_arith)
                requires
                    dr > 0,
                    e > m / dr,
                    m == dr * (m / dr) + m % dr,
                    m % dr < dr,
            ;
            assert(d * k * e == dr * e);
            vstd::arithmetic::div_mod::lemma_div_is_ordered(m + 1, d * k * e, INTEREST_DIVISOR as int);
            let q: int = u64::MAX as int + 1;
            assert(q * (INTEREST_DIVISOR as int) <= m + 1);
            vstd::arithmetic::div_mod::lemma_div_is_ordered(q * (INTEREST_DIVISOR as int), m + 1, INTEREST_DIVISOR as int);
            vstd::arithmetic::div_mod::lemma_div_by_multiple(q, INTEREST_DIVISOR as int);
        }
        return Err(ErrorCode::MathOverflow);
    }
    assert(debt_rate * elapsed <= u128::MAX) by (nonlinear_arith)
        requires
            debt_rate > 0,
            elapsed <= u128::MAX / debt_rate,
    ;
    let interest: u128 = (debt_rate * elapsed) / INTEREST_DIVISOR;
    if interest > (u64::MAX - current_debt) as u128 {
        return Err(ErrorCode::MathOverflow);
    }
    Ok(current_debt + interest as u64)
}

/// `collateral_value * liquidation_ltv_bps / debt`, capped at `u16::MAX`;
/// `u16::MAX` when there is no debt.
pub open spec fn health_factor_value(collateral_value_usd: int, debt: int, liquidation_ltv_bps: int) -> int {
    if debt == 0 {
        u16::MAX as int
    } else if (collateral_value_usd * liquidation_ltv_bps) / debt > u16::MAX {
        u16::MAX as int
    } else {
        (collateral_value_usd * liquidation_ltv_bps) / debt
    }
}

/// Health factor of a position, in basis points.
pub fn calculate_health_factor(collateral_value_usd: u64, debt: u64, liquidation_ltv_bps: u16) -> (r: Result<u16, ErrorCode>)
    ensures
        r is Ok,
        r->Ok_0 == health_factor_value(collateral_value_usd as int, debt as int, liquidation_ltv_bps as int),
{
    if debt == 0 {
        return Ok(u16::MAX);
    }
    assert((collateral_value_usd as int) * (liquidation_ltv_bps as int) <= (u64::MAX as int) * (u16::MAX as int)) by (nonlinear_arith);
    let numerator: u128 = collateral_value_usd as u128 * liquidation_ltv_bps as u128;
    let health: u128 = numerator / debt as u128;
    if health > u16::MAX as u128 {
        Ok(u16::MAX)
    } else {
        Ok(health as u16)
    }
}

/// `debt * 10000 / collateral_value`, capped at `u16::MAX`; `u16::MAX` when
/// the collateral is worth nothing.
pub open spec fn ltv_value(debt: int, collateral_value_usd: int) -> int {
    if collateral_value_usd == 0 {
        u16::MAX as int
    } else if (debt * (BPS_DENOMINATOR as int)) / collateral_value_usd > u16::MAX {
        u16::MAX as int
    } else {
        (debt * (BPS_DENOMINATOR as int)) / collateral_value_usd
    }
}

/// Current loan-to-value ratio of a debt against a collateral value, in basis points.
pub fn compute_ltv(debt: u64, collateral_value_usd: u64) -> (r: u16)
    ensures
        r == ltv_value(debt as int, collateral_value_usd as int),
{
    if collateral_value_usd == 0 {
        return u16::MAX;
    }
    assert((debt as int) * 10000 <= (u64::MAX as int) * 10000) by (nonlinear_arith);
    let scaled: u128 = debt as u128 * BPS_DENOMINATOR as u128;
    let ltv: u128 = scaled / collateral_value_usd as u128;
    if ltv > u16::MAX as u128 {
        u16::MAX
    } else {
        ltv as u16
    }
}

/// The debt grown by the liquidation bonus, rounded down.
pub open spec fn debt_with_bonus(debt: int, liquidation_bonus_bps: int) -> int {
    (debt * ((BPS_DENOMINATOR as int) + liquidation_bonus_bps)) / (BPS_DENOMINATOR as int)
}

/// Collateral a liquidator takes: the debt with bonus converted into
/// collateral units at the collateral's own price, never more than all of
/// it. Meaningful only for a positive collateral value.
pub open spec fn seize_amount(debt: int, collateral_amount: int, liquidation_bonus_bps: int, collateral_value_usd: int) -> int {
    if (debt_with_bonus(debt, liquidation_bonus_bps) * collateral_amount) / collateral_value_usd < collateral_amount {
        (debt_with_bonus(debt, liquidation_bonus_bps) * collateral_amount) / collateral_value_usd
    } else {
        collateral_amount
    }
}

/// What `calculate_liquidation_amounts` returns.
pub open spec fn liquidation_amounts_result(
    debt: u64,
    collateral_amount: u64,
    liquidation_bonus_bps: u16,
    price: i64,
    exponent: i32,
) -> Result<(u64, u64), ErrorCode> {
    match collateral_value_result(collateral_amount, price, exponent) {
        Err(e) => Err(e),
        Ok(value) => if (BPS_DENOMINATOR as int) + liquidation_bonus_bps > u16::MAX {
            Err(ErrorCode::MathOverflow)
        } else if value == 0 {
            Err(ErrorCode::MathOverflow)
        } else {
            let seize = seize_amount(debt as int, collateral_amount as int, liquidation_bonus_bps as int, value as int);
            Ok((seize as u64, (collateral_amount - seize) as u64))
        },
    }
}

/// Splits a position's collateral into what a liquidator seizes and what
/// goes back to the owner.
pub fn calculate_liquidation_amounts(
    debt: u64,
    collateral_amount: u64,
    liquidation_bonus_bps: u16,
    collateral_price: i64,
    price_exponent: i32,
) -> (r: Result<(u64, u64), ErrorCode>)
    ensures
        r == liquidation_amounts_result(debt, collateral_amount, liquidation_bonus_bps, collateral_price, price_exponent),
        r is Ok ==> r->Ok_0.0 + r->Ok_0.1 == collateral_amount,
{
    let collateral_value = match calculate_collateral_value(collateral_amount, collateral_price, price_exponent) {
        Ok(v) => v,
        Err(e) => {
            return Err(e);
        },
    };
    if liquidation_bonus_bps > u16::MAX - (BPS_DENOMINATOR as u16) {
        return Err(ErrorCode::MathOverflow);
    }
    let ghost dwb: int = debt_with_bonus(debt as int, liquidation_bonus_bps as int);
    let ghost a: int = collateral_amount as int;
    let multiplier: u128 = (BPS_DENOMINATOR as u16 + liquidation_bonus_bps) as u128;
    assert((debt as int) * (multiplier as int) <= (u64::MAX as int) * (u16::MAX as int)) by (nonlinear_arith)
        requires
            0 <= multiplier <= u16::MAX,
    ;
    let with_bonus: u128 = (debt as u128 * multiplier) / (BPS_DENOMINATOR as u128);
    assert(with_bonus == dwb);
    if collateral_value == 0 {
        return Err(ErrorCode::MathOverflow);
    }
    let seize: u64 = if with_bonus >= collateral_value as u128 {
        proof {
            let cv: int = collateral_value as int;
            assert(dwb * a >= cv * a) by (nonlinear_arith)
                requires
                    dwb >= cv,
                    a >= 0,
            ;
            vstd::arithmetic::div_mod::lemma_div_is_ordered(cv * a, dwb * a, cv);
            vstd::arithmetic::div_mod::lemma_div_by_multiple(a, cv);
            assert((cv * a) / cv == a) by (nonlinear_arith)
                requires
                    (a * cv) / cv == a,
            ;
        }
        collateral_amount
    } else {
        assert(with_bonus * collateral_amount <= u128::MAX) by (nonlinear_arith)
            requires
                with_bonus < collateral_value,
                collateral_value <= u64::MAX,
                collateral_amount <= u64::MAX,
        ;
        let share: u128 = (with_bonus * collateral_amount as u128) / collateral_value as u128;
        proof {
            let cv: int = collateral_value as int;
            assert(share * cv <= dwb * a) by (nonlinear_arith)
                requires
                    cv > 0,
                    share == (dwb * a) / cv,
            ;
            assert(share <= a) by (nonlinear_arith)
                requires
                    cv > 0,
                    dwb < cv,
                    a >= 0,
                    share >= 0,
                    share * cv <= dwb * a,
            ;
        }
        if share < collateral_amount as u128 {
            share as u64
        } else {
            collateral_amount
        }
    };
    Ok((seize, collateral_amount - seize))
}
} // verus!
