use stablecoin::error::ErrorCode;
use stablecoin::math::{
    accrue_interest, calculate_collateral_value, calculate_health_factor, calculate_liquidation_amounts,
    calculate_max_borrowable_amount, compute_ltv,
};

#[test]
fn collateral_value_at_unit_exponent() {
    assert_eq!(calculate_collateral_value(1_000_000, 100, 0), Ok(100_000_000));
}

#[test]
fn collateral_value_negative_exponent_rounds_down() {
    assert_eq!(calculate_collateral_value(1_234, 5, -2), Ok(61));
    assert_eq!(calculate_collateral_value(1_000_000_000, 15_000_000_000, -8), Ok(150_000_000_000));
}

#[test]
fn collateral_value_very_negative_exponent_is_zero() {
    assert_eq!(calculate_collateral_value(u64::MAX, i64::MAX, -50), Ok(0));
    assert_eq!(calculate_collateral_value(u64::MAX, i64::MAX, i32::MIN), Ok(0));
}

#[test]
fn collateral_value_positive_exponent() {
    assert_eq!(calculate_collateral_value(7, 3, 4), Ok(210_000));
}

#[test]
fn collateral_value_overflow() {
    assert_eq!(calculate_collateral_value(u64::MAX, 2, 0), Err(ErrorCode::MathOverflow));
    assert_eq!(calculate_collateral_value(1, 1, 20), Err(ErrorCode::MathOverflow));
    assert_eq!(calculate_collateral_value(1, 1, 19), Ok(10_000_000_000_000_000_000));
    assert_eq!(calculate_collateral_value(u64::MAX, i64::MAX, -1), Err(ErrorCode::MathOverflow));
}

#[test]
fn collateral_value_zero_amount() {
    assert_eq!(calculate_collateral_value(0, 5, i32::MAX), Ok(0));
}

#[test]
fn collateral_value_rejects_non_positive_price() {
    assert_eq!(calculate_collateral_value(10, 0, 0), Err(ErrorCode::InvalidPrice));
    assert_eq!(calculate_collateral_value(10, -3, 0), Err(ErrorCode::InvalidPrice));
}

#[test]
fn max_borrowable_is_floor_of_share() {
    assert_eq!(calculate_max_borrowable_amount(100_000_000, 7000), Ok(70_000_000));
    assert_eq!(calculate_max_borrowable_amount(3, 7000), Ok(2));
    assert_eq!(calculate_max_borrowable_amount(u64::MAX, 10000), Ok(u64::MAX));
    assert_eq!(calculate_max_borrowable_amount(u64::MAX, 10001), Err(ErrorCode::MathOverflow));
}

#[test]
fn accrue_one_year_at_ten_percent() {
    assert_eq!(accrue_interest(1_000_000, 1000, 0, 31_557_600), Ok(1_100_000));
}

#[test]
fn accrue_zero_elapsed_keeps_debt() {
    assert_eq!(accrue_interest(5_000, 5000, 1_700_000_000, 1_700_000_000), Ok(5_000));
    assert_eq!(accrue_interest(u64::MAX, u16::MAX, -7, -7), Ok(u64::MAX));
}

#[test]
fn accrue_zero_debt_is_zero() {
    assert_eq!(accrue_interest(0, 1000, 100, 50), Ok(0));
}

#[test]
fn accrue_rounds_interest_down() {
    // 1000 * 1000 * 1000 / 315_576_000_000 is below one.
    assert_eq!(accrue_interest(1000, 1000, 0, 1000), Ok(1000));
    // Half a year on 2_000_000 at 5%: 50_000.
    assert_eq!(accrue_interest(2_000_000, 500, 0, 15_778_800), Ok(2_050_000));
}

#[test]
fn accrue_is_non_decreasing_in_time() {
    let mut last = 0u64;
    for t in [0i64, 1, 1000, 31_557_600, 63_115_200, 1_000_000_000] {
        let d = accrue_interest(123_456_789, 2500, 0, t).unwrap();
        assert!(d >= last);
        last = d;
    }
}

#[test]
fn accrue_rejects_time_going_back() {
    assert_eq!(accrue_interest(10, 1000, 100, 99), Err(ErrorCode::InvalidTimestamp));
}

#[test]
fn accrue_overflow() {
    assert_eq!(accrue_interest(u64::MAX, 1000, 0, 31_557_600), Err(ErrorCode::MathOverflow));
    assert_eq!(accrue_interest(u64::MAX, u16::MAX, i64::MIN, i64::MAX), Err(ErrorCode::MathOverflow));
}

#[test]
fn health_factor_without_debt_is_max() {
    assert_eq!(calculate_health_factor(0, 0, 8000), Ok(u16::MAX));
    assert_eq!(calculate_health_factor(12345, 0, 0), Ok(u16::MAX));
}

#[test]
fn health_factor_without_collateral_is_zero() {
    assert_eq!(calculate_health_factor(0, 1, 8000), Ok(0));
}

#[test]
fn health_factor_formula_and_cap() {
    assert_eq!(calculate_health_factor(100_000_000, 70_000_000, 8000), Ok(11_428));
    assert_eq!(calculate_health_factor(u64::MAX, 1, 8000), Ok(u16::MAX));
}

#[test]
fn ltv_formula_and_cap() {
    assert_eq!(compute_ltv(80, 100), 8000);
    assert_eq!(compute_ltv(1, 3), 3333);
    assert_eq!(compute_ltv(10, 0), u16::MAX);
    assert_eq!(compute_ltv(u64::MAX, 1), u16::MAX);
}

#[test]
fn liquidation_split_with_bonus() {
    // Debt 80 grows to 84 with a 5% bonus; the collateral is worth 100 for 100 units.
    assert_eq!(calculate_liquidation_amounts(80, 100, 500, 1, 0), Ok((84, 16)));
}

#[test]
fn liquidation_split_never_seizes_more_than_all() {
    assert_eq!(calculate_liquidation_amounts(1000, 100, 500, 1, 0), Ok((100, 0)));
    assert_eq!(calculate_liquidation_amounts(u64::MAX, u64::MAX, 2000, 1, 0), Ok((u64::MAX, 0)));
}

#[test]
fn liquidation_split_of_worthless_collateral_fails() {
    assert_eq!(calculate_liquidation_amounts(50, 7, 0, 1, -3), Err(ErrorCode::MathOverflow));
    assert_eq!(calculate_liquidation_amounts(80, 0, 500, 1, 0), Err(ErrorCode::MathOverflow));
}

#[test]
fn liquidation_split_conserves_collateral() {
    for (debt, amount, bonus, price, exp) in
        [(1u64, 1_000u64, 0u16, 3i64, 0i32), (999, 12_345, 1500, 7, -1), (5, 1_000_000, 2000, 100, 2)]
    {
        let (seize, remaining) = calculate_liquidation_amounts(debt, amount, bonus, price, exp).unwrap();
        assert_eq!(seize + remaining, amount);
    }
}

#[test]
fn liquidation_split_errors() {
    assert_eq!(calculate_liquidation_amounts(1, 1, 0, 0, 0), Err(ErrorCode::InvalidPrice));
    assert_eq!(calculate_liquidation_amounts(1, 1, 55_536, 1, 0), Err(ErrorCode::MathOverflow));
}
