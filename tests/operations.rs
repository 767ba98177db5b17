use stablecoin::admin::{initialize_config, UpdateConfig};
use stablecoin::deposit::DepositCollateral;
use stablecoin::error::ErrorCode;
use stablecoin::liquidate::{Liquidate, LiquidationSettlement};
use stablecoin::redeem::RedeemCollateral;
use stablecoin::state::{check_price_age, Config, Position, PriceQuote, Pubkey};

const ADMIN: Pubkey = Pubkey { bytes: [7u8; 32] };
const USER: Pubkey = Pubkey { bytes: [9u8; 32] };
const NOW: i64 = 1_700_000_000;

fn config(cap: u64) -> Config {
    initialize_config(ADMIN, 7000, 8000, 500, 11000, 1000, cap).unwrap()
}

fn quote(price: i64, exponent: i32) -> PriceQuote {
    PriceQuote { price, exponent, publish_time: NOW }
}

fn deposit_ctx(cfg: Config, position: Position) -> DepositCollateral {
    DepositCollateral {
        owner: USER,
        config: cfg,
        position,
        mint_supply: 0,
        price_update: quote(100, 0),
        now: NOW,
        maximum_age: 60,
    }
}

fn position(collateral: u64, debt: u64) -> Position {
    Position {
        owner: USER,
        deposited_collateral: collateral,
        debt_shares: debt,
        last_update_timestamp: NOW,
        active: collateral > 0 || debt > 0,
    }
}

fn redeem_ctx(cfg: Config, position: Position) -> RedeemCollateral {
    RedeemCollateral {
        owner: USER,
        config: cfg,
        position,
        user_balance: u64::MAX,
        vault_balance: u64::MAX,
        price_update: quote(100, 0),
        now: NOW,
        maximum_age: 60,
    }
}

fn liquidate_ctx(cfg: Config, position: Position, price: i64) -> Liquidate {
    Liquidate {
        liquidator: ADMIN,
        config: cfg,
        position,
        liquidator_balance: 1_000_000,
        vault_balance: position.deposited_collateral,
        price_update: quote(price, 0),
        now: NOW,
        maximum_age: 60,
    }
}

fn same_position(a: &Position, b: &Position) -> bool {
    a.owner.bytes == b.owner.bytes
        && a.deposited_collateral == b.deposited_collateral
        && a.debt_shares == b.debt_shares
        && a.last_update_timestamp == b.last_update_timestamp
        && a.active == b.active
}

#[test]
fn initialize_accepts_valid_parameters() {
    let c = initialize_config(ADMIN, 7000, 8000, 500, 11000, 1000, 1_000_000).unwrap();
    assert_eq!(c.max_ltv_bps, 7000);
    assert_eq!(c.liquidation_ltv_bps, 8000);
    assert_eq!(c.liquidation_bonus_bps, 500);
    assert_eq!(c.min_health_factor_bps, 11000);
    assert_eq!(c.borrow_rate_bps, 1000);
    assert_eq!(c.supply_cap, 1_000_000);
    assert!(!c.paused);
    assert!(c.authority.same_as(&ADMIN));
}

#[test]
fn initialize_rejects_max_ltv_not_below_liquidation_ltv() {
    assert_eq!(
        initialize_config(ADMIN, 8000, 8000, 500, 11000, 1000, 1_000_000).err(),
        Some(ErrorCode::LiquidationLtvMustBeGreaterThanMaxLtv)
    );
}

#[test]
fn initialize_rejects_each_bad_field() {
    let e = |m, l, b, h, r, c| initialize_config(ADMIN, m, l, b, h, r, c).err();
    assert_eq!(e(0, 8000, 500, 11000, 1000, 1), Some(ErrorCode::InvalidBps));
    assert_eq!(e(7000, 10001, 500, 11000, 1000, 1), Some(ErrorCode::InvalidBps));
    assert_eq!(e(7000, 8000, 2001, 11000, 1000, 1), Some(ErrorCode::LiquidationBonusTooHigh));
    assert_eq!(e(7000, 8000, 500, 9999, 1000, 1), Some(ErrorCode::MinHealthFactorTooLow));
    assert_eq!(e(7000, 8000, 500, 20001, 1000, 1), Some(ErrorCode::MinHealthFactorTooHigh));
    assert_eq!(e(7000, 8000, 500, 11000, 5001, 1), Some(ErrorCode::BorrowRateTooHigh));
    assert_eq!(e(7000, 8000, 500, 11000, 1000, 0), Some(ErrorCode::InvalidSupplyCap));
    assert!(e(9999, 10000, 2000, 20000, 5000, 1).is_none());
}

#[test]
fn update_rejects_wrong_authority() {
    let mut u = UpdateConfig { authority: USER, config: config(10) };
    assert_eq!(u.update_config(None, None, None, None, None, None, Some(true)), Err(ErrorCode::Unauthorized));
    assert!(!u.config.paused);
}

#[test]
fn update_rejects_max_ltv_at_or_above_liquidation_ltv() {
    let mut u = UpdateConfig { authority: ADMIN, config: config(10) };
    assert_eq!(
        u.update_config(Some(8000), None, None, None, None, None, None),
        Err(ErrorCode::MaxLtvMustBeLessThanLiquidationLtv)
    );
    assert_eq!(
        u.update_config(None, Some(7000), None, None, None, None, None),
        Err(ErrorCode::LiquidationLtvMustBeGreaterThanMaxLtv)
    );
    // Raising max and lowering liquidation in one call cannot cross them.
    assert_eq!(
        u.update_config(Some(7500), Some(7200), None, None, None, None, None),
        Err(ErrorCode::MaxLtvMustBeLessThanLiquidationLtv)
    );
    assert_eq!(u.config.max_ltv_bps, 7000);
    assert_eq!(u.config.liquidation_ltv_bps, 8000);
}

#[test]
fn update_checks_thresholds_against_each_other_after_the_update() {
    let mut u = UpdateConfig { authority: ADMIN, config: config(10) };
    assert_eq!(u.update_config(Some(9000), Some(9500), None, None, None, None, None), Ok(()));
    assert_eq!(u.config.max_ltv_bps, 9000);
    assert_eq!(u.config.liquidation_ltv_bps, 9500);
}

#[test]
fn update_is_all_or_nothing() {
    let mut u = UpdateConfig { authority: ADMIN, config: config(10) };
    assert_eq!(
        u.update_config(None, None, Some(100), None, Some(6000), None, Some(true)),
        Err(ErrorCode::BorrowRateTooHigh)
    );
    assert_eq!(u.config.liquidation_bonus_bps, 500);
    assert!(!u.config.paused);
    assert_eq!(u.update_config(None, None, Some(100), Some(15000), Some(0), Some(99), Some(true)), Ok(()));
    assert_eq!(u.config.liquidation_bonus_bps, 100);
    assert_eq!(u.config.min_health_factor_bps, 15000);
    assert_eq!(u.config.borrow_rate_bps, 0);
    assert_eq!(u.config.supply_cap, 99);
    assert!(u.config.paused);
}

#[test]
fn update_rejects_each_bad_field() {
    let mut u = UpdateConfig { authority: ADMIN, config: config(10) };
    assert_eq!(u.update_config(Some(0), None, None, None, None, None, None), Err(ErrorCode::InvalidBps));
    assert_eq!(u.update_config(None, Some(10001), None, None, None, None, None), Err(ErrorCode::InvalidBps));
    assert_eq!(
        u.update_config(None, None, Some(2001), None, None, None, None),
        Err(ErrorCode::LiquidationBonusTooHigh)
    );
    assert_eq!(
        u.update_config(None, None, None, Some(9000), None, None, None),
        Err(ErrorCode::MinHealthFactorTooLow)
    );
    assert_eq!(
        u.update_config(None, None, None, Some(30000), None, None, None),
        Err(ErrorCode::MinHealthFactorTooHigh)
    );
    assert_eq!(u.update_config(None, None, None, None, None, Some(0), None), Err(ErrorCode::InvalidSupplyCap));
}

#[test]
fn deposit_up_to_max_ltv_succeeds() {
    let mut d = deposit_ctx(config(1_000_000_000), Position::new(USER));
    assert_eq!(d.deposit_collateral_and_mint_tokens(1_000_000, 70_000_000), Ok(()));
    assert_eq!(d.position.deposited_collateral, 1_000_000);
    assert_eq!(d.position.debt_shares, 70_000_000);
    assert_eq!(d.position.last_update_timestamp, NOW);
    assert!(d.position.active);
}

#[test]
fn deposit_past_max_ltv_fails() {
    let mut d = deposit_ctx(config(1_000_000_000), Position::new(USER));
    assert_eq!(d.deposit_collateral_and_mint_tokens(1_000_000, 70_000_001), Err(ErrorCode::ExceedsMaxLtv));
    assert!(same_position(&d.position, &Position::new(USER)));
}

#[test]
fn deposit_accrues_interest_on_active_position() {
    let mut p = position(1_000_000, 1_000_000);
    p.last_update_timestamp = NOW - 31_557_600;
    let mut d = deposit_ctx(config(1_000_000_000), p);
    assert_eq!(d.deposit_collateral_and_mint_tokens(1, 0), Ok(()));
    assert_eq!(d.position.debt_shares, 1_100_000);
    assert_eq!(d.position.deposited_collateral, 1_000_001);
}

#[test]
fn deposit_errors() {
    let cfg = config(1_000_000_000);
    let mut d = deposit_ctx(cfg, Position::new(USER));
    assert_eq!(d.deposit_collateral_and_mint_tokens(0, 0), Err(ErrorCode::InvalidAmount));

    let mut paused = cfg;
    paused.paused = true;
    let mut d = deposit_ctx(paused, Position::new(USER));
    assert_eq!(d.deposit_collateral_and_mint_tokens(1, 0), Err(ErrorCode::SystemPaused));

    let mut d = deposit_ctx(cfg, Position::new(USER));
    d.price_update.publish_time = NOW - 61;
    assert_eq!(d.deposit_collateral_and_mint_tokens(1, 0), Err(ErrorCode::PriceTooOld));

    let mut d = deposit_ctx(cfg, Position::new(USER));
    d.price_update.price = 0;
    assert_eq!(d.deposit_collateral_and_mint_tokens(1, 0), Err(ErrorCode::InvalidPrice));

    let mut d = deposit_ctx(config(100), Position::new(USER));
    d.mint_supply = 50;
    assert_eq!(d.deposit_collateral_and_mint_tokens(1_000_000, 51), Err(ErrorCode::SupplyCapExceeded));

    let mut d = deposit_ctx(cfg, position(u64::MAX, 0));
    assert_eq!(d.deposit_collateral_and_mint_tokens(1, 0), Err(ErrorCode::MathOverflow));

    let mut p = position(10, 1);
    p.last_update_timestamp = NOW + 5;
    let mut d = deposit_ctx(cfg, p);
    assert_eq!(d.deposit_collateral_and_mint_tokens(1, 0), Err(ErrorCode::InvalidTimestamp));
    assert!(same_position(&d.position, &p));

    // Within the LTV limit but under the minimum health factor of 15000:
    // 100_000_000 * 8000 / 70_000_000 = 11_428.
    let mut strict = cfg;
    strict.min_health_factor_bps = 15000;
    let mut d = deposit_ctx(strict, Position::new(USER));
    assert_eq!(d.deposit_collateral_and_mint_tokens(1_000_000, 70_000_000), Err(ErrorCode::HealthFactorTooLow));
    assert!(!d.position.active);
}

#[test]
fn redeem_burn_and_withdraw_all_closes_position() {
    let mut r = redeem_ctx(config(10), position(1_000, 500));
    assert_eq!(r.redeem_collateral_and_burn_tokens(500, 1_000), Ok(()));
    assert_eq!(r.position.debt_shares, 0);
    assert_eq!(r.position.deposited_collateral, 0);
    assert!(!r.position.active);
}

#[test]
fn redeem_partial_keeps_position_active() {
    let mut r = redeem_ctx(config(10), position(1_000, 500));
    assert_eq!(r.redeem_collateral_and_burn_tokens(100, 300), Ok(()));
    assert_eq!(r.position.debt_shares, 400);
    assert_eq!(r.position.deposited_collateral, 700);
    assert!(r.position.active);
}

#[test]
fn redeem_without_debt_skips_price() {
    let mut r = redeem_ctx(config(10), position(1_000, 0));
    r.price_update.publish_time = 0;
    assert_eq!(r.redeem_collateral_and_burn_tokens(0, 400), Ok(()));
    assert_eq!(r.position.deposited_collateral, 600);
}

#[test]
fn redeem_errors() {
    let cfg = config(10);
    let mut r = redeem_ctx(cfg, position(1_000, 500));
    assert_eq!(r.redeem_collateral_and_burn_tokens(0, 0), Err(ErrorCode::InvalidAmount));

    let mut paused = cfg;
    paused.paused = true;
    let mut r = redeem_ctx(paused, position(1_000, 500));
    assert_eq!(r.redeem_collateral_and_burn_tokens(1, 0), Err(ErrorCode::SystemPaused));

    let mut r = redeem_ctx(cfg, position(1_000, 500));
    r.user_balance = 10;
    assert_eq!(r.redeem_collateral_and_burn_tokens(11, 0), Err(ErrorCode::InsufficientBalance));

    let mut r = redeem_ctx(cfg, position(1_000, 500));
    assert_eq!(r.redeem_collateral_and_burn_tokens(501, 0), Err(ErrorCode::MathOverflow));

    let mut r = redeem_ctx(cfg, position(1_000, 500));
    assert_eq!(r.redeem_collateral_and_burn_tokens(0, 1_001), Err(ErrorCode::InsufficientCollateral));

    let mut r = redeem_ctx(cfg, position(1_000, 0));
    r.vault_balance = 5;
    assert_eq!(r.redeem_collateral_and_burn_tokens(0, 6), Err(ErrorCode::InsufficientCollateral));

    // 10 units worth 1000 against 500 of debt: health 1000 * 8000 / 500 = 16_000 >= 11_000,
    // after withdrawing 4 units: 600 * 8000 / 500 = 9_600 < 11_000.
    let mut r = redeem_ctx(cfg, position(10, 500));
    assert_eq!(r.redeem_collateral_and_burn_tokens(0, 4), Err(ErrorCode::HealthFactorTooLow));
    assert!(same_position(&r.position, &position(10, 500)));

    let mut r = redeem_ctx(cfg, position(10, 500));
    r.price_update.publish_time = NOW - 100;
    assert_eq!(r.redeem_collateral_and_burn_tokens(1, 0), Err(ErrorCode::PriceTooOld));

    let mut r = redeem_ctx(cfg, Position::new(USER));
    assert_eq!(r.redeem_collateral_and_burn_tokens(1, 0), Err(ErrorCode::MathOverflow));
}

#[test]
fn liquidation_at_threshold_succeeds() {
    let mut l = liquidate_ctx(config(10), position(100, 80), 1);
    let s = l.liquidate().unwrap();
    assert_eq!(
        s,
        LiquidationSettlement { debt_repaid: 80, collateral_seized: 84, collateral_returned: 16, ltv_bps: 8000 }
    );
    assert_eq!(l.position.debt_shares, 0);
    assert_eq!(l.position.deposited_collateral, 0);
    assert!(!l.position.active);
    assert_eq!(l.position.last_update_timestamp, NOW);
}

#[test]
fn liquidation_below_threshold_fails() {
    let mut l = liquidate_ctx(config(10), position(100, 79), 1);
    assert_eq!(l.liquidate(), Err(ErrorCode::PositionNotLiquidatable));
    assert!(same_position(&l.position, &position(100, 79)));
}

#[test]
fn liquidation_needs_all_collateral_in_the_vault() {
    let mut l = liquidate_ctx(config(10), position(100, 80), 1);
    l.vault_balance = 90;
    assert_eq!(l.liquidate(), Err(ErrorCode::InsufficientCollateral));
    assert!(same_position(&l.position, &position(100, 80)));
    l.vault_balance = 100;
    let s = l.liquidate().unwrap();
    assert_eq!(s.collateral_seized + s.collateral_returned, 100);
    assert_eq!(s.collateral_returned, 16);
}

#[test]
fn liquidation_of_worthless_collateral_fails() {
    let mut p = position(100, 80);
    p.deposited_collateral = 0;
    let mut l = liquidate_ctx(config(10), p, 1);
    assert_eq!(l.liquidate(), Err(ErrorCode::MathOverflow));
    assert!(same_position(&l.position, &p));
}

#[test]
fn liquidation_errors() {
    let cfg = config(10);
    let mut l = liquidate_ctx(cfg, Position::new(USER), 1);
    assert_eq!(l.liquidate(), Err(ErrorCode::PositionNotActive));

    let mut paused = cfg;
    paused.paused = true;
    let mut l = liquidate_ctx(paused, position(100, 80), 1);
    assert_eq!(l.liquidate(), Err(ErrorCode::SystemPaused));

    let mut l = liquidate_ctx(cfg, position(100, 80), 1);
    l.liquidator_balance = 79;
    assert_eq!(l.liquidate(), Err(ErrorCode::InsufficientBalance));

    let mut l = liquidate_ctx(cfg, position(100, 80), 1);
    l.vault_balance = 83;
    assert_eq!(l.liquidate(), Err(ErrorCode::InsufficientCollateral));

    let mut l = liquidate_ctx(cfg, position(100, 80), -1);
    assert_eq!(l.liquidate(), Err(ErrorCode::InvalidPrice));

    let mut l = liquidate_ctx(cfg, position(100, 80), 1);
    l.now = NOW + 3600;
    l.price_update.publish_time = NOW;
    assert_eq!(l.liquidate(), Err(ErrorCode::PriceTooOld));
    assert!(same_position(&l.position, &position(100, 80)));
}

#[test]
fn price_age_limit_is_inclusive() {
    let q = quote(1, 0);
    assert_eq!(check_price_age(&q, NOW + 60, 60), Ok(()));
    assert_eq!(check_price_age(&q, NOW + 61, 60), Err(ErrorCode::PriceTooOld));
}

#[test]
fn error_messages_are_distinct() {
    assert_eq!(ErrorCode::ExceedsMaxLtv.message(), "Exceeds maximum LTV ratio");
    assert_ne!(ErrorCode::InvalidBps.message(), ErrorCode::InvalidPrice.message());
}
