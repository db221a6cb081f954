use curve_amm::errors::CurveError;
use curve_amm::pricing::{
    buy_amount_for_spend, buy_price, buy_quote, price_at_supply, sell_price, SPEND_SUPPLY_CEILING,
    VIRTUAL_TOKEN_CAP,
};

#[test]
fn price_at_fresh_supply_is_fifty() {
    assert_eq!(price_at_supply(0, 1), Ok(50));
}

#[test]
fn price_after_small_buy_is_unchanged_at_unit_price() {
    assert_eq!(price_at_supply(1000, 1), Ok(50));
}

#[test]
fn price_scales_with_initial_price() {
    assert_eq!(price_at_supply(0, 2), Ok(100));
}

#[test]
fn price_at_zero_initial_price_is_zero() {
    assert_eq!(price_at_supply(123_456, 0), Ok(0));
}

#[test]
fn buy_price_on_fresh_curve_matches_formula() {
    // current_sol = 500_000_000; new_sol = 5e15 / 9_999_000 = 500_050_005;
    // base = 50_005; total = 50_005 * 10_050 / 10_000 = 50_255.
    assert_eq!(buy_price(0, 1000, 50, 1), Ok(50_255));
}

#[test]
fn buy_price_at_higher_supply_is_strictly_larger() {
    let first = buy_price(0, 1000, 50, 1).unwrap();
    let second = buy_price(1000, 1000, 50, 1).unwrap();
    assert_eq!(second, 100_520);
    assert!(second > first);
}

#[test]
fn buy_price_strictly_increases_with_amount() {
    let small = buy_price(5000, 999, 50, 1).unwrap();
    let large = buy_price(5000, 1000, 50, 1).unwrap();
    assert!(large > small);
}

#[test]
fn buy_price_past_capacity_fails() {
    assert_eq!(
        buy_price(VIRTUAL_TOKEN_CAP, 1, 50, 1),
        Err(CurveError::CapacityExceeded)
    );
    assert_eq!(
        buy_price(1, VIRTUAL_TOKEN_CAP, 50, 1),
        Err(CurveError::CapacityExceeded)
    );
}

#[test]
fn buy_price_at_exact_capacity_is_accepted() {
    assert!(buy_price(VIRTUAL_TOKEN_CAP - 1, 1, 50, 1).is_ok());
}

#[test]
fn buy_price_overflow_is_reported() {
    assert_eq!(
        buy_price(VIRTUAL_TOKEN_CAP - 1, 1, 50, u64::MAX),
        Err(CurveError::ArithmeticOverflow)
    );
}

#[test]
fn buy_quote_splits_fee_from_base() {
    let quote = buy_quote(0, 1000, 50, 1).unwrap();
    assert_eq!(quote.base, 50_005);
    assert_eq!(quote.total, 50_255);
}

#[test]
fn sell_price_matches_trapezoid_formula() {
    // Endpoint prices are both 50; raw = 100 * 1000 / 2 = 50_000;
    // fee = 50_000 * 50 / 10_000 = 250; net = 49_750.
    assert_eq!(sell_price(1000, 1000, 50, 1), Ok(49_750));
}

#[test]
fn sell_price_of_more_than_supply_is_zero() {
    assert_eq!(sell_price(500, 501, 50, 1), Ok(0));
}

#[test]
fn sell_price_with_zero_fee_keeps_raw_payout() {
    assert_eq!(sell_price(1000, 1000, 0, 1), Ok(50_000));
}

#[test]
fn sell_fee_above_ten_thousand_bps_clamps_to_zero() {
    assert_eq!(sell_price(1000, 1000, 20_000, 1), Ok(0));
}

#[test]
fn round_trip_never_profits_on_concrete_values() {
    // Sell at supply 2000, then buy the same amount back at supply 1000.
    let payout = sell_price(2000, 1000, 50, 1).unwrap();
    let cost = buy_price(1000, 1000, 50, 1).unwrap();
    assert!(payout <= cost);
}

#[test]
fn round_trip_never_profits_on_full_exit() {
    let payout = sell_price(1000, 1000, 50, 1).unwrap();
    let cost = buy_price(0, 1000, 50, 1).unwrap();
    assert!(payout <= cost);
}

#[test]
fn buy_amount_for_spend_inverts_the_buy_price() {
    // Spending the price of a 1000-token buy purchases 1000 tokens.
    assert_eq!(buy_amount_for_spend(0, 50_255, 50, 1), 1000);
}

#[test]
fn buy_amount_for_tiny_spend_is_zero() {
    assert_eq!(buy_amount_for_spend(0, 0, 50, 1), 0);
}

#[test]
fn buy_amount_is_zero_past_the_spend_ceiling() {
    assert_eq!(buy_amount_for_spend(SPEND_SUPPLY_CEILING + 5, 50_255, 50, 1), 0);
}
