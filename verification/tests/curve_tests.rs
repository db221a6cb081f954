use curve_amm::curve::{BondingCurve, CurveStatus, PaymentMode};
use curve_amm::errors::CurveError;
use curve_amm::pricing::VIRTUAL_TOKEN_CAP;

fn fresh_curve() -> BondingCurve {
    BondingCurve::activate(7, 99, 3, 1)
}

#[test]
fn activation_fixes_fees_and_zeroes_state() {
    let curve = fresh_curve();
    assert_eq!(curve.token_id, 7);
    assert_eq!(curve.fee_collector, 99);
    assert_eq!(curve.status, CurveStatus::Active);
    assert_eq!(curve.buy_fee_bps, 50);
    assert_eq!(curve.sell_fee_bps, 50);
    assert_eq!(curve.purchase_market_supply, 0);
    assert_eq!(curve.lifetime_fees_collected, 0);
    assert_eq!(curve.reserve_ratio, 3);
    assert_eq!(curve.initial_price, 1);
}

#[test]
fn buy_on_fresh_curve_charges_the_formula_price() {
    let mut curve = fresh_curve();
    let receipt = curve.buy(11, 1000, PaymentMode::NativeReserve, 1_000_000).unwrap();
    assert_eq!(receipt.buyer, 11);
    assert_eq!(receipt.token_id, 7);
    assert_eq!(receipt.amount, 1000);
    assert_eq!(receipt.price, 50_255);
    assert_eq!(receipt.fee, 250);
    assert_eq!(receipt.payment_mode, PaymentMode::NativeReserve);
    assert_eq!(curve.purchase_market_supply, 1000);
    assert_eq!(curve.lifetime_fees_collected, 250);
}

#[test]
fn repeating_the_buy_costs_strictly_more() {
    let mut curve = fresh_curve();
    let first = curve.buy(11, 1000, PaymentMode::NativeReserve, 1_000_000).unwrap();
    let second = curve.buy(11, 1000, PaymentMode::NativeReserve, 1_000_000).unwrap();
    assert_eq!(first.price, 50_255);
    assert_eq!(second.price, 100_520);
    assert!(second.price > first.price);
    assert_eq!(curve.purchase_market_supply, 2000);
}

#[test]
fn buy_with_too_small_a_balance_fails() {
    let mut curve = fresh_curve();
    let before = curve;
    assert_eq!(
        curve.buy(11, 1000, PaymentMode::NativeReserve, 50_254),
        Err(CurveError::InsufficientFunds)
    );
    assert_eq!(curve, before);
}

#[test]
fn buy_past_the_cap_fails_and_changes_nothing() {
    let mut curve = fresh_curve();
    let before = curve;
    assert_eq!(
        curve.buy(11, VIRTUAL_TOKEN_CAP + 1, PaymentMode::NativeReserve, u64::MAX),
        Err(CurveError::CapacityExceeded)
    );
    assert_eq!(curve, before);
}

#[test]
fn buy_on_an_uninitialized_curve_fails() {
    let mut curve = fresh_curve();
    curve.status = CurveStatus::Uninitialized;
    let before = curve;
    assert_eq!(
        curve.buy(11, 1000, PaymentMode::WrappedReserve, u64::MAX),
        Err(CurveError::CurveNotActive)
    );
    assert_eq!(curve, before);
}

#[test]
fn sell_with_zero_reserve_fails_with_insufficient_funds() {
    let mut curve = fresh_curve();
    curve.purchase_market_supply = 5000;
    let before = curve;
    assert_eq!(curve.sell(11, 1000, 0), Err(CurveError::InsufficientFunds));
    assert_eq!(curve, before);
}

#[test]
fn sell_of_more_than_the_supply_fails_with_overflow() {
    let mut curve = fresh_curve();
    curve.purchase_market_supply = 500;
    let before = curve;
    assert_eq!(curve.sell(11, 501, 1_000_000), Err(CurveError::ArithmeticOverflow));
    assert_eq!(curve, before);
}

#[test]
fn sell_pays_the_net_price_when_the_reserve_covers_it() {
    let mut curve = fresh_curve();
    curve.purchase_market_supply = 2000;
    let receipt = curve.sell(11, 1000, 1_000_000).unwrap();
    assert_eq!(receipt.seller, 11);
    assert_eq!(receipt.token_id, 7);
    assert_eq!(receipt.amount, 1000);
    assert_eq!(receipt.payout, 49_750);
    assert_eq!(receipt.fee, 250);
    assert_eq!(curve.purchase_market_supply, 1000);
    assert_eq!(curve.lifetime_fees_collected, 250);
}

#[test]
fn sell_payout_is_capped_by_the_reserve() {
    let mut curve = fresh_curve();
    curve.purchase_market_supply = 2000;
    let receipt = curve.sell(11, 1000, 100).unwrap();
    assert_eq!(receipt.payout, 100);
    // The fee is charged on the uncapped price even though the payout was
    // capped.
    assert_eq!(receipt.fee, 250);
    assert_eq!(curve.lifetime_fees_collected, 250);
}

#[test]
fn nonzero_sale_with_positive_reserve_pays_at_least_one_unit() {
    let mut curve = BondingCurve::activate(7, 99, 3, 0);
    curve.purchase_market_supply = 5;
    let receipt = curve.sell(11, 2, 7).unwrap();
    assert_eq!(receipt.payout, 1);
    assert_eq!(curve.purchase_market_supply, 3);
}

#[test]
fn supply_stays_within_the_cap_across_trades() {
    let mut curve = fresh_curve();
    curve.buy(11, 4000, PaymentMode::NativeReserve, u64::MAX).unwrap();
    curve.buy(12, VIRTUAL_TOKEN_CAP - 4000, PaymentMode::NativeReserve, u64::MAX).unwrap();
    assert_eq!(curve.purchase_market_supply, VIRTUAL_TOKEN_CAP);
    assert_eq!(
        curve.buy(13, 1, PaymentMode::NativeReserve, u64::MAX),
        Err(CurveError::CapacityExceeded)
    );
    curve.sell(11, 4000, u64::MAX).unwrap();
    curve.sell(12, VIRTUAL_TOKEN_CAP - 4000, u64::MAX).unwrap();
    assert_eq!(curve.purchase_market_supply, 0);
    assert_eq!(curve.sell(12, 1, u64::MAX), Err(CurveError::ArithmeticOverflow));
}

#[test]
fn sell_on_an_uninitialized_curve_fails() {
    let mut curve = fresh_curve();
    curve.status = CurveStatus::Uninitialized;
    curve.purchase_market_supply = 5000;
    assert_eq!(curve.sell(11, 10, 1_000_000), Err(CurveError::CurveNotActive));
}
