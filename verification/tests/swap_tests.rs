use curve_amm::curve::BondingCurve;
use curve_amm::errors::CurveError;
use curve_amm::swap::SwapRouter;

fn source_curve() -> BondingCurve {
    let mut curve = BondingCurve::activate(1, 99, 3, 1);
    curve.purchase_market_supply = 2000;
    curve
}

fn target_curve() -> BondingCurve {
    BondingCurve::activate(2, 99, 3, 1)
}

fn ready_router() -> SwapRouter {
    let mut router = SwapRouter::new();
    router.initialize();
    router
}

#[test]
fn router_starts_uninitialized() {
    let router = SwapRouter::new();
    assert!(!router.initialized);
    let ready = ready_router();
    assert!(ready.initialized);
}

#[test]
fn swap_before_initialization_fails() {
    let router = SwapRouter::new();
    let mut source = source_curve();
    let mut target = target_curve();
    assert_eq!(
        router.swap_tokens(&mut source, &mut target, 11, 1000, 0, 1_000_000),
        Err(CurveError::RouterNotInitialized)
    );
    assert_eq!(source.purchase_market_supply, 2000);
    assert_eq!(target.purchase_market_supply, 0);
}

#[test]
fn swap_moves_both_supplies_by_the_computed_amounts() {
    let router = ready_router();
    let mut source = source_curve();
    let mut target = target_curve();
    let receipt = router
        .swap_tokens(&mut source, &mut target, 11, 1000, 990, 1_000_000)
        .unwrap();
    // Sell leg: net price of 1000 at supply 2000 is 49_750; buy leg:
    // 49_750 base units buy 990 scaled units on a fresh curve.
    assert_eq!(receipt.user, 11);
    assert_eq!(receipt.source_token, 1);
    assert_eq!(receipt.target_token, 2);
    assert_eq!(receipt.amount_in, 1000);
    assert_eq!(receipt.reserve_delta, 49_750);
    assert_eq!(receipt.amount_out, 990);
    assert_eq!(source.purchase_market_supply, 1000);
    assert_eq!(target.purchase_market_supply, 990);
}

#[test]
fn swap_below_the_slippage_floor_fails_and_moves_nothing() {
    let router = ready_router();
    let mut source = source_curve();
    let mut target = target_curve();
    assert_eq!(
        router.swap_tokens(&mut source, &mut target, 11, 1000, 991, 1_000_000),
        Err(CurveError::Slippage)
    );
    assert_eq!(source.purchase_market_supply, 2000);
    assert_eq!(target.purchase_market_supply, 0);
}

#[test]
fn swap_into_an_overfull_target_buys_nothing() {
    // Past the spend ceiling the buy leg clamps to zero output, so any
    // positive slippage floor rejects the swap.
    let router = ready_router();
    let mut source = source_curve();
    let mut target = target_curve();
    target.purchase_market_supply = 10_000_000_000_000_000;
    assert_eq!(
        router.swap_tokens(&mut source, &mut target, 11, 1000, 1, 1_000_000),
        Err(CurveError::Slippage)
    );
    assert_eq!(source.purchase_market_supply, 2000);
    assert_eq!(target.purchase_market_supply, 10_000_000_000_000_000);
}

#[test]
fn swap_of_more_than_the_source_supply_fails() {
    let router = ready_router();
    let mut source = source_curve();
    let mut target = target_curve();
    // Selling more than the supply nets zero reserve, so with no slippage
    // floor the failure surfaces at the supply decrement.
    assert_eq!(
        router.swap_tokens(&mut source, &mut target, 11, 2001, 0, 1_000_000),
        Err(CurveError::ArithmeticOverflow)
    );
    assert_eq!(source.purchase_market_supply, 2000);
}

#[test]
fn swap_with_an_empty_source_reserve_fails() {
    let router = ready_router();
    let mut source = source_curve();
    let mut target = target_curve();
    assert_eq!(
        router.swap_tokens(&mut source, &mut target, 11, 1000, 0, 49_749),
        Err(CurveError::InsufficientFunds)
    );
    assert_eq!(source.purchase_market_supply, 2000);
    assert_eq!(target.purchase_market_supply, 0);
}

#[test]
fn swap_on_an_inactive_curve_fails() {
    let router = ready_router();
    let mut source = source_curve();
    source.status = curve_amm::curve::CurveStatus::Uninitialized;
    let mut target = target_curve();
    assert_eq!(
        router.swap_tokens(&mut source, &mut target, 11, 1000, 0, 1_000_000),
        Err(CurveError::CurveNotActive)
    );
}
