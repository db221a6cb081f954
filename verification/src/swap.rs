//! Atomic cross-token swap: a sell on one curve chained with a buy on
//! another.
//!
//! The router sells `amount_in` on the source curve, feeds the released
//! reserve into the target curve's inverse pricing relation, and enforces the
//! caller's slippage floor and the swap supply ceiling before any state
//! changes. Either both curves move or neither does.

use vstd::prelude::*;

use crate::curve::{BondingCurve, CurveStatus};
use crate::errors::CurveError;
use crate::pricing;
use crate::pricing::{
    spec_buy_amount_for_spend, spec_sell_fits, spec_sell_net, SellQuote, SWAP_SUPPLY_CEILING,
};

verus! {

/// The swap router: pure state that only remembers whether it has been
/// initialized.
#[derive(Clone, Copy, Debug, PartialEq, Eq, Structural)]
pub struct SwapRouter {
    /// Whether `initialize` has run.
    pub initialized: bool,
}

/// Successful swap: the host burns `amount_in` source tokens from `user`,
/// moves `reserve_delta` base units from the source curve's custodial
/// reserve to the target curve's, and mints `amount_out` target tokens to
/// `user` — atomically.
#[derive(Clone, Copy, Debug, PartialEq, Eq, Structural)]
pub struct SwapReceipt {
    /// Identity of the swapping user.
    pub user: u64,
    /// Identity of the token sold.
    pub source_token: u64,
    /// Identity of the token bought.
    pub target_token: u64,
    /// Scaled units sold on the source curve.
    pub amount_in: u64,
    /// Reserve moved between the custodial reserves, in base units.
    pub reserve_delta: u64,
    /// Scaled units bought on the target curve.
    pub amount_out: u64,
}

/// Reserve released by the sell leg of a swap: the net sell price of
/// `amount_in` on the source curve.
pub open spec fn spec_swap_reserve_delta(source: BondingCurve, amount_in: int) -> int {
    spec_sell_net(
        source.purchase_market_supply as int,
        amount_in,
        source.sell_fee_bps as int,
        source.initial_price as int,
    )
}

/// Output of the buy leg of a swap: the released reserve spent on the target
/// curve.
pub open spec fn spec_swap_amount_out(
    source: BondingCurve,
    target: BondingCurve,
    amount_in: int,
) -> int {
    spec_buy_amount_for_spend(
        target.purchase_market_supply as int,
        spec_swap_reserve_delta(source, amount_in),
        target.buy_fee_bps as int,
        target.initial_price as int,
    )
}

/// The first check a swap fails, if any. Checks run in this order and all
/// run before any write to either curve.
pub open spec fn spec_swap_err(
    router: SwapRouter,
    source: BondingCurve,
    target: BondingCurve,
    amount_in: int,
    min_amount_out: int,
    source_reserve: int,
) -> Option<CurveError> {
    if !router.initialized {
        Some(CurveError::RouterNotInitialized)
    } else if source.status != CurveStatus::Active || target.status != CurveStatus::Active {
        Some(CurveError::CurveNotActive)
    } else if amount_in <= source.purchase_market_supply && !spec_sell_fits(
        source.purchase_market_supply as int,
        amount_in,
        source.sell_fee_bps as int,
        source.initial_price as int,
    ) {
        Some(CurveError::ArithmeticOverflow)
    } else if spec_swap_amount_out(source, target, amount_in) < min_amount_out {
        Some(CurveError::Slippage)
    } else if target.purchase_market_supply + spec_swap_amount_out(source, target, amount_in)
        > SWAP_SUPPLY_CEILING {
        Some(CurveError::CapacityExceeded)
    } else if amount_in > source.purchase_market_supply {
        Some(CurveError::ArithmeticOverflow)
    } else if source_reserve < spec_swap_reserve_delta(source, amount_in) {
        Some(CurveError::InsufficientFunds)
    } else {
        None
    }
}

impl SwapRouter {
    /// Create the router in its uninitialized state.
    pub fn new() -> (r: SwapRouter)
        ensures
            !r.initialized,
    {
        SwapRouter { initialized: false }
    }

    /// Initialize the router; swaps are refused until this has run.
    pub fn initialize(&mut self)
        ensures
            final(self).initialized,
    {
        self.initialized = true;
    }

    /// Swap `amount_in` of the source token into the target token.
    ///
    /// The sell leg prices the released reserve; the buy leg converts it to
    /// target tokens through the inverse pricing relation. The swap fails
    /// with `Slippage` below `min_amount_out` and with `CapacityExceeded`
    /// past [`SWAP_SUPPLY_CEILING`] on the target curve. `source_reserve` is
    /// the source curve's available custodial reserve, read by the host
    /// immediately before the call. On any error neither curve changes.
    pub fn swap_tokens(
        &self,
        source: &mut BondingCurve,
        target: &mut BondingCurve,
        user: u64,
        amount_in: u64,
        min_amount_out: u64,
        source_reserve: u64,
    ) -> (r: Result<SwapReceipt, CurveError>)
        ensures
            r is Err <==> spec_swap_err(
                *self,
                *old(source),
                *old(target),
                amount_in as int,
                min_amount_out as int,
                source_reserve as int,
            ) is Some,
            r is Err ==> Some(r->Err_0) == spec_swap_err(
                *self,
                *old(source),
                *old(target),
                amount_in as int,
                min_amount_out as int,
                source_reserve as int,
            ) && *final(source) == *old(source) && *final(target) == *old(target),
            r is Ok ==> r->Ok_0 == (SwapReceipt {
                user,
                source_token: old(source).token_id,
                target_token: old(target).token_id,
                amount_in,
                reserve_delta: spec_swap_reserve_delta(*old(source), amount_in as int) as u64,
                amount_out: spec_swap_amount_out(
                    *old(source),
                    *old(target),
                    amount_in as int,
                ) as u64,
            }),
            r is Ok ==> *final(source) == (BondingCurve {
                purchase_market_supply: (old(source).purchase_market_supply - amount_in) as u64,
                ..*old(source)
            }),
            r is Ok ==> *final(target) == (BondingCurve {
                purchase_market_supply: (old(target).purchase_market_supply + spec_swap_amount_out(
                    *old(source),
                    *old(target),
                    amount_in as int,
                )) as u64,
                ..*old(target)
            }),
    {
        if !self.initialized {
            return Err(CurveError::RouterNotInitialized);
        }
        if !matches!(source.status, CurveStatus::Active) || !matches!(
            target.status,
            CurveStatus::Active,
        ) {
            return Err(CurveError::CurveNotActive);
        }
        let sell: SellQuote = match pricing::sell_quote(
            source.purchase_market_supply,
            amount_in,
            source.sell_fee_bps,
            source.initial_price,
        ) {
            Ok(q) => q,
            Err(e) => {
                return Err(e);
            },
        };
        let reserve_delta: u64 = sell.net;
        let amount_out: u64 = pricing::buy_amount_for_spend(
            target.purchase_market_supply,
            reserve_delta,
            target.buy_fee_bps,
            target.initial_price,
        );
        if amount_out < min_amount_out {
            return Err(CurveError::Slippage);
        }
        if target.purchase_market_supply > SWAP_SUPPLY_CEILING - amount_out {
            return Err(CurveError::CapacityExceeded);
        }
        if amount_in > source.purchase_market_supply {
            return Err(CurveError::ArithmeticOverflow);
        }
        if source_reserve < reserve_delta {
            return Err(CurveError::InsufficientFunds);
        }
        source.purchase_market_supply = source.purchase_market_supply - amount_in;
        target.purchase_market_supply = target.purchase_market_supply + amount_out;
        Ok(
            SwapReceipt {
                user,
                source_token: source.token_id,
                target_token: target.token_id,
                amount_in,
                reserve_delta,
                amount_out,
            },
        )
    }
}

} // verus!
