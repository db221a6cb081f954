//! Per-token trade state and the buy/sell transitions.
//!
//! A [`BondingCurve`] holds everything one creator token needs to trade:
//! fee rates, the effective circulating supply and the pricing parameters.
//! The engine never moves funds itself: a transition checks every condition,
//! then updates the curve and returns a receipt naming the transfers, mints
//! and burns the host must perform atomically with it. Any error leaves the
//! curve untouched.

use vstd::prelude::*;

use crate::errors::CurveError;
use crate::pricing;
use crate::pricing::{
    spec_buy_base, spec_buy_capacity_ok, spec_buy_fits, spec_buy_total, spec_sell_fee,
    spec_sell_fits, spec_sell_net, BuyQuote, SellQuote, VIRTUAL_TOKEN_CAP,
};

verus! {

/// Buy fee fixed at deployment, in basis points.
pub const DEPLOY_BUY_FEE_BPS: u16 = 50;

/// Sell fee fixed at deployment, in basis points.
pub const DEPLOY_SELL_FEE_BPS: u16 = 50;

/// Trading state of a curve. Deployment moves a curve to `Active`, which is
/// terminal: no pause or resume transition exists.
#[derive(Clone, Copy, Debug, PartialEq, Eq, Structural)]
pub enum CurveStatus {
    /// No deployment has created this curve yet.
    Uninitialized,
    /// The curve trades.
    Active,
}

/// How the buyer settles the reserve side of a buy: with the native asset or
/// with its pre-wrapped form. The engine records the caller's explicit choice
/// in the receipt; the host picks the matching transfer path.
#[derive(Clone, Copy, Debug, PartialEq, Eq, Structural)]
pub enum PaymentMode {
    /// Pay from the native reserve balance.
    NativeReserve,
    /// Pay from a pre-wrapped reserve balance.
    WrappedReserve,
}

/// Tradable state of one creator token.
#[derive(Clone, Copy, Debug, PartialEq, Eq, Structural)]
pub struct BondingCurve {
    /// Identity of the token this curve trades.
    pub token_id: u64,
    /// Identity receiving the collected fees.
    pub fee_collector: u64,
    /// Trading state.
    pub status: CurveStatus,
    /// Fee on buys, in basis points.
    pub buy_fee_bps: u16,
    /// Fee on sells, in basis points.
    pub sell_fee_bps: u16,
    /// Effective circulating supply, in scaled units.
    pub purchase_market_supply: u64,
    /// Sum of all fees ever charged, in base units.
    pub lifetime_fees_collected: u128,
    /// Stored reserve ratio from the deployment config.
    pub reserve_ratio: u64,
    /// Initial price parameter from the deployment config, in base units.
    pub initial_price: u64,
}

/// Successful buy: the host debits `price` base units from `buyer`, credits
/// them to the curve's custodial reserve, and mints `amount` scaled units to
/// `buyer`.
#[derive(Clone, Copy, Debug, PartialEq, Eq, Structural)]
pub struct BuyReceipt {
    /// Identity of the buyer.
    pub buyer: u64,
    /// Identity of the token bought.
    pub token_id: u64,
    /// Scaled units bought.
    pub amount: u64,
    /// Reserve debited from the buyer, fee included, in base units.
    pub price: u64,
    /// Fee portion of `price`, in base units.
    pub fee: u64,
    /// The settlement path the buyer chose.
    pub payment_mode: PaymentMode,
}

/// Successful sell: the host burns `amount` scaled units from `seller` and
/// pays `payout` base units from the curve's custodial reserve.
#[derive(Clone, Copy, Debug, PartialEq, Eq, Structural)]
pub struct SellReceipt {
    /// Identity of the seller.
    pub seller: u64,
    /// Identity of the token sold.
    pub token_id: u64,
    /// Scaled units sold.
    pub amount: u64,
    /// Reserve actually paid out, capped by the custodial reserve, in base units.
    pub payout: u64,
    /// Fee charged on the uncapped payout, in base units.
    pub fee: u128,
}

/// The first check a buy fails, if any. Checks run in this order and all run
/// before any write.
pub open spec fn spec_buy_err(c: BondingCurve, amount: int, payer_balance: int) -> Option<
    CurveError,
> {
    if c.status != CurveStatus::Active {
        Some(CurveError::CurveNotActive)
    } else if !spec_buy_capacity_ok(c.purchase_market_supply as int, amount) {
        Some(CurveError::CapacityExceeded)
    } else if !spec_buy_fits(
        c.purchase_market_supply as int,
        amount,
        c.buy_fee_bps as int,
        c.initial_price as int,
    ) {
        Some(CurveError::ArithmeticOverflow)
    } else if payer_balance < spec_buy_total(
        c.purchase_market_supply as int,
        amount,
        c.buy_fee_bps as int,
        c.initial_price as int,
    ) {
        Some(CurveError::InsufficientFunds)
    } else if c.lifetime_fees_collected + spec_buy_charged_fee(c, amount) > u128::MAX {
        Some(CurveError::ArithmeticOverflow)
    } else {
        None
    }
}

/// Fee portion of a buy: the total minus the pre-fee reserve owed.
pub open spec fn spec_buy_charged_fee(c: BondingCurve, amount: int) -> int {
    spec_buy_total(
        c.purchase_market_supply as int,
        amount,
        c.buy_fee_bps as int,
        c.initial_price as int,
    ) - spec_buy_base(c.purchase_market_supply as int, amount, c.initial_price as int)
}

/// The first check a sell fails, if any. Checks run in this order and all run
/// before any write.
pub open spec fn spec_sell_err(c: BondingCurve, amount: int, reserve_balance: int) -> Option<
    CurveError,
> {
    if c.status != CurveStatus::Active {
        Some(CurveError::CurveNotActive)
    } else if reserve_balance == 0 {
        Some(CurveError::InsufficientFunds)
    } else if amount > c.purchase_market_supply {
        Some(CurveError::ArithmeticOverflow)
    } else if !spec_sell_fits(
        c.purchase_market_supply as int,
        amount,
        c.sell_fee_bps as int,
        c.initial_price as int,
    ) {
        Some(CurveError::ArithmeticOverflow)
    } else if c.lifetime_fees_collected + spec_sell_fee(
        c.purchase_market_supply as int,
        amount,
        c.sell_fee_bps as int,
        c.initial_price as int,
    ) > u128::MAX {
        Some(CurveError::ArithmeticOverflow)
    } else {
        None
    }
}

/// Payout of a successful sell: the net price capped at the available
/// custodial reserve, floored at one base unit for any nonzero sale.
pub open spec fn spec_sell_payout(c: BondingCurve, amount: int, reserve_balance: int) -> int {
    let net = spec_sell_net(
        c.purchase_market_supply as int,
        amount,
        c.sell_fee_bps as int,
        c.initial_price as int,
    );
    let capped = if net > reserve_balance {
        reserve_balance
    } else {
        net
    };
    if amount > 0 && capped == 0 {
        1
    } else {
        capped
    }
}

impl BondingCurve {
    /// The curve is in its active trading state.
    pub open spec fn is_active(self) -> bool {
        self.status == CurveStatus::Active
    }

    /// Create the active curve of a fresh deployment: supply and collected
    /// fees start at zero, and both fee rates are fixed at fifty basis points.
    pub fn activate(token_id: u64, fee_collector: u64, reserve_ratio: u64, initial_price: u64) -> (c:
        BondingCurve)
        ensures
            c == (BondingCurve {
                token_id,
                fee_collector,
                status: CurveStatus::Active,
                buy_fee_bps: DEPLOY_BUY_FEE_BPS,
                sell_fee_bps: DEPLOY_SELL_FEE_BPS,
                purchase_market_supply: 0,
                lifetime_fees_collected: 0,
                reserve_ratio,
                initial_price,
            }),
    {
        BondingCurve {
            token_id,
            fee_collector,
            status: CurveStatus::Active,
            buy_fee_bps: DEPLOY_BUY_FEE_BPS,
            sell_fee_bps: DEPLOY_SELL_FEE_BPS,
            purchase_market_supply: 0,
            lifetime_fees_collected: 0,
            reserve_ratio,
            initial_price,
        }
    }

    /// Buy `amount` scaled units against this curve.
    ///
    /// `payer_balance` is the buyer's available reserve balance in the chosen
    /// payment mode, read by the host immediately before the call. On success
    /// the supply grows by `amount`, the charged fee is accumulated, and the
    /// receipt names the debit, credit and mint the host must perform. On any
    /// error the curve is unchanged.
    pub fn buy(
        &mut self,
        buyer: u64,
        amount: u64,
        payment_mode: PaymentMode,
        payer_balance: u64,
    ) -> (r: Result<BuyReceipt, CurveError>)
        ensures
            r is Err <==> spec_buy_err(*old(self), amount as int, payer_balance as int) is Some,
            r is Err ==> Some(r->Err_0) == spec_buy_err(
                *old(self),
                amount as int,
                payer_balance as int,
            ) && *final(self) == *old(self),
            r is Ok ==> r->Ok_0 == (BuyReceipt {
                buyer,
                token_id: old(self).token_id,
                amount,
                price: spec_buy_total(
                    old(self).purchase_market_supply as int,
                    amount as int,
                    old(self).buy_fee_bps as int,
                    old(self).initial_price as int,
                ) as u64,
                fee: spec_buy_charged_fee(*old(self), amount as int) as u64,
                payment_mode,
            }),
            r is Ok ==> *final(self) == (BondingCurve {
                purchase_market_supply: (old(self).purchase_market_supply + amount) as u64,
                lifetime_fees_collected: (old(self).lifetime_fees_collected
                    + spec_buy_charged_fee(*old(self), amount as int)) as u128,
                ..*old(self)
            }),
            r is Ok ==> final(self).purchase_market_supply <= VIRTUAL_TOKEN_CAP,
    {
        if !matches!(self.status, CurveStatus::Active) {
            return Err(CurveError::CurveNotActive);
        }
        let quote: BuyQuote = match pricing::buy_quote(
            self.purchase_market_supply,
            amount,
            self.buy_fee_bps,
            self.initial_price,
        ) {
            Ok(q) => q,
            Err(e) => {
                return Err(e);
            },
        };
        if payer_balance < quote.total {
            return Err(CurveError::InsufficientFunds);
        }
        let fee: u64 = quote.total - quote.base;
        let new_fees: u128 = match self.lifetime_fees_collected.checked_add(fee as u128) {
            Some(f) => f,
            None => {
                return Err(CurveError::ArithmeticOverflow);
            },
        };
        self.purchase_market_supply = self.purchase_market_supply + amount;
        self.lifetime_fees_collected = new_fees;
        Ok(
            BuyReceipt {
                buyer,
                token_id: self.token_id,
                amount,
                price: quote.total,
                fee,
                payment_mode,
            },
        )
    }

    /// Sell `amount` scaled units back to this curve.
    ///
    /// `reserve_balance` is the curve's available custodial reserve, read by
    /// the host immediately before the call. A curve whose reserve is zero
    /// cannot pay and fails with `InsufficientFunds`; otherwise the payout is
    /// the net sell price capped at the reserve and floored at one base unit
    /// for any nonzero sale. The fee is charged on the uncapped price, so fee
    /// accounting can exceed the real outflow by design. On success the
    /// supply shrinks by `amount`; on any error the curve is unchanged.
    pub fn sell(&mut self, seller: u64, amount: u64, reserve_balance: u64) -> (r: Result<
        SellReceipt,
        CurveError,
    >)
        ensures
            r is Err <==> spec_sell_err(*old(self), amount as int, reserve_balance as int) is Some,
            r is Err ==> Some(r->Err_0) == spec_sell_err(
                *old(self),
                amount as int,
                reserve_balance as int,
            ) && *final(self) == *old(self),
            old(self).is_active() && reserve_balance == 0 ==> r == Err::<SellReceipt, CurveError>(
                CurveError::InsufficientFunds,
            ),
            r is Ok ==> r->Ok_0 == (SellReceipt {
                seller,
                token_id: old(self).token_id,
                amount,
                payout: spec_sell_payout(*old(self), amount as int, reserve_balance as int) as u64,
                fee: spec_sell_fee(
                    old(self).purchase_market_supply as int,
                    amount as int,
                    old(self).sell_fee_bps as int,
                    old(self).initial_price as int,
                ) as u128,
            }),
            r is Ok ==> *final(self) == (BondingCurve {
                purchase_market_supply: (old(self).purchase_market_supply - amount) as u64,
                lifetime_fees_collected: (old(self).lifetime_fees_collected + spec_sell_fee(
                    old(self).purchase_market_supply as int,
                    amount as int,
                    old(self).sell_fee_bps as int,
                    old(self).initial_price as int,
                )) as u128,
                ..*old(self)
            }),
            r is Ok ==> final(self).purchase_market_supply <= old(self).purchase_market_supply,
            r is Ok ==> r->Ok_0.payout <= reserve_balance,
            r is Ok && amount > 0 ==> r->Ok_0.payout >= 1,
    {
        if !matches!(self.status, CurveStatus::Active) {
            return Err(CurveError::CurveNotActive);
        }
        if reserve_balance == 0 {
            return Err(CurveError::InsufficientFunds);
        }
        if amount > self.purchase_market_supply {
            return Err(CurveError::ArithmeticOverflow);
        }
        let quote: SellQuote = match pricing::sell_quote(
            self.purchase_market_supply,
            amount,
            self.sell_fee_bps,
            self.initial_price,
        ) {
            Ok(q) => q,
            Err(e) => {
                return Err(e);
            },
        };
        let new_fees: u128 = match self.lifetime_fees_collected.checked_add(quote.fee) {
            Some(f) => f,
            None => {
                return Err(CurveError::ArithmeticOverflow);
            },
        };
        let capped: u64 = if quote.net > reserve_balance {
            reserve_balance
        } else {
            quote.net
        };
        let payout: u64 = if amount > 0 && capped == 0 {
            1
        } else {
            capped
        };
        self.purchase_market_supply = self.purchase_market_supply - amount;
        self.lifetime_fees_collected = new_fees;
        Ok(SellReceipt { seller, token_id: self.token_id, amount, payout, fee: quote.fee })
    }
}

} // verus!
