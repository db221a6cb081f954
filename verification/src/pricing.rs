//! Pure pricing functions of the bonding curve.
//!
//! The curve follows a virtual-reserve model: a fictitious reserve of
//! [`VIRTUAL_RESERVE`] base units and a virtual supply cap of
//! [`VIRTUAL_TOKEN_CAP`] scaled units bootstrap the price so that no division
//! by zero can occur on an empty curve. All products are computed in 128-bit
//! precision; every division truncates, and a result that does not fit its
//! output width fails with `ArithmeticOverflow`.

use vstd::arithmetic::div_mod::*;
use vstd::arithmetic::mul::*;
use vstd::prelude::*;

use crate::errors::CurveError;

verus! {

/// Virtual reserve bootstrapping every curve, in base units of the reserve asset.
pub const VIRTUAL_RESERVE: u64 = 500_000_000;

/// Virtual token cap: the supply ceiling enforced on direct buys, in scaled units.
pub const VIRTUAL_TOKEN_CAP: u64 = 10_000_000;

/// One whole reserve token in base units (nine decimals).
pub const RESERVE_SCALE: u64 = 1_000_000_000;

/// Denominator of all fee rates, which are quoted in basis points.
pub const BPS_DENOMINATOR: u64 = 10_000;

/// Supply ceiling used only to clamp `buy_amount_for_spend`, in scaled units.
/// Deliberately distinct from [`VIRTUAL_TOKEN_CAP`].
pub const SPEND_SUPPLY_CEILING: u64 = 800_000_000;

/// Supply ceiling enforced on the target curve of a swap, in scaled units.
/// Deliberately distinct from the two other ceilings.
pub const SWAP_SUPPLY_CEILING: u64 = 10_000_000_000_000_000;

/// The reserve the model attributes to a curve at `supply`: the virtual
/// reserve plus the reserve value of the circulating supply.
pub open spec fn spec_virtual_sol(supply: int, initial_price: int) -> int {
    VIRTUAL_RESERVE + supply * initial_price / (RESERVE_SCALE as int)
}

/// Remaining virtual supply below the cap, floored at 1 so that the constant
/// ratio stays defined when `supply` reaches or passes the cap.
pub open spec fn spec_remaining_supply(supply: int) -> int {
    if supply < VIRTUAL_TOKEN_CAP {
        VIRTUAL_TOKEN_CAP - supply
    } else {
        1
    }
}

/// The reserve scaled up by the constant-ratio relation at `supply`.
pub open spec fn spec_scaled_sol(supply: int, initial_price: int) -> int {
    spec_virtual_sol(supply, initial_price) * VIRTUAL_TOKEN_CAP / spec_remaining_supply(supply)
}

/// Instantaneous price of one scaled unit at `supply`.
pub open spec fn spec_price_at_supply(supply: int, initial_price: int) -> int {
    spec_scaled_sol(supply, initial_price) * initial_price / (VIRTUAL_TOKEN_CAP as int)
}

/// The intermediate products of `price_at_supply` fit 128 bits and its result
/// fits the output width.
pub open spec fn spec_price_fits(supply: int, initial_price: int) -> bool {
    &&& spec_scaled_sol(supply, initial_price) * initial_price <= u128::MAX
    &&& spec_price_at_supply(supply, initial_price) <= u64::MAX
}

/// The virtual reserve at `supply`, exactly as the model defines it.
fn virtual_sol(supply: u64, initial_price: u64) -> (r: u128)
    ensures
        r == spec_virtual_sol(supply as int, initial_price as int),
        r >= VIRTUAL_RESERVE,
        r <= VIRTUAL_RESERVE as int + u128::MAX as int / RESERVE_SCALE as int,
{
    proof {
        lemma_mul_upper_bound(supply as int, u64::MAX as int, initial_price as int, u64::MAX as int);
        assert((u64::MAX as int) * (u64::MAX as int) <= u128::MAX as int);
        lemma_div_is_ordered(
            supply as int * initial_price as int,
            u128::MAX as int,
            RESERVE_SCALE as int,
        );
        lemma_div_pos_is_pos(supply as int * initial_price as int, RESERVE_SCALE as int);
        assert(supply as int * initial_price as int >= 0) by (nonlinear_arith);
    }
    let scaled: u128 = (supply as u128) * (initial_price as u128);
    (VIRTUAL_RESERVE as u128) + scaled / (RESERVE_SCALE as u128)
}

/// Remaining virtual supply below the cap, floored at 1.
fn remaining_supply(supply: u64) -> (r: u128)
    ensures
        r == spec_remaining_supply(supply as int),
        1 <= r <= VIRTUAL_TOKEN_CAP,
{
    if supply < VIRTUAL_TOKEN_CAP {
        (VIRTUAL_TOKEN_CAP - supply) as u128
    } else {
        1
    }
}

/// The product of the virtual reserve and the cap stays within 128 bits.
proof fn lemma_virtual_sol_times_cap_fits(sol: int)
    requires
        0 <= sol <= VIRTUAL_RESERVE as int + u128::MAX as int / RESERVE_SCALE as int,
    ensures
        sol * VIRTUAL_TOKEN_CAP <= u128::MAX,
{
    lemma_mul_upper_bound(
        sol,
        VIRTUAL_RESERVE as int + u128::MAX as int / RESERVE_SCALE as int,
        VIRTUAL_TOKEN_CAP as int,
        VIRTUAL_TOKEN_CAP as int,
    );
    assert((VIRTUAL_RESERVE as int + u128::MAX as int / RESERVE_SCALE as int) * (VIRTUAL_TOKEN_CAP as int)
        <= u128::MAX as int) by (nonlinear_arith);
}

/// Scaling a nonnegative value by `m / d` with `d <= m` never shrinks it.
proof fn lemma_scale_up_ge(x: int, m: int, d: int)
    requires
        0 <= x,
        0 < d <= m,
    ensures
        x <= x * m / d,
{
    lemma_mul_inequality(d, m, x);
    lemma_mul_is_commutative(x, d);
    lemma_mul_is_commutative(x, m);
    lemma_div_is_ordered(x * d, x * m, d);
    lemma_div_multiples_vanish(x, d);
}

/// Scaling a value by `x / d` with `x <= d` never grows it.
proof fn lemma_scale_down_le(x: int, c: int, d: int)
    requires
        0 <= x <= d,
        0 < d,
        0 <= c,
    ensures
        x * c / d <= c,
{
    lemma_mul_inequality(x, d, c);
    lemma_mul_is_commutative(d, c);
    lemma_div_is_ordered(x * c, d * c, d);
    lemma_div_multiples_vanish(c, d);
}

/// Current price of one scaled unit of the token at the given supply.
///
/// `current_sol = VIRTUAL_RESERVE + supply * initial_price / RESERVE_SCALE`,
/// scaled by the constant ratio `VIRTUAL_TOKEN_CAP / remaining_supply` and by
/// `initial_price / VIRTUAL_TOKEN_CAP`, truncating at every division.
pub fn price_at_supply(supply: u64, initial_price: u64) -> (r: Result<u64, CurveError>)
    ensures
        spec_price_fits(supply as int, initial_price as int) ==> r is Ok && r->Ok_0
            == spec_price_at_supply(supply as int, initial_price as int),
        !spec_price_fits(supply as int, initial_price as int) ==> r == Err::<
            u64,
            CurveError,
        >(CurveError::ArithmeticOverflow),
{
    let sol = virtual_sol(supply, initial_price);
    let rem = remaining_supply(supply);
    proof {
        lemma_virtual_sol_times_cap_fits(sol as int);
        lemma_div_pos_is_pos(sol as int * VIRTUAL_TOKEN_CAP as int, rem as int);
        assert(sol as int * VIRTUAL_TOKEN_CAP as int >= 0) by (nonlinear_arith)
            requires sol as int >= 0;
    }
    let scaled: u128 = sol * (VIRTUAL_TOKEN_CAP as u128) / rem;
    match scaled.checked_mul(initial_price as u128) {
        Some(numerator) => {
            let price: u128 = numerator / (VIRTUAL_TOKEN_CAP as u128);
            if price <= u64::MAX as u128 {
                Ok(price as u64)
            } else {
                Err(CurveError::ArithmeticOverflow)
            }
        },
        None => Err(CurveError::ArithmeticOverflow),
    }
}

/// A buy stays within the virtual token cap.
pub open spec fn spec_buy_capacity_ok(supply: int, amount: int) -> bool {
    supply + amount <= VIRTUAL_TOKEN_CAP
}

/// Reserve the buyer owes before fees: the growth of the scaled reserve when
/// the supply moves from `supply` to `supply + amount`.
pub open spec fn spec_buy_base(supply: int, amount: int, initial_price: int) -> int {
    spec_virtual_sol(supply, initial_price) * VIRTUAL_TOKEN_CAP / spec_remaining_supply(
        supply + amount,
    ) - spec_virtual_sol(supply, initial_price)
}

/// Reserve the buyer owes with the buy fee added.
pub open spec fn spec_buy_total(supply: int, amount: int, fee_bps: int, initial_price: int) -> int {
    spec_buy_base(supply, amount, initial_price) * (BPS_DENOMINATOR + fee_bps) / (
    BPS_DENOMINATOR as int)
}

/// The intermediate products of a buy quote fit 128 bits and its result fits
/// the output width.
pub open spec fn spec_buy_fits(supply: int, amount: int, fee_bps: int, initial_price: int) -> bool {
    &&& spec_buy_base(supply, amount, initial_price) * (BPS_DENOMINATOR + fee_bps) <= u128::MAX
    &&& spec_buy_total(supply, amount, fee_bps, initial_price) <= u64::MAX
}

/// A priced buy: the pre-fee reserve owed and the fee-inclusive total.
#[derive(Clone, Copy, Debug, PartialEq, Eq, Structural)]
pub struct BuyQuote {
    /// Reserve owed before fees, in base units.
    pub base: u64,
    /// Reserve owed with the buy fee added, in base units.
    pub total: u64,
}

/// Price a buy of `amount` scaled units at `supply`, returning both the
/// pre-fee reserve owed and the fee-inclusive total.
///
/// Fails with `CapacityExceeded` unless `supply + amount` stays within
/// [`VIRTUAL_TOKEN_CAP`], and with `ArithmeticOverflow` when a product or the
/// total does not fit its width.
pub fn buy_quote(supply: u64, amount: u64, fee_bps: u16, initial_price: u64) -> (r: Result<
    BuyQuote,
    CurveError,
>)
    ensures
        !spec_buy_capacity_ok(supply as int, amount as int) ==> r == Err::<
            BuyQuote,
            CurveError,
        >(CurveError::CapacityExceeded),
        spec_buy_capacity_ok(supply as int, amount as int) && !spec_buy_fits(
            supply as int,
            amount as int,
            fee_bps as int,
            initial_price as int,
        ) ==> r == Err::<BuyQuote, CurveError>(CurveError::ArithmeticOverflow),
        spec_buy_capacity_ok(supply as int, amount as int) && spec_buy_fits(
            supply as int,
            amount as int,
            fee_bps as int,
            initial_price as int,
        ) ==> {
            &&& r is Ok
            &&& r->Ok_0.base == spec_buy_base(supply as int, amount as int, initial_price as int)
            &&& r->Ok_0.total == spec_buy_total(
                supply as int,
                amount as int,
                fee_bps as int,
                initial_price as int,
            )
            &&& r->Ok_0.base <= r->Ok_0.total
        },
{
    if amount > VIRTUAL_TOKEN_CAP || supply > VIRTUAL_TOKEN_CAP - amount {
        return Err(CurveError::CapacityExceeded);
    }
    let sol = virtual_sol(supply, initial_price);
    let rem = remaining_supply(supply + amount);
    proof {
        lemma_virtual_sol_times_cap_fits(sol as int);
        lemma_div_pos_is_pos(sol as int * VIRTUAL_TOKEN_CAP as int, rem as int);
        assert(sol as int * VIRTUAL_TOKEN_CAP as int >= 0) by (nonlinear_arith)
            requires
                sol as int >= 0,
        ;
        lemma_scale_up_ge(sol as int, VIRTUAL_TOKEN_CAP as int, rem as int);
    }
    let new_sol: u128 = sol * (VIRTUAL_TOKEN_CAP as u128) / rem;
    let base: u128 = new_sol - sol;
    let rate: u128 = (BPS_DENOMINATOR as u128) + (fee_bps as u128);
    match base.checked_mul(rate) {
        Some(with_fee) => {
            let total: u128 = with_fee / (BPS_DENOMINATOR as u128);
            proof {
                lemma_scale_up_ge(base as int, rate as int, BPS_DENOMINATOR as int);
            }
            if total <= u64::MAX as u128 {
                Ok(BuyQuote { base: base as u64, total: total as u64 })
            } else {
                Err(CurveError::ArithmeticOverflow)
            }
        },
        None => Err(CurveError::ArithmeticOverflow),
    }
}

/// Total reserve a buyer owes, fee included, for `amount` scaled units bought
/// at `supply`.
pub fn buy_price(supply: u64, amount: u64, fee_bps: u16, initial_price: u64) -> (r: Result<
    u64,
    CurveError,
>)
    ensures
        !spec_buy_capacity_ok(supply as int, amount as int) ==> r == Err::<
            u64,
            CurveError,
        >(CurveError::CapacityExceeded),
        spec_buy_capacity_ok(supply as int, amount as int) && !spec_buy_fits(
            supply as int,
            amount as int,
            fee_bps as int,
            initial_price as int,
        ) ==> r == Err::<u64, CurveError>(CurveError::ArithmeticOverflow),
        spec_buy_capacity_ok(supply as int, amount as int) && spec_buy_fits(
            supply as int,
            amount as int,
            fee_bps as int,
            initial_price as int,
        ) ==> r is Ok && r->Ok_0 == spec_buy_total(
            supply as int,
            amount as int,
            fee_bps as int,
            initial_price as int,
        ),
{
    match buy_quote(supply, amount, fee_bps, initial_price) {
        Ok(quote) => Ok(quote.total),
        Err(e) => Err(e),
    }
}

/// Uncapped payout of a sell: the trapezoidal approximation of the reserve
/// released between `supply - amount` and `supply`.
pub open spec fn spec_sell_raw(supply: int, amount: int, initial_price: int) -> int {
    (spec_price_at_supply(supply - amount, initial_price) + spec_price_at_supply(
        supply,
        initial_price,
    )) * amount / 2
}

/// Fee charged on the uncapped payout of a sell.
pub open spec fn spec_sell_fee(supply: int, amount: int, fee_bps: int, initial_price: int) -> int {
    spec_sell_raw(supply, amount, initial_price) * fee_bps / (BPS_DENOMINATOR as int)
}

/// Net payout of a sell: zero when more than the supply is sold, and the fee
/// clamped so that it never exceeds the uncapped payout.
pub open spec fn spec_sell_net(supply: int, amount: int, fee_bps: int, initial_price: int) -> int {
    if amount > supply {
        0
    } else if spec_sell_fee(supply, amount, fee_bps, initial_price) > spec_sell_raw(
        supply,
        amount,
        initial_price,
    ) {
        0
    } else {
        spec_sell_raw(supply, amount, initial_price) - spec_sell_fee(
            supply,
            amount,
            fee_bps,
            initial_price,
        )
    }
}

/// The intermediate products of a sell quote fit 128 bits and its result fits
/// the output width.
pub open spec fn spec_sell_fits(supply: int, amount: int, fee_bps: int, initial_price: int) -> bool {
    &&& spec_price_fits(supply - amount, initial_price)
    &&& spec_price_fits(supply, initial_price)
    &&& (spec_price_at_supply(supply - amount, initial_price) + spec_price_at_supply(
        supply,
        initial_price,
    )) * amount <= u128::MAX
    &&& spec_sell_raw(supply, amount, initial_price) * fee_bps <= u128::MAX
    &&& spec_sell_net(supply, amount, fee_bps, initial_price) <= u64::MAX
}

/// A priced sell: the net payout owed and the fee retained.
#[derive(Clone, Copy, Debug, PartialEq, Eq, Structural)]
pub struct SellQuote {
    /// Net payout owed to the seller before the reserve cap, in base units.
    pub net: u64,
    /// Fee charged on the uncapped payout, in base units.
    pub fee: u128,
}

/// Price a sell of `amount` scaled units at `supply`: the average of the
/// instantaneous prices at the two endpoints times the amount, halved, with
/// the fee subtracted.
///
/// Selling more than the supply nets zero; the fee is clamped to the uncapped
/// payout; `ArithmeticOverflow` reports a product or a result that does not
/// fit its width.
pub fn sell_quote(supply: u64, amount: u64, fee_bps: u16, initial_price: u64) -> (r: Result<
    SellQuote,
    CurveError,
>)
    ensures
        amount > supply ==> r == Ok::<SellQuote, CurveError>(SellQuote { net: 0, fee: 0 }),
        amount <= supply && spec_sell_fits(
            supply as int,
            amount as int,
            fee_bps as int,
            initial_price as int,
        ) ==> {
            &&& r is Ok
            &&& r->Ok_0.net == spec_sell_net(
                supply as int,
                amount as int,
                fee_bps as int,
                initial_price as int,
            )
            &&& r->Ok_0.fee == spec_sell_fee(
                supply as int,
                amount as int,
                fee_bps as int,
                initial_price as int,
            )
        },
        amount <= supply && !spec_sell_fits(
            supply as int,
            amount as int,
            fee_bps as int,
            initial_price as int,
        ) ==> r == Err::<SellQuote, CurveError>(CurveError::ArithmeticOverflow),
{
    if amount > supply {
        return Ok(SellQuote { net: 0, fee: 0 });
    }
    let lower = match price_at_supply(supply - amount, initial_price) {
        Ok(p) => p,
        Err(e) => {
            return Err(e);
        },
    };
    let upper = match price_at_supply(supply, initial_price) {
        Ok(p) => p,
        Err(e) => {
            return Err(e);
        },
    };
    let endpoint_sum: u128 = (lower as u128) + (upper as u128);
    match endpoint_sum.checked_mul(amount as u128) {
        Some(area) => {
            let raw: u128 = area / 2;
            match raw.checked_mul(fee_bps as u128) {
                Some(fee_numerator) => {
                    let fee: u128 = fee_numerator / (BPS_DENOMINATOR as u128);
                    let net: u128 = if fee > raw {
                        0
                    } else {
                        raw - fee
                    };
                    if net <= u64::MAX as u128 {
                        Ok(SellQuote { net: net as u64, fee })
                    } else {
                        Err(CurveError::ArithmeticOverflow)
                    }
                },
                None => Err(CurveError::ArithmeticOverflow),
            }
        },
        None => Err(CurveError::ArithmeticOverflow),
    }
}

/// Net payout of a sell of `amount` scaled units at `supply`.
pub fn sell_price(supply: u64, amount: u64, fee_bps: u16, initial_price: u64) -> (r: Result<
    u64,
    CurveError,
>)
    ensures
        amount > supply ==> r == Ok::<u64, CurveError>(0),
        amount <= supply && spec_sell_fits(
            supply as int,
            amount as int,
            fee_bps as int,
            initial_price as int,
        ) ==> r is Ok && r->Ok_0 == spec_sell_net(
            supply as int,
            amount as int,
            fee_bps as int,
            initial_price as int,
        ),
        amount <= supply && !spec_sell_fits(
            supply as int,
            amount as int,
            fee_bps as int,
            initial_price as int,
        ) ==> r == Err::<u64, CurveError>(CurveError::ArithmeticOverflow),
{
    match sell_quote(supply, amount, fee_bps, initial_price) {
        Ok(quote) => Ok(quote.net),
        Err(e) => Err(e),
    }
}

/// Spend with the buy fee carved out: `spend * 10000 / (10000 + fee_bps)`.
pub open spec fn spec_spend_adjusted(spend: int, fee_bps: int) -> int {
    spend * BPS_DENOMINATOR / (BPS_DENOMINATOR + fee_bps)
}

/// Supply at which the constant-ratio relation prices the curve once the
/// adjusted spend has been added to its reserve.
pub open spec fn spec_spend_target(supply: int, adjusted: int, initial_price: int) -> int {
    VIRTUAL_TOKEN_CAP - spec_virtual_sol(supply, initial_price) * VIRTUAL_TOKEN_CAP / (
    spec_virtual_sol(supply, initial_price) + adjusted)
}

/// Scaled units bought for `spend` base units: the inverse constant-ratio
/// relation, clamped so that the resulting supply never exceeds
/// [`SPEND_SUPPLY_CEILING`].
pub open spec fn spec_buy_amount_for_spend(
    supply: int,
    spend: int,
    fee_bps: int,
    initial_price: int,
) -> int {
    let adjusted = spec_spend_adjusted(spend, fee_bps);
    if adjusted == 0 {
        0
    } else {
        let target = spec_spend_target(supply, adjusted, initial_price);
        let delta = if target > supply {
            target - supply
        } else {
            0
        };
        if supply + delta > SPEND_SUPPLY_CEILING {
            if supply < SPEND_SUPPLY_CEILING {
                SPEND_SUPPLY_CEILING - supply
            } else {
                0
            }
        } else {
            delta
        }
    }
}

/// Scaled units bought for `spend` base units at `supply`.
///
/// The spend is first reduced by the buy fee, truncating to zero when too
/// small; the token delta then follows from the inverse constant-ratio
/// relation, clamped at [`SPEND_SUPPLY_CEILING`]. Total on every input.
pub fn buy_amount_for_spend(supply: u64, spend: u64, fee_bps: u16, initial_price: u64) -> (r: u64)
    ensures
        r == spec_buy_amount_for_spend(
            supply as int,
            spend as int,
            fee_bps as int,
            initial_price as int,
        ),
        r <= VIRTUAL_TOKEN_CAP,
{
    proof {
        lemma_mul_upper_bound(
            spend as int,
            u64::MAX as int,
            BPS_DENOMINATOR as int,
            BPS_DENOMINATOR as int,
        );
        assert((u64::MAX as int) * (BPS_DENOMINATOR as int) <= u128::MAX as int);
        assert(spend as int * BPS_DENOMINATOR as int >= 0) by (nonlinear_arith);
    }
    let scaled_spend: u128 = (spend as u128) * (BPS_DENOMINATOR as u128);
    let denom: u128 = (BPS_DENOMINATOR as u128) + (fee_bps as u128);
    let adjusted: u128 = scaled_spend / denom;
    if adjusted == 0 {
        return 0;
    }
    proof {
        lemma_div_is_ordered_by_denominator(
            spend as int * BPS_DENOMINATOR as int,
            BPS_DENOMINATOR as int,
            denom as int,
        );
        lemma_mul_is_commutative(spend as int, BPS_DENOMINATOR as int);
        lemma_div_multiples_vanish(spend as int, BPS_DENOMINATOR as int);
    }
    let sol = virtual_sol(supply, initial_price);
    let new_sol: u128 = sol + adjusted;
    proof {
        lemma_virtual_sol_times_cap_fits(sol as int);
        lemma_div_pos_is_pos(sol as int * VIRTUAL_TOKEN_CAP as int, new_sol as int);
        assert(sol as int * VIRTUAL_TOKEN_CAP as int >= 0) by (nonlinear_arith)
            requires
                sol as int >= 0,
        ;
        lemma_scale_down_le(sol as int, VIRTUAL_TOKEN_CAP as int, new_sol as int);
    }
    let sold_off: u128 = sol * (VIRTUAL_TOKEN_CAP as u128) / new_sol;
    let target: u64 = (VIRTUAL_TOKEN_CAP as u128 - sold_off) as u64;
    let delta: u64 = if target > supply {
        target - supply
    } else {
        0
    };
    if supply > SPEND_SUPPLY_CEILING - delta {
        if supply < SPEND_SUPPLY_CEILING {
            SPEND_SUPPLY_CEILING - supply
        } else {
            0
        }
    } else {
        delta
    }
}

/// Dividing by the next smaller positive denominator strictly grows the
/// quotient once the numerator reaches `d * (d - 1)`.
proof fn lemma_div_strict_denominator_decrease(x: int, d: int)
    requires
        2 <= d,
        d * (d - 1) <= x,
    ensures
        x / d + 1 <= x / (d - 1),
{
    let q = x / d;
    lemma_div_multiples_vanish(d - 1, d);
    lemma_div_is_ordered(d * (d - 1), x, d);
    lemma_fundamental_div_mod(x, d);
    lemma_mod_bound(x, d);
    assert((d - 1) * (q + 1) <= x) by (nonlinear_arith)
        requires
            x == d * q + x % d,
            0 <= x % d,
            d - 1 <= q,
            2 <= d,
    ;
    lemma_div_multiples_vanish(q + 1, d - 1);
    lemma_div_is_ordered((d - 1) * (q + 1), x, d - 1);
}

/// Truncating division is superadditive in the numerator.
proof fn lemma_div_superadditive(p: int, q: int, m: int)
    requires
        0 <= p,
        0 <= q,
        0 < m,
    ensures
        p / m + q / m <= (p + q) / m,
{
    lemma_fundamental_div_mod(p, m);
    lemma_fundamental_div_mod(q, m);
    lemma_mod_bound(p, m);
    lemma_mod_bound(q, m);
    lemma_mul_is_distributive_add(m, p / m, q / m);
    lemma_div_multiples_vanish(p / m + q / m, m);
    lemma_div_is_ordered(m * (p / m + q / m), p + q, m);
}

/// The virtual reserve never falls below the virtual reserve constant.
proof fn lemma_virtual_sol_lower_bound(supply: int, initial_price: int)
    requires
        0 <= supply,
        0 <= initial_price,
    ensures
        VIRTUAL_RESERVE <= spec_virtual_sol(supply, initial_price),
{
    lemma_mul_nonnegative(supply, initial_price);
    lemma_div_pos_is_pos(supply * initial_price, RESERVE_SCALE as int);
}

/// The virtual reserve grows weakly with the supply.
proof fn lemma_virtual_sol_monotone(s1: int, s2: int, initial_price: int)
    requires
        0 <= s1 <= s2,
        0 <= initial_price,
    ensures
        spec_virtual_sol(s1, initial_price) <= spec_virtual_sol(s2, initial_price),
{
    lemma_mul_inequality(s1, s2, initial_price);
    lemma_div_is_ordered(s1 * initial_price, s2 * initial_price, RESERVE_SCALE as int);
}

/// With the numerator at least the bootstrap reserve times the cap,
/// shrinking the remaining supply strictly grows the scaled reserve.
proof fn lemma_scaled_sol_strict(x: int, r1: int, r2: int)
    requires
        1 <= r2 < r1 <= VIRTUAL_TOKEN_CAP,
        (VIRTUAL_RESERVE as int) * (VIRTUAL_TOKEN_CAP as int) <= x,
    ensures
        x / r1 + 1 <= x / r2,
{
    lemma_mul_upper_bound(r1, VIRTUAL_TOKEN_CAP as int, r1 - 1, VIRTUAL_TOKEN_CAP as int);
    assert((VIRTUAL_TOKEN_CAP as int) * (VIRTUAL_TOKEN_CAP as int) <= (VIRTUAL_RESERVE as int) * (
    VIRTUAL_TOKEN_CAP as int)) by (nonlinear_arith);
    lemma_div_strict_denominator_decrease(x, r1);
    lemma_div_is_ordered_by_denominator(x, r2, r1 - 1);
}

/// The pre-fee reserve owed on a buy is never negative.
proof fn lemma_buy_base_nonneg(supply: int, amount: int, initial_price: int)
    requires
        0 <= supply,
        0 <= amount,
        0 <= initial_price,
    ensures
        0 <= spec_buy_base(supply, amount, initial_price),
{
    let cur = spec_virtual_sol(supply, initial_price);
    lemma_virtual_sol_lower_bound(supply, initial_price);
    lemma_scale_up_ge(cur, VIRTUAL_TOKEN_CAP as int, spec_remaining_supply(supply + amount));
}

/// A strictly larger amount strictly grows the pre-fee reserve owed.
proof fn lemma_buy_base_strict_in_amount(supply: int, a1: int, a2: int, initial_price: int)
    requires
        0 <= supply,
        0 <= a1 < a2,
        supply + a2 < VIRTUAL_TOKEN_CAP,
        0 <= initial_price,
    ensures
        spec_buy_base(supply, a1, initial_price) + 1 <= spec_buy_base(supply, a2, initial_price),
{
    let cur = spec_virtual_sol(supply, initial_price);
    let r1 = spec_remaining_supply(supply + a1);
    let r2 = spec_remaining_supply(supply + a2);
    lemma_virtual_sol_lower_bound(supply, initial_price);
    lemma_mul_inequality(VIRTUAL_RESERVE as int, cur, VIRTUAL_TOKEN_CAP as int);
    lemma_scaled_sol_strict(cur * (VIRTUAL_TOKEN_CAP as int), r1, r2);
}

/// A strictly larger starting supply strictly grows the pre-fee reserve owed.
proof fn lemma_buy_base_strict_in_supply(s1: int, s2: int, amount: int, initial_price: int)
    requires
        0 <= s1 < s2,
        0 <= amount,
        s2 + amount < VIRTUAL_TOKEN_CAP,
        0 <= initial_price,
    ensures
        spec_buy_base(s1, amount, initial_price) + 1 <= spec_buy_base(s2, amount, initial_price),
{
    let t = VIRTUAL_TOKEN_CAP as int;
    let cur1 = spec_virtual_sol(s1, initial_price);
    let cur2 = spec_virtual_sol(s2, initial_price);
    let d = cur2 - cur1;
    let r1 = spec_remaining_supply(s1 + amount);
    let r2 = spec_remaining_supply(s2 + amount);
    lemma_virtual_sol_lower_bound(s1, initial_price);
    lemma_virtual_sol_monotone(s1, s2, initial_price);
    assert(cur2 * t == cur1 * t + d * t) by (nonlinear_arith)
        requires
            cur2 == cur1 + d,
    ;
    lemma_mul_nonnegative(cur1, t);
    lemma_mul_nonnegative(d, t);
    lemma_div_superadditive(cur1 * t, d * t, r2);
    lemma_mul_inequality(r2, t, d);
    lemma_mul_is_commutative(d, r2);
    lemma_mul_is_commutative(d, t);
    lemma_div_is_ordered(d * r2, d * t, r2);
    lemma_div_multiples_vanish(d, r2);
    lemma_mul_inequality(VIRTUAL_RESERVE as int, cur1, t);
    lemma_scaled_sol_strict(cur1 * t, r1, r2);
}

/// Adding the proportional fee preserves a strict gap in the base.
proof fn lemma_buy_total_strict_from_base(b1: int, b2: int, fee_bps: int)
    requires
        0 <= b1,
        b1 + 1 <= b2,
        0 <= fee_bps,
    ensures
        b1 * (BPS_DENOMINATOR + fee_bps) / (BPS_DENOMINATOR as int) < b2 * (BPS_DENOMINATOR
            + fee_bps) / (BPS_DENOMINATOR as int),
{
    let m = BPS_DENOMINATOR + fee_bps;
    assert(b1 * m + m <= b2 * m) by (nonlinear_arith)
        requires
            b1 + 1 <= b2,
            0 < m,
    ;
    lemma_hoist_over_denominator(b1 * m, 1, BPS_DENOMINATOR as nat);
    lemma_div_is_ordered(b1 * m + (BPS_DENOMINATOR as int), b2 * m, BPS_DENOMINATOR as int);
}

/// Law: at fixed supply, the fee-inclusive buy price is strictly increasing
/// in the amount bought, wherever the larger buy still ends strictly below
/// the virtual token cap.
pub proof fn lemma_buy_price_strict_in_amount(
    supply: int,
    amount1: int,
    amount2: int,
    fee_bps: int,
    initial_price: int,
)
    requires
        0 <= supply,
        0 <= amount1 < amount2,
        supply + amount2 < VIRTUAL_TOKEN_CAP,
        0 <= fee_bps,
        0 <= initial_price,
    ensures
        spec_buy_total(supply, amount1, fee_bps, initial_price) < spec_buy_total(
            supply,
            amount2,
            fee_bps,
            initial_price,
        ),
{
    lemma_buy_base_nonneg(supply, amount1, initial_price);
    lemma_buy_base_strict_in_amount(supply, amount1, amount2, initial_price);
    lemma_buy_total_strict_from_base(
        spec_buy_base(supply, amount1, initial_price),
        spec_buy_base(supply, amount2, initial_price),
        fee_bps,
    );
}

/// Law: at fixed amount, the fee-inclusive buy price is strictly increasing
/// in the starting supply, wherever the buy still ends strictly below the
/// virtual token cap.
pub proof fn lemma_buy_price_strict_in_supply(
    supply1: int,
    supply2: int,
    amount: int,
    fee_bps: int,
    initial_price: int,
)
    requires
        0 <= supply1 < supply2,
        0 <= amount,
        supply2 + amount < VIRTUAL_TOKEN_CAP,
        0 <= fee_bps,
        0 <= initial_price,
    ensures
        spec_buy_total(supply1, amount, fee_bps, initial_price) < spec_buy_total(
            supply2,
            amount,
            fee_bps,
            initial_price,
        ),
{
    lemma_buy_base_nonneg(supply1, amount, initial_price);
    lemma_buy_base_strict_in_supply(supply1, supply2, amount, initial_price);
    lemma_buy_total_strict_from_base(
        spec_buy_base(supply1, amount, initial_price),
        spec_buy_base(supply2, amount, initial_price),
        fee_bps,
    );
}

/// The instantaneous price is never negative.
proof fn lemma_price_at_supply_nonneg(supply: int, initial_price: int)
    requires
        0 <= supply,
        0 <= initial_price,
    ensures
        0 <= spec_price_at_supply(supply, initial_price),
{
    let sol = spec_virtual_sol(supply, initial_price);
    lemma_virtual_sol_lower_bound(supply, initial_price);
    lemma_mul_nonnegative(sol, VIRTUAL_TOKEN_CAP as int);
    lemma_div_pos_is_pos(sol * (VIRTUAL_TOKEN_CAP as int), spec_remaining_supply(supply));
    lemma_mul_nonnegative(spec_scaled_sol(supply, initial_price), initial_price);
    lemma_div_pos_is_pos(
        spec_scaled_sol(supply, initial_price) * initial_price,
        VIRTUAL_TOKEN_CAP as int,
    );
}

/// Law: a round trip never profits. Selling `amount` at `supply` and buying
/// the same amount back at the resulting supply costs at least the payout:
/// `sell_price(supply, amount) <= buy_price(supply - amount, amount)`.
///
/// Stated for a positive fee and an initial price of at most one base unit;
/// with a larger initial price the sell leg scales with the price while the
/// buy leg does not, and the claim fails.
pub proof fn lemma_sell_le_buy_round_trip(
    supply: int,
    amount: int,
    fee_bps: int,
    initial_price: int,
)
    requires
        1 <= amount <= supply <= VIRTUAL_TOKEN_CAP,
        0 < fee_bps,
        0 <= initial_price <= 1,
    ensures
        spec_sell_net(supply, amount, fee_bps, initial_price) <= spec_buy_total(
            supply - amount,
            amount,
            fee_bps,
            initial_price,
        ),
{
    let t = VIRTUAL_TOKEN_CAP as int;
    let res = VIRTUAL_RESERVE as int;
    let ip = initial_price;
    let lower = supply - amount;

    // With at most one base unit of initial price and the supply within the
    // cap, the virtual reserve stays exactly at its bootstrap constant.
    assert(0 <= supply * ip <= supply) by (nonlinear_arith)
        requires
            0 <= supply,
            0 <= ip <= 1,
    ;
    assert(0 <= lower * ip <= lower) by (nonlinear_arith)
        requires
            0 <= lower,
            0 <= ip <= 1,
    ;
    lemma_basic_div(supply * ip, RESERVE_SCALE as int);
    lemma_basic_div(lower * ip, RESERVE_SCALE as int);
    assert(spec_virtual_sol(supply, ip) == res);
    assert(spec_virtual_sol(lower, ip) == res);

    let r1 = spec_remaining_supply(supply);
    let r0 = spec_remaining_supply(lower);
    assert(r0 == t - lower);
    assert(1 <= r1 <= r0 <= t);

    let q1 = res * t / r1;
    let q0 = res * t / r0;
    let p1 = spec_price_at_supply(supply, ip);
    let p0 = spec_price_at_supply(lower, ip);
    let raw = spec_sell_raw(supply, amount, ip);
    let base = spec_buy_base(lower, amount, ip);
    assert(base == q1 - res);

    lemma_mul_nonnegative(res, t);
    lemma_div_pos_is_pos(res * t, r1);
    lemma_div_pos_is_pos(res * t, r0);
    lemma_price_at_supply_nonneg(supply, ip);
    lemma_price_at_supply_nonneg(lower, ip);

    // The buy total includes the base, and the base is nonnegative.
    lemma_scale_up_ge(res, t, r1);
    assert(0 <= base);
    lemma_scale_up_ge(base, BPS_DENOMINATOR + fee_bps, BPS_DENOMINATOR as int);
    assert(base <= spec_buy_total(lower, amount, fee_bps, ip));

    // The net payout never exceeds the raw payout.
    let x = (p0 + p1) * amount;
    lemma_mul_nonnegative(p0 + p1, amount);
    lemma_fundamental_div_mod(x, 2);
    lemma_mod_bound(x, 2);
    assert(raw == x / 2);
    lemma_div_pos_is_pos(x, 2);
    lemma_mul_nonnegative(raw, fee_bps);
    lemma_div_pos_is_pos(raw * fee_bps, BPS_DENOMINATOR as int);
    assert(spec_sell_net(supply, amount, fee_bps, ip) <= raw);

    if ip == 0 {
        // Both endpoint prices vanish, so the payout is zero.
        assert(p1 == 0);
        assert(p0 == 0);
        assert(raw == 0);
    } else {
        assert(ip == 1);
        assert(p1 == q1 / t);
        assert(p0 == q0 / t);

        // Each endpoint price times its remaining supply stays within the
        // bootstrap reserve.
        lemma_fundamental_div_mod(res * t, r1);
        lemma_mod_bound(res * t, r1);
        lemma_fundamental_div_mod(res * t, r0);
        lemma_mod_bound(res * t, r0);
        lemma_fundamental_div_mod(q1, t);
        lemma_mod_bound(q1, t);
        lemma_fundamental_div_mod(q0, t);
        lemma_mod_bound(q0, t);
        assert(p1 * r1 <= res) by (nonlinear_arith)
            requires
                q1 == t * (q1 / t) + q1 % t,
                0 <= q1 % t,
                p1 == q1 / t,
                res * t == r1 * q1 + (res * t) % r1,
                0 <= (res * t) % r1,
                1 <= r1,
                1 <= t,
        ;
        assert(p0 * r0 <= res) by (nonlinear_arith)
            requires
                q0 == t * (q0 / t) + q0 % t,
                0 <= q0 % t,
                p0 == q0 / t,
                res * t == r0 * q0 + (res * t) % r0,
                0 <= (res * t) % r0,
                1 <= r0,
                1 <= t,
        ;

        if amount == supply {
            // Full exit: the lower endpoint sits at zero supply, where the
            // price is exactly the bootstrap reserve over the cap.
            lemma_mul_is_commutative(res, t);
            lemma_div_multiples_vanish(res, t);
            assert(q0 == res);
            assert(p0 == res / t);
            assert(res / t == 50);
            if supply < t {
                assert(r1 == t - supply);
                assert((res + 50 * supply) * r1 <= res * t) by (nonlinear_arith)
                    requires
                        r1 == t - supply,
                        1 <= supply,
                        res == 500_000_000,
                        t == 10_000_000,
                ;
                lemma_mul_is_commutative(res + 50 * supply, r1);
                lemma_div_multiples_vanish(res + 50 * supply, r1);
                lemma_div_is_ordered((res + 50 * supply) * r1, res * t, r1);
                assert(res + 50 * supply <= q1);
                assert(p1 * supply <= q1 - res) by (nonlinear_arith)
                    requires
                        p1 * r1 <= res,
                        q1 * r1 >= res * t - r1 + 1,
                        t == supply + r1,
                        1 <= r1,
                        0 <= p1,
                        1 <= supply,
                        0 <= res,
                ;
                assert(x <= 2 * (q1 - res)) by (nonlinear_arith)
                    requires
                        x == (p0 + p1) * amount,
                        amount == supply,
                        p0 == 50,
                        p1 * supply <= q1 - res,
                        res + 50 * supply <= q1,
                        1 <= supply,
                ;
            } else {
                assert(supply == t);
                assert(r1 == 1);
                lemma_div_basics(res * t);
                assert(q1 == res * t);
                lemma_div_multiples_vanish(res, t);
                assert(p1 == res);
                assert(x <= 2 * (q1 - res)) by (nonlinear_arith)
                    requires
                        x == (p0 + p1) * amount,
                        amount == t,
                        p0 == 50,
                        p1 == res,
                        q1 == res * t,
                        res == 500_000_000,
                        t == 10_000_000,
                ;
            }
            lemma_mul_is_commutative(2, q1 - res);
            lemma_div_multiples_vanish(q1 - res, 2);
            lemma_div_is_ordered(x, 2 * (q1 - res), 2);
            assert(raw <= q1 - res);
        } else if supply < t {
            assert(r1 == t - supply);
            assert(r0 == r1 + amount);
            assert(raw * r1 <= amount * res) by (nonlinear_arith)
                requires
                    2 * raw <= x,
                    x == (p0 + p1) * amount,
                    p0 * r0 <= res,
                    p1 * r1 <= res,
                    0 <= p0,
                    0 <= p1,
                    0 <= raw,
                    1 <= r1 <= r0,
                    1 <= amount,
            ;
            assert(raw * r1 < (q1 - res) * r1) by (nonlinear_arith)
                requires
                    raw * r1 <= amount * res,
                    1 <= amount,
                    amount <= supply - 1,
                    supply == t - r1,
                    q1 * r1 >= res * t - r1 + 1,
                    1 <= r1,
                    r1 <= res,
                    0 <= res,
            ;
            assert(raw <= q1 - res) by (nonlinear_arith)
                requires
                    raw * r1 < (q1 - res) * r1,
                    1 <= r1,
            ;
        } else {
            // At the cap the remaining supply clamps to one: the upper
            // endpoint price is exactly the bootstrap reserve.
            assert(supply == t);
            assert(r1 == 1);
            lemma_div_basics(res * t);
            assert(q1 == res * t);
            lemma_mul_is_commutative(res, t);
            lemma_div_multiples_vanish(res, t);
            assert(p1 == res);
            assert(r0 == amount);
            assert(2 * raw <= res + res * amount) by (nonlinear_arith)
                requires
                    2 * raw <= x,
                    x == (p0 + p1) * amount,
                    p0 * amount <= res,
                    p1 == res,
                    0 <= p0,
                    0 <= raw,
                    1 <= amount,
            ;
            assert(raw <= res * t - res) by (nonlinear_arith)
                requires
                    2 * raw <= res + res * amount,
                    1 <= amount,
                    amount <= t - 1,
                    2 <= t,
                    0 <= res,
            ;
            assert(raw <= q1 - res);
        }
    }
    assert(raw <= base);
}

} // verus!
