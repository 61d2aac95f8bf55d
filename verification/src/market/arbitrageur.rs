//! Arbitrage against a mispriced AMM.
//!
//! For reserves `(x, y)`, invariant `k = x * y`, fee rate `f` and fair
//! price `p`, the profit-maximizing trade moves the X reserve to
//! `sqrt(k * (1 + f) / p)` when X is bought from the AMM and to
//! `sqrt(k * (1 - f) / p)` when X is sold to it. Here the square root is
//! taken down to a whole number of base units, and whether a trade of that
//! size is made rests on the AMM's own quote for it.

use crate::amm::{Amm, FeeQuote, PricingStrategy};
use crate::fixed_point::{
    find_reserve_target, lemma_reserve_target_is_the_boundary, reserve_fits, reserve_target, SCALE,
};
use vstd::prelude::*;

verus! {

/// The outcome of one executed arbitrage.
#[derive(Debug, Clone)]
pub struct ArbResult {
    /// Name of the AMM traded against.
    pub amm_name: String,
    /// Profit of the arbitrageur, in units of `1 / SCALE` of Y.
    pub profit: u128,
    /// `"buy"` or `"sell"`, from the AMM's point of view.
    pub side: &'static str,
    /// Quantity of X traded.
    pub amount_x: u64,
    /// Quantity of Y traded.
    pub amount_y: u64,
}

/// What the closed form advises against given reserves and fees.
#[derive(Clone, Copy, Debug)]
pub enum ArbPlan {
    /// No trade.
    Idle,
    /// Take `amount_x` of X out of the AMM.
    BuyFromAmm { amount_x: u64 },
    /// Put `amount_x` of X into the AMM.
    SellToAmm { amount_x: u64 },
}

/// The AMM's spot price `ry / rx` lies strictly below the fair price.
pub open spec fn spot_below(rx: u64, ry: u64, fair_price: u64) -> bool {
    ry * SCALE < fair_price * rx
}

/// The AMM's spot price `ry / rx` lies strictly above the fair price.
pub open spec fn spot_above(rx: u64, ry: u64, fair_price: u64) -> bool {
    ry * SCALE > fair_price * rx
}

/// `1 + f` for an ask fee, in units of `1 / SCALE`.
pub open spec fn ask_multiplier(ask_fee: u32) -> int {
    SCALE + ask_fee
}

/// `1 - f` for a bid fee, in units of `1 / SCALE`; zero for a fee of 100%
/// or more.
pub open spec fn bid_multiplier(bid_fee: u32) -> int {
    if bid_fee < SCALE {
        SCALE - bid_fee
    } else {
        0
    }
}

/// The largest quantity of X that may be taken out of reserves `rx`: 99%.
pub open spec fn buy_cap(rx: u64) -> int {
    rx * 99 / 100
}

/// How much X to buy from the AMM: the distance from `rx` down to the
/// closed-form reserve level, at most `buy_cap(rx)`; `None` where the
/// closed form does not lie below `rx`.
pub open spec fn buy_size_spec(rx: u64, ry: u64, ask_fee: u32, fair_price: u64) -> Option<u64> {
    let target = reserve_target(rx * ry * ask_multiplier(ask_fee), fair_price as int);
    if target >= rx {
        None
    } else if rx - target < buy_cap(rx) {
        Some((rx - target) as u64)
    } else {
        Some(buy_cap(rx) as u64)
    }
}

/// How much X to sell to the AMM: the distance from `rx` up to the
/// closed-form reserve level; `None` where the closed form does not lie
/// above `rx`.
pub open spec fn sell_size_spec(rx: u64, ry: u64, bid_fee: u32, fair_price: u64) -> Option<u64> {
    let target = reserve_target(rx * ry * bid_multiplier(bid_fee), fair_price as int);
    if target <= rx {
        None
    } else {
        Some((target - rx) as u64)
    }
}

/// The profit of buying `amount_x` from the AMM for `total_y`: the worth
/// of the X at the fair price less the Y paid. `None` where nothing is
/// quoted or nothing is gained.
pub open spec fn buy_profit_spec(amount_x: u64, total_y: u64, fair_price: u64) -> Option<u128> {
    if total_y > 0 && amount_x * fair_price > total_y * SCALE {
        Some((amount_x * fair_price - total_y * SCALE) as u128)
    } else {
        None
    }
}

/// The profit of selling `amount_x` to the AMM for `y_out`: the Y received
/// less the worth of the X at the fair price. `None` where nothing is
/// quoted or nothing is gained.
pub open spec fn sell_profit_spec(amount_x: u64, y_out: u64, fair_price: u64) -> Option<u128> {
    if y_out > 0 && y_out * SCALE > amount_x * fair_price {
        Some((y_out * SCALE - amount_x * fair_price) as u128)
    } else {
        None
    }
}

/// The trade that the closed form advises: a purchase where the AMM
/// underprices X, a sale where it overprices X, nothing at equality.
pub open spec fn arb_plan(rx: u64, ry: u64, fees: FeeQuote, fair_price: u64) -> ArbPlan {
    if spot_below(rx, ry, fair_price) {
        match buy_size_spec(rx, ry, fees.ask_fee, fair_price) {
            Some(amount_x) => ArbPlan::BuyFromAmm { amount_x },
            None => ArbPlan::Idle,
        }
    } else if spot_above(rx, ry, fair_price) {
        match sell_size_spec(rx, ry, fees.bid_fee, fair_price) {
            Some(amount_x) => ArbPlan::SellToAmm { amount_x },
            None => ArbPlan::Idle,
        }
    } else {
        ArbPlan::Idle
    }
}

impl ArbResult {
    /// The result records a trade that gains at `fair_price`: its profit is
    /// the one its side and its amounts give, and is positive.
    pub open spec fn settles_at(self, fair_price: u64) -> bool {
        ||| self.side@ == "sell"@ && buy_profit_spec(self.amount_x, self.amount_y, fair_price)
            == Some(self.profit)
        ||| self.side@ == "buy"@ && sell_profit_spec(self.amount_x, self.amount_y, fair_price)
            == Some(self.profit)
    }
}

/// What buying `amount_x` of X from `amm` comes to: a result where the
/// AMM's quote for `amount_x` leaves a profit at `fair_price` and the AMM
/// then executes the trade, and nothing otherwise. The result carries the
/// name of the AMM, the side `"sell"`, the amount and the quoted Y.
pub open spec fn buy_arb_result<S: PricingStrategy>(
    amm: Amm<S>,
    amount_x: u64,
    fair_price: u64,
    timestamp: u64,
) -> Option<ArbResult> {
    let total_y = amm.strategy.spec_quote_sell_x(amount_x).0;
    match buy_profit_spec(amount_x, total_y, fair_price) {
        Some(profit) => match amm.strategy.spec_sell_x(amount_x, timestamp) {
            Some(_) => Some(
                ArbResult { amm_name: amm.name, profit, side: "sell", amount_x, amount_y: total_y },
            ),
            None => None,
        },
        None => None,
    }
}

/// The AMM after an attempt to buy `amount_x` of X from it: as its
/// execution leaves it where the quote left a profit, untouched otherwise.
pub open spec fn after_buy_arb<S: PricingStrategy>(
    amm: Amm<S>,
    amount_x: u64,
    fair_price: u64,
    timestamp: u64,
) -> Amm<S> {
    let total_y = amm.strategy.spec_quote_sell_x(amount_x).0;
    if buy_profit_spec(amount_x, total_y, fair_price) is Some {
        Amm { name: amm.name, strategy: amm.strategy.spec_after_sell_x(amount_x, timestamp) }
    } else {
        amm
    }
}

/// What selling `amount_x` of X to `amm` comes to: a result where the
/// AMM's quote for `amount_x` leaves a profit at `fair_price` and the AMM
/// then executes the trade, and nothing otherwise. The result carries the
/// name of the AMM, the side `"buy"`, the amount and the quoted Y.
pub open spec fn sell_arb_result<S: PricingStrategy>(
    amm: Amm<S>,
    amount_x: u64,
    fair_price: u64,
    timestamp: u64,
) -> Option<ArbResult> {
    let y_out = amm.strategy.spec_quote_buy_x(amount_x).0;
    match sell_profit_spec(amount_x, y_out, fair_price) {
        Some(profit) => match amm.strategy.spec_buy_x(amount_x, timestamp) {
            Some(_) => Some(
                ArbResult { amm_name: amm.name, profit, side: "buy", amount_x, amount_y: y_out },
            ),
            None => None,
        },
        None => None,
    }
}

/// The AMM after an attempt to sell `amount_x` of X to it: as its
/// execution leaves it where the quote left a profit, untouched otherwise.
pub open spec fn after_sell_arb<S: PricingStrategy>(
    amm: Amm<S>,
    amount_x: u64,
    fair_price: u64,
    timestamp: u64,
) -> Amm<S> {
    let y_out = amm.strategy.spec_quote_buy_x(amount_x).0;
    if sell_profit_spec(amount_x, y_out, fair_price) is Some {
        Amm { name: amm.name, strategy: amm.strategy.spec_after_buy_x(amount_x, timestamp) }
    } else {
        amm
    }
}

/// What carrying out `plan` against `amm` comes to.
pub open spec fn plan_result<S: PricingStrategy>(
    amm: Amm<S>,
    plan: ArbPlan,
    fair_price: u64,
    timestamp: u64,
) -> Option<ArbResult> {
    match plan {
        ArbPlan::BuyFromAmm { amount_x } => buy_arb_result(amm, amount_x, fair_price, timestamp),
        ArbPlan::SellToAmm { amount_x } => sell_arb_result(amm, amount_x, fair_price, timestamp),
        ArbPlan::Idle => None,
    }
}

/// The AMM after `plan` was carried out against it.
pub open spec fn after_plan<S: PricingStrategy>(
    amm: Amm<S>,
    plan: ArbPlan,
    fair_price: u64,
    timestamp: u64,
) -> Amm<S> {
    match plan {
        ArbPlan::BuyFromAmm { amount_x } => after_buy_arb(amm, amount_x, fair_price, timestamp),
        ArbPlan::SellToAmm { amount_x } => after_sell_arb(amm, amount_x, fair_price, timestamp),
        ArbPlan::Idle => amm,
    }
}

/// The trade that the closed form advises against `amm` as it stands.
pub open spec fn plan_for<S: PricingStrategy>(amm: Amm<S>, fair_price: u64) -> ArbPlan {
    arb_plan(
        amm.strategy.spec_reserves().0,
        amm.strategy.spec_reserves().1,
        amm.strategy.spec_fees(),
        fair_price,
    )
}

/// What an arbitrage against `amm` at `fair_price` comes to: the outcome
/// of the plan for its reserves and fees.
pub open spec fn arb_result<S: PricingStrategy>(amm: Amm<S>, fair_price: u64, timestamp: u64) -> Option<
    ArbResult,
> {
    plan_result(amm, plan_for(amm, fair_price), fair_price, timestamp)
}

/// The AMM after an arbitrage against it at `fair_price`.
pub open spec fn after_arb<S: PricingStrategy>(amm: Amm<S>, fair_price: u64, timestamp: u64) -> Amm<
    S,
> {
    after_plan(amm, plan_for(amm, fair_price), fair_price, timestamp)
}

/// The profit that a result records is positive, and is exactly the worth
/// at the fair price of what the arbitrageur got less that of what it gave.
pub proof fn lemma_profit_is_positive(a: ArbResult, fair_price: u64)
    requires
        a.settles_at(fair_price),
    ensures
        a.profit > 0,
        a.amount_y > 0,
        a.side@ == "sell"@ ==> a.profit == a.amount_x * fair_price - a.amount_y * SCALE,
        a.side@ == "buy"@ ==> a.profit == a.amount_y * SCALE - a.amount_x * fair_price,
{
    reveal_strlit("sell");
    reveal_strlit("buy");
    assert("sell"@.len() == 4);
    assert("buy"@.len() == 3);
    assert(a.amount_x * fair_price <= 0xffff_ffff_ffff_ffff * 0xffff_ffff_ffff_ffff)
        by (nonlinear_arith)
        requires
            0 <= a.amount_x <= 0xffff_ffff_ffff_ffff,
            0 <= fair_price <= 0xffff_ffff_ffff_ffff,
    ;
    assert(0 <= a.amount_x * fair_price) by (nonlinear_arith)
        requires
            0 <= a.amount_x,
            0 <= fair_price,
    ;
}

/// An arbitrage follows the mispricing of the AMM it meets. It buys X only
/// from an AMM whose spot price is below the fair price, then the
/// closed-form size, which is at most 99% of the X reserves; it sells X
/// only to one whose spot price is above; where the two prices agree it
/// asks nothing of the AMM. Whatever it does gains.
pub proof fn lemma_arbitrage_follows_mispricing<S: PricingStrategy>(
    amm: Amm<S>,
    fair_price: u64,
    timestamp: u64,
)
    ensures
        after_arb(amm, fair_price, timestamp).name == amm.name,
        arb_result(amm, fair_price, timestamp) matches Some(a) ==> {
            &&& a.amm_name == amm.name
            &&& a.settles_at(fair_price)
            &&& a.profit > 0
            &&& a.side@ == "sell"@ || a.side@ == "buy"@
            &&& a.side@ == "sell"@ ==> {
                &&& spot_below(
                    amm.strategy.spec_reserves().0,
                    amm.strategy.spec_reserves().1,
                    fair_price,
                )
                &&& buy_size_spec(
                    amm.strategy.spec_reserves().0,
                    amm.strategy.spec_reserves().1,
                    amm.strategy.spec_fees().ask_fee,
                    fair_price,
                ) == Some(a.amount_x)
                &&& 100 * a.amount_x <= 99 * amm.strategy.spec_reserves().0
            }
            &&& a.side@ == "buy"@ ==> {
                &&& spot_above(
                    amm.strategy.spec_reserves().0,
                    amm.strategy.spec_reserves().1,
                    fair_price,
                )
                &&& sell_size_spec(
                    amm.strategy.spec_reserves().0,
                    amm.strategy.spec_reserves().1,
                    amm.strategy.spec_fees().bid_fee,
                    fair_price,
                ) == Some(a.amount_x)
            }
        },
        !spot_below(amm.strategy.spec_reserves().0, amm.strategy.spec_reserves().1, fair_price)
            && !spot_above(
            amm.strategy.spec_reserves().0,
            amm.strategy.spec_reserves().1,
            fair_price,
        ) ==> arb_result(amm, fair_price, timestamp) is None && after_arb(
            amm,
            fair_price,
            timestamp,
        ) == amm,
{
    reveal_strlit("sell");
    reveal_strlit("buy");
    assert("sell"@.len() == 4);
    assert("buy"@.len() == 3);
    if arb_result(amm, fair_price, timestamp) is Some {
        lemma_profit_is_positive(arb_result(amm, fair_price, timestamp)->0, fair_price);
    }
}

/// X is bought from the AMM only where its spot price is below the fair
/// price, sold to it only where its spot price is above, and at equality
/// nothing is traded.
pub proof fn lemma_plan_follows_mispricing(rx: u64, ry: u64, fees: FeeQuote, fair_price: u64)
    ensures
        arb_plan(rx, ry, fees, fair_price) is BuyFromAmm ==> spot_below(rx, ry, fair_price),
        arb_plan(rx, ry, fees, fair_price) is SellToAmm ==> spot_above(rx, ry, fair_price),
        !spot_below(rx, ry, fair_price) && !spot_above(rx, ry, fair_price) ==> arb_plan(
            rx,
            ry,
            fees,
            fair_price,
        ) is Idle,
{
}

/// A trade is planned only where the mispricing is worth more than the
/// fee: X is bought exactly where the spot price with the ask fee on top is
/// still below the fair price, and sold only where the spot price with the
/// bid fee taken off is not below it.
pub proof fn lemma_plan_needs_more_than_the_fee(rx: u64, ry: u64, fees: FeeQuote, fair_price: u64)
    ensures
        arb_plan(rx, ry, fees, fair_price) is BuyFromAmm <==> ry * ask_multiplier(fees.ask_fee)
            < fair_price * rx,
        arb_plan(rx, ry, fees, fair_price) is SellToAmm ==> ry * bid_multiplier(fees.bid_fee)
            >= fair_price * rx,
{
    let x = rx as int;
    let y = ry as int;
    let p = fair_price as int;
    let ask = ask_multiplier(fees.ask_fee);
    let bid = bid_multiplier(fees.bid_fee);
    assert(x * y * ask >= 0 && x * y * bid >= 0) by (nonlinear_arith)
        requires
            x >= 0,
            y >= 0,
            ask >= 0,
            bid >= 0,
    ;
    lemma_reserve_target_is_the_boundary(x, x * y * ask, p);
    assert(reserve_fits(x, x * y * ask, p) <==> !(y * ask < p * x)) by (nonlinear_arith)
        requires
            x >= 0,
            y >= 0,
            ask >= 0,
            p >= 0,
            reserve_fits(x, x * y * ask, p) <==> x * x * p <= x * y * ask,
    ;
    assert(y * ask < p * x ==> y * SCALE < p * x) by (nonlinear_arith)
        requires
            y >= 0,
            ask >= SCALE,
    ;
    if arb_plan(rx, ry, fees, fair_price) is SellToAmm {
        lemma_reserve_target_is_the_boundary(x, x * y * bid, p);
        lemma_reserve_target_is_the_boundary(x + 1, x * y * bid, p);
        assert(y * bid >= p * x) by (nonlinear_arith)
            requires
                x >= 0,
                y >= 0,
                bid >= 0,
                p >= 0,
                (x + 1) * (x + 1) * p <= x * y * bid,
        ;
    }
}

/// `n` times what an arbitrageur gains, in units of `1 / SCALE` of Y, by
/// moving the X reserve of an ideal constant-product AMM from `rx` to `n`.
///
/// Such an AMM holds `rx * ry` constant, so its Y reserve goes from `ry`
/// to `rx * ry / n`, and what the arbitrageur pays or receives for that is
/// the difference times the multiplier: `1 + f` where X is bought
/// (`n < rx`), `1 - f` where it is sold (`n > rx`). Together with the worth
/// of the X at the fair price the gain is
/// `(rx - n) * price + multiplier * (ry - rx * ry / n)`; it is given here
/// times `n`, which keeps it whole.
pub open spec fn ideal_gain_times(n: int, rx: int, ry: int, multiplier: int, price: int) -> int {
    n * ((rx - n) * price + multiplier * ry) - multiplier * (rx * ry)
}

/// The closed form is where the gain against an ideal constant-product AMM
/// peaks: of two reserve levels on the same side of the target, the one
/// nearer to it gains at least as much. (Gains are compared across the
/// reserve levels they are multiplied by.)
pub proof fn lemma_ideal_gain_peaks_at_target(
    lower: int,
    upper: int,
    rx: int,
    ry: int,
    multiplier: int,
    price: int,
)
    requires
        0 < lower <= upper <= u64::MAX,
        0 <= rx,
        0 <= ry,
        0 <= multiplier,
        0 <= price,
    ensures
        upper <= reserve_target(rx * ry * multiplier, price) ==> lower * ideal_gain_times(
            upper,
            rx,
            ry,
            multiplier,
            price,
        ) >= upper * ideal_gain_times(lower, rx, ry, multiplier, price),
        reserve_target(rx * ry * multiplier, price) < lower ==> upper * ideal_gain_times(
            lower,
            rx,
            ry,
            multiplier,
            price,
        ) >= lower * ideal_gain_times(upper, rx, ry, multiplier, price),
{
    let k = rx * ry * multiplier;
    let at_lower = ideal_gain_times(lower, rx, ry, multiplier, price);
    let at_upper = ideal_gain_times(upper, rx, ry, multiplier, price);
    assert(k >= 0) by (nonlinear_arith)
        requires
            k == rx * ry * multiplier,
            0 <= rx,
            0 <= ry,
            0 <= multiplier,
    ;
    // upper * at_lower - lower * at_upper == (upper - lower) * (lower * upper * price - k)
    let both = lower * upper;
    let per_lower = (rx - lower) * price + multiplier * ry;
    let per_upper = (rx - upper) * price + multiplier * ry;
    assert(k == multiplier * (rx * ry)) by (nonlinear_arith)
        requires
            k == rx * ry * multiplier,
    ;
    assert(per_lower - per_upper == (upper - lower) * price) by (nonlinear_arith)
        requires
            per_lower == (rx - lower) * price + multiplier * ry,
            per_upper == (rx - upper) * price + multiplier * ry,
    ;
    assert(upper * at_lower == both * per_lower - upper * k) by (nonlinear_arith)
        requires
            at_lower == lower * per_lower - k,
            both == lower * upper,
    ;
    assert(lower * at_upper == both * per_upper - lower * k) by (nonlinear_arith)
        requires
            at_upper == upper * per_upper - k,
            both == lower * upper,
    ;
    assert(both * per_lower - both * per_upper == both * ((upper - lower) * price))
        by (nonlinear_arith)
        requires
            per_lower - per_upper == (upper - lower) * price,
    ;
    assert(both * ((upper - lower) * price) - (upper - lower) * k == (upper - lower) * (both
        * price - k)) by (nonlinear_arith);
    assert((upper - lower) * k == upper * k - lower * k) by (nonlinear_arith);
    assert(upper * at_lower - lower * at_upper == (upper - lower) * (lower * upper * price - k));
    lemma_reserve_target_is_the_boundary(lower, k, price);
    lemma_reserve_target_is_the_boundary(upper, k, price);
    if upper <= reserve_target(k, price) {
        assert((upper - lower) * (lower * upper * price - k) <= 0) by (nonlinear_arith)
            requires
                0 < lower <= upper,
                0 <= price,
                upper * upper * price <= k,
        ;
    }
    if reserve_target(k, price) < lower {
        assert((upper - lower) * (lower * upper * price - k) >= 0) by (nonlinear_arith)
            requires
                0 < lower <= upper,
                0 <= price,
                lower * lower * price > k,
        ;
    }
}

/// A purchase from the AMM never takes more than 99% of its X reserves,
/// and never nothing from reserves of two units or more. (Of a single
/// unit, 99% is less than a unit, so the size is zero and the AMM's quote
/// for it decides that nothing is traded.)
pub proof fn lemma_buy_size_is_capped(rx: u64, ry: u64, ask_fee: u32, fair_price: u64)
    requires
        buy_size_spec(rx, ry, ask_fee, fair_price) is Some,
    ensures
        100 * buy_size_spec(rx, ry, ask_fee, fair_price)->0 <= 99 * rx,
        rx >= 2 ==> buy_size_spec(rx, ry, ask_fee, fair_price)->0 > 0,
{
}

/// Extracts profit from mispriced AMMs.
pub struct Arbitrageur;

impl Default for Arbitrageur {
    fn default() -> (r: Self)
        ensures
            r == Arbitrageur,
    {
        Arbitrageur
    }
}

impl Arbitrageur {
    /// A new arbitrageur.
    pub fn new() -> (r: Self)
        ensures
            r == Arbitrageur,
    {
        Arbitrageur
    }

    /// Computes `buy_size_spec`: the size of a purchase from the AMM, which
    /// is at most 99% of its X reserves.
    pub fn buy_size(rx: u64, ry: u64, ask_fee: u32, fair_price: u64) -> (r: Option<u64>)
        ensures
            r == buy_size_spec(rx, ry, ask_fee, fair_price),
            r matches Some(amount_x) ==> 100 * amount_x <= 99 * rx,
    {
        let multiplier: u64 = SCALE + (ask_fee as u64);
        let target: u64 = find_reserve_target(rx, ry, multiplier, fair_price);
        if target >= rx {
            return None;
        }
        let wanted: u64 = rx - target;
        let cap: u64 = ((rx as u128) * 99 / 100) as u64;
        if wanted < cap {
            Some(wanted)
        } else {
            Some(cap)
        }
    }

    /// Computes `sell_size_spec`: the size of a sale to the AMM.
    pub fn sell_size(rx: u64, ry: u64, bid_fee: u32, fair_price: u64) -> (r: Option<u64>)
        ensures
            r == sell_size_spec(rx, ry, bid_fee, fair_price),
    {
        let multiplier: u64 = if (bid_fee as u64) < SCALE {
            SCALE - (bid_fee as u64)
        } else {
            0
        };
        let target: u64 = find_reserve_target(rx, ry, multiplier, fair_price);
        if target <= rx {
            None
        } else {
            Some(target - rx)
        }
    }

    /// Computes `buy_profit_spec`: what a purchase from the AMM gains, if
    /// anything.
    pub fn buy_profit(amount_x: u64, total_y: u64, fair_price: u64) -> (r: Option<u128>)
        ensures
            r == buy_profit_spec(amount_x, total_y, fair_price),
    {
        if total_y == 0 {
            return None;
        }
        assert(amount_x * fair_price <= 0xffff_ffff_ffff_ffff * 0xffff_ffff_ffff_ffff)
            by (nonlinear_arith)
            requires
                0 <= amount_x <= 0xffff_ffff_ffff_ffff,
                0 <= fair_price <= 0xffff_ffff_ffff_ffff,
        ;
        let worth: u128 = (amount_x as u128) * (fair_price as u128);
        let paid: u128 = (total_y as u128) * (SCALE as u128);
        if worth > paid {
            Some(worth - paid)
        } else {
            None
        }
    }

    /// Computes `sell_profit_spec`: what a sale to the AMM gains, if
    /// anything.
    pub fn sell_profit(amount_x: u64, y_out: u64, fair_price: u64) -> (r: Option<u128>)
        ensures
            r == sell_profit_spec(amount_x, y_out, fair_price),
    {
        if y_out == 0 {
            return None;
        }
        assert(amount_x * fair_price <= 0xffff_ffff_ffff_ffff * 0xffff_ffff_ffff_ffff)
            by (nonlinear_arith)
            requires
                0 <= amount_x <= 0xffff_ffff_ffff_ffff,
                0 <= fair_price <= 0xffff_ffff_ffff_ffff,
        ;
        let cost: u128 = (amount_x as u128) * (fair_price as u128);
        let received: u128 = (y_out as u128) * (SCALE as u128);
        if received > cost {
            Some(received - cost)
        } else {
            None
        }
    }

    /// Computes `arb_plan`: which way to trade against reserves `(rx, ry)`
    /// under `fees` at `fair_price`, and how much. X is bought only from an
    /// AMM whose spot price is below the fair price, and then at most 99%
    /// of its reserves; X is sold only to one whose spot price is above.
    pub fn plan(&self, rx: u64, ry: u64, fees: FeeQuote, fair_price: u64) -> (r: ArbPlan)
        ensures
            r == arb_plan(rx, ry, fees, fair_price),
            r matches ArbPlan::BuyFromAmm { amount_x } ==> spot_below(rx, ry, fair_price) && 100
                * amount_x <= 99 * rx,
            r is SellToAmm ==> spot_above(rx, ry, fair_price),
    {
        assert(fair_price * rx <= 0xffff_ffff_ffff_ffff * 0xffff_ffff_ffff_ffff)
            by (nonlinear_arith)
            requires
                0 <= rx <= 0xffff_ffff_ffff_ffff,
                0 <= fair_price <= 0xffff_ffff_ffff_ffff,
        ;
        assert(ry * SCALE <= 0xffff_ffff_ffff_ffff * 1_000_000_000);
        let spot: u128 = (ry as u128) * (SCALE as u128);
        let fair: u128 = (fair_price as u128) * (rx as u128);
        if spot < fair {
            match Self::buy_size(rx, ry, fees.ask_fee, fair_price) {
                Some(amount_x) => ArbPlan::BuyFromAmm { amount_x },
                None => ArbPlan::Idle,
            }
        } else if spot > fair {
            match Self::sell_size(rx, ry, fees.bid_fee, fair_price) {
                Some(amount_x) => ArbPlan::SellToAmm { amount_x },
                None => ArbPlan::Idle,
            }
        } else {
            ArbPlan::Idle
        }
    }

    /// Finds and executes the best trade against `amm` at `fair_price`: the
    /// trade that `plan` advises for the reserves and fees that `amm`
    /// reports, carried out by `execute_plan`.
    ///
    /// The result and the AMM afterwards are exactly `arb_result` and
    /// `after_arb`. A result is returned only for a trade whose quote
    /// showed a positive profit, and it names `amm`.
    pub fn execute_arb<S: PricingStrategy>(
        &self,
        amm: &mut Amm<S>,
        fair_price: u64,
        timestamp: u64,
    ) -> (r: Option<ArbResult>)
        ensures
            r == arb_result(*old(amm), fair_price, timestamp),
            *final(amm) == after_arb(*old(amm), fair_price, timestamp),
            final(amm).name == old(amm).name,
            r matches Some(a) ==> {
                &&& a.amm_name == old(amm).name
                &&& a.settles_at(fair_price)
                &&& a.profit > 0
            },
    {
        let (rx, ry) = amm.strategy.reserves();
        let fees: FeeQuote = amm.strategy.fees();
        let plan: ArbPlan = self.plan(rx, ry, fees, fair_price);
        self.execute_plan(amm, plan, fair_price, timestamp)
    }

    /// Carries out `plan` against `amm`, if the AMM's quote for it leaves a
    /// profit at `fair_price` and the AMM then executes it.
    ///
    /// The result and the AMM afterwards are exactly `plan_result` and
    /// `after_plan`. Nothing is asked of the AMM for an idle plan. A result
    /// is for a trade of exactly the planned size and direction.
    pub fn execute_plan<S: PricingStrategy>(
        &self,
        amm: &mut Amm<S>,
        plan: ArbPlan,
        fair_price: u64,
        timestamp: u64,
    ) -> (r: Option<ArbResult>)
        ensures
            r == plan_result(*old(amm), plan, fair_price, timestamp),
            *final(amm) == after_plan(*old(amm), plan, fair_price, timestamp),
            final(amm).name == old(amm).name,
            plan is Idle ==> r is None && *final(amm) == *old(amm),
            r matches Some(a) ==> {
                &&& a.amm_name == old(amm).name
                &&& a.settles_at(fair_price)
                &&& a.profit > 0
                &&& match plan {
                    ArbPlan::BuyFromAmm { amount_x } => a.side@ == "sell"@ && a.amount_x
                        == amount_x,
                    ArbPlan::SellToAmm { amount_x } => a.side@ == "buy"@ && a.amount_x == amount_x,
                    ArbPlan::Idle => false,
                }
            },
    {
        let found: Option<ArbResult> = match plan {
            ArbPlan::BuyFromAmm { amount_x } => self.compute_buy_arb(
                amm,
                amount_x,
                fair_price,
                timestamp,
            ),
            ArbPlan::SellToAmm { amount_x } => self.compute_sell_arb(
                amm,
                amount_x,
                fair_price,
                timestamp,
            ),
            ArbPlan::Idle => None,
        };
        proof {
            if found is Some {
                lemma_profit_is_positive(found->0, fair_price);
            }
        }
        found
    }

    /// Buys `amount_x` of X from `amm` if its quote leaves a profit: asks
    /// for a quote, and has the trade executed at `timestamp` where the
    /// quoted Y is positive and worth less than the X at `fair_price`. The
    /// result is for the quoted Y; there is none where the quote leaves no
    /// profit, which leaves the AMM untouched, or where the AMM declines.
    pub fn compute_buy_arb<S: PricingStrategy>(
        &self,
        amm: &mut Amm<S>,
        amount_x: u64,
        fair_price: u64,
        timestamp: u64,
    ) -> (r: Option<ArbResult>)
        ensures
            r == buy_arb_result(*old(amm), amount_x, fair_price, timestamp),
            *final(amm) == after_buy_arb(*old(amm), amount_x, fair_price, timestamp),
            final(amm).name == old(amm).name,
            r matches Some(a) ==> {
                &&& a.amm_name == old(amm).name
                &&& a.side@ == "sell"@
                &&& a.amount_x == amount_x
                &&& buy_profit_spec(amount_x, a.amount_y, fair_price) == Some(a.profit)
            },
    {
        let (total_y, _) = amm.strategy.quote_sell_x(amount_x);
        let profit: u128 = match Self::buy_profit(amount_x, total_y, fair_price) {
            Some(profit) => profit,
            None => {
                return None;
            },
        };
        match amm.strategy.execute_sell_x(amount_x, timestamp) {
            Some(_) => Some(
                ArbResult {
                    amm_name: amm.name.clone(),
                    profit,
                    side: "sell",
                    amount_x,
                    amount_y: total_y,
                },
            ),
            None => None,
        }
    }

    /// Sells `amount_x` of X to `amm` if its quote leaves a profit: asks
    /// for a quote, and has the trade executed at `timestamp` where the
    /// quoted Y is positive and worth more than the X at `fair_price`. The
    /// result is for the quoted Y; there is none where the quote leaves no
    /// profit, which leaves the AMM untouched, or where the AMM declines.
    pub fn compute_sell_arb<S: PricingStrategy>(
        &self,
        amm: &mut Amm<S>,
        amount_x: u64,
        fair_price: u64,
        timestamp: u64,
    ) -> (r: Option<ArbResult>)
        ensures
            r == sell_arb_result(*old(amm), amount_x, fair_price, timestamp),
            *final(amm) == after_sell_arb(*old(amm), amount_x, fair_price, timestamp),
            final(amm).name == old(amm).name,
            r matches Some(a) ==> {
                &&& a.amm_name == old(amm).name
                &&& a.side@ == "buy"@
                &&& a.amount_x == amount_x
                &&& sell_profit_spec(amount_x, a.amount_y, fair_price) == Some(a.profit)
            },
    {
        let (y_out, _) = amm.strategy.quote_buy_x(amount_x);
        let profit: u128 = match Self::sell_profit(amount_x, y_out, fair_price) {
            Some(profit) => profit,
            None => {
                return None;
            },
        };
        match amm.strategy.execute_buy_x(amount_x, timestamp) {
            Some(_) => Some(
                ArbResult {
                    amm_name: amm.name.clone(),
                    profit,
                    side: "buy",
                    amount_x,
                    amount_y: y_out,
                },
            ),
            None => None,
        }
    }

    /// Runs `execute_arb` on each AMM in turn and collects the results.
    ///
    /// The results are exactly `collected_results`, and each AMM is left as
    /// an arbitrage against it alone leaves it. So the results come in the
    /// order of the AMMs they name: `picked` in the contract gives, for
    /// each result, the position of its AMM.
    pub fn arbitrage_all<S: PricingStrategy>(
        &self,
        amms: &mut [Amm<S>],
        fair_price: u64,
        timestamp: u64,
    ) -> (r: Vec<ArbResult>)
        ensures
            r@ == collected_results(old(amms)@, fair_price, timestamp),
            final(amms)@.len() == old(amms)@.len(),
            forall|i: int|
                0 <= i < old(amms)@.len() ==> #[trigger] final(amms)@[i] == after_arb(
                    old(amms)@[i],
                    fair_price,
                    timestamp,
                ),
            same_names(old(amms)@, final(amms)@),
            forall|j: int| 0 <= j < r.len() ==> (#[trigger] r[j]).settles_at(fair_price),
            exists|picked: Seq<int>| names_in_order(r@, old(amms)@, picked),
    {
        let mut results: Vec<ArbResult> = Vec::new();
        let ghost mut picked: Seq<int> = Seq::empty();
        let n: usize = amms.len();
        let mut i: usize = 0;
        while i < n
            invariant
                i <= n,
                n == amms.len(),
                same_names(old(amms)@, amms@),
                results@ == collected_results(old(amms)@.take(i as int), fair_price, timestamp),
                forall|j: int|
                    0 <= j < i ==> #[trigger] amms@[j] == after_arb(
                        old(amms)@[j],
                        fair_price,
                        timestamp,
                    ),
                forall|j: int| i <= j < n ==> #[trigger] amms@[j] == old(amms)@[j],
                forall|j: int| 0 <= j < results.len() ==> (#[trigger] results[j]).settles_at(fair_price),
                names_in_order(results@, old(amms)@, picked),
                forall|j: int| 0 <= j < picked.len() ==> picked[j] < i,
            decreases n - i,
        {
            proof {
                assert(old(amms)@.take(i + 1).drop_last() =~= old(amms)@.take(i as int));
                assert(old(amms)@.take(i + 1).last() == old(amms)@[i as int]);
            }
            let found: Option<ArbResult> = self.execute_arb(&mut amms[i], fair_price, timestamp);
            if let Some(a) = found {
                results.push(a);
                proof {
                    picked = picked.push(i as int);
                }
            }
            i = i + 1;
        }
        assert(old(amms)@.take(i as int) =~= old(amms)@);
        results
    }
}

/// The results of an arbitrage against each of `amms` in turn, those that
/// came to nothing left out.
pub open spec fn collected_results<S: PricingStrategy>(
    amms: Seq<Amm<S>>,
    fair_price: u64,
    timestamp: u64,
) -> Seq<ArbResult>
    decreases amms.len(),
{
    if amms.len() == 0 {
        Seq::empty()
    } else {
        let before = collected_results(amms.drop_last(), fair_price, timestamp);
        match arb_result(amms.last(), fair_price, timestamp) {
            Some(a) => before.push(a),
            None => before,
        }
    }
}

/// Two lists of AMMs are equally long and carry the same names in the
/// same places.
pub open spec fn same_names<S>(before: Seq<Amm<S>>, after: Seq<Amm<S>>) -> bool {
    &&& before.len() == after.len()
    &&& forall|i: int| 0 <= i < before.len() ==> (#[trigger] after[i]).name == before[i].name
}

/// Each of `results` names the AMM at the position that `picked` gives for
/// it, and these positions increase.
pub open spec fn names_in_order<S>(
    results: Seq<ArbResult>,
    amms: Seq<Amm<S>>,
    picked: Seq<int>,
) -> bool {
    &&& picked.len() == results.len()
    &&& forall|j: int|
        0 <= j < results.len() ==> 0 <= #[trigger] picked[j] < amms.len() && results[j].amm_name
            == amms[picked[j]].name
    &&& forall|j: int, k: int| 0 <= j < k < picked.len() ==> picked[j] < picked[k]
}

} // verus!
