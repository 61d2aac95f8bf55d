//! A constant-product AMM with fixed fees.
//!
//! The pool holds `x * y` constant before fees and charges its fees in Y:
//! on top of what a taker pays for X, and out of what a taker receives for
//! X. Every division rounds in the pool's favour.

use crate::amm::{FeeQuote, PricingStrategy, TradeInfo};
use crate::fixed_point::SCALE;
use vstd::prelude::*;

verus! {

/// `a / b`, rounded up.
pub open spec fn ceil_div(a: int, b: int) -> int {
    (a + b - 1) / b
}

/// The fee on `amount` of Y at `rate`, rounded up.
pub open spec fn fee_on(amount: int, rate: u32) -> int {
    ceil_div(amount * rate, SCALE as int)
}

/// A constant-product AMM with fixed fees.
#[derive(Clone, Copy, Debug)]
pub struct ConstantProductPool {
    /// X reserves.
    pub reserve_x: u64,
    /// Y reserves.
    pub reserve_y: u64,
    /// Fee rates, which never change.
    pub fees: FeeQuote,
    /// Fees collected so far, in Y.
    pub collected_y: u64,
}

impl ConstantProductPool {
    /// The Y that the reserves need for `amount_x` of X taken out, before
    /// the fee: `y * amount_x / (x - amount_x)`, rounded up.
    pub open spec fn sell_net(self, amount_x: u64) -> int {
        ceil_div(self.reserve_y * amount_x, self.reserve_x - amount_x)
    }

    /// The Y that the reserves give for `amount_x` of X put in, before the
    /// fee: `y * amount_x / (x + amount_x)`, rounded down.
    pub open spec fn buy_gross(self, amount_x: u64) -> int {
        self.reserve_y * amount_x / (self.reserve_x + amount_x)
    }

    /// An empty pool that charges `fees`.
    pub fn new(fees: FeeQuote) -> (r: Self)
        ensures
            r == (ConstantProductPool { reserve_x: 0, reserve_y: 0, fees, collected_y: 0 }),
    {
        ConstantProductPool { reserve_x: 0, reserve_y: 0, fees, collected_y: 0 }
    }
}

impl PricingStrategy for ConstantProductPool {
    /// A pool takes any reserves.
    open spec fn spec_initialize(&self, initial_x: u64, initial_y: u64) -> Result<(), String> {
        Ok(())
    }

    /// The pool with the initial reserves and no collected fees.
    open spec fn spec_after_initialize(&self, initial_x: u64, initial_y: u64) -> Self {
        ConstantProductPool {
            reserve_x: initial_x,
            reserve_y: initial_y,
            fees: self.fees,
            collected_y: 0,
        }
    }

    open spec fn spec_reserves(&self) -> (u64, u64) {
        (self.reserve_x, self.reserve_y)
    }

    open spec fn spec_fees(&self) -> FeeQuote {
        self.fees
    }

    /// `y / x` in units of `1 / SCALE`, rounded down and capped at
    /// `u64::MAX`; zero for a pool without X.
    open spec fn spec_spot_price(&self) -> u64 {
        if self.reserve_x == 0 {
            0
        } else if self.reserve_y * SCALE / (self.reserve_x as int) > u64::MAX {
            u64::MAX
        } else {
            (self.reserve_y * SCALE / (self.reserve_x as int)) as u64
        }
    }

    open spec fn spec_accumulated_fees(&self) -> (u64, u64) {
        (0, self.collected_y)
    }

    /// The Y to pay for `amount_x`, fee included, and the fee. Nothing is
    /// quoted for no X, for all the X there is or more, or for more Y than
    /// can be counted.
    open spec fn spec_quote_sell_x(&self, amount_x: u64) -> (u64, u64) {
        if amount_x == 0 || amount_x >= self.reserve_x {
            (0, 0)
        } else {
            let net = self.sell_net(amount_x);
            let fee = fee_on(net, self.fees.ask_fee);
            if net + fee > u64::MAX {
                (0, 0)
            } else {
                ((net + fee) as u64, fee as u64)
            }
        }
    }

    /// The Y to receive for `amount_x`, fee taken off, and the fee.
    /// Nothing is quoted for no X, or where the fee leaves nothing.
    open spec fn spec_quote_buy_x(&self, amount_x: u64) -> (u64, u64) {
        if amount_x == 0 {
            (0, 0)
        } else {
            let gross = self.buy_gross(amount_x);
            let fee = fee_on(gross, self.fees.bid_fee);
            if fee >= gross {
                (0, 0)
            } else {
                ((gross - fee) as u64, fee as u64)
            }
        }
    }

    /// The trade at the quoted price; none where nothing is quoted or the
    /// pool cannot count what it would hold.
    open spec fn spec_sell_x(&self, amount_x: u64, timestamp: u64) -> Option<TradeInfo> {
        let (total, fee) = self.spec_quote_sell_x(amount_x);
        if total == 0 || self.reserve_y + total - fee > u64::MAX || self.collected_y + fee
            > u64::MAX {
            None
        } else {
            Some(TradeInfo { amount_x, amount_y: total })
        }
    }

    /// The pool with the X gone, the Y before the fee in its reserves and
    /// the fee among its collected fees; the same pool where it declines.
    open spec fn spec_after_sell_x(&self, amount_x: u64, timestamp: u64) -> Self {
        let (total, fee) = self.spec_quote_sell_x(amount_x);
        if self.spec_sell_x(amount_x, timestamp) is None {
            *self
        } else {
            ConstantProductPool {
                reserve_x: (self.reserve_x - amount_x) as u64,
                reserve_y: (self.reserve_y + total - fee) as u64,
                fees: self.fees,
                collected_y: (self.collected_y + fee) as u64,
            }
        }
    }

    /// The trade at the quoted price; none where nothing is quoted or the
    /// pool cannot count what it would hold.
    open spec fn spec_buy_x(&self, amount_x: u64, timestamp: u64) -> Option<TradeInfo> {
        let (out, fee) = self.spec_quote_buy_x(amount_x);
        if out == 0 || self.reserve_x + amount_x > u64::MAX || self.collected_y + fee > u64::MAX {
            None
        } else {
            Some(TradeInfo { amount_x, amount_y: out })
        }
    }

    /// The pool with the X in its reserves, the Y before the fee gone from
    /// them and the fee among its collected fees; the same pool where it
    /// declines.
    open spec fn spec_after_buy_x(&self, amount_x: u64, timestamp: u64) -> Self {
        let (out, fee) = self.spec_quote_buy_x(amount_x);
        if self.spec_buy_x(amount_x, timestamp) is None {
            *self
        } else {
            ConstantProductPool {
                reserve_x: (self.reserve_x + amount_x) as u64,
                reserve_y: (self.reserve_y - out - fee) as u64,
                fees: self.fees,
                collected_y: (self.collected_y + fee) as u64,
            }
        }
    }

    /// Takes the initial reserves and forgets the fees collected before.
    fn initialize(&mut self, initial_x: u64, initial_y: u64) -> (r: Result<(), String>) {
        self.reserve_x = initial_x;
        self.reserve_y = initial_y;
        self.collected_y = 0;
        Ok(())
    }

    fn reserves(&self) -> (r: (u64, u64)) {
        (self.reserve_x, self.reserve_y)
    }

    fn fees(&self) -> (r: FeeQuote) {
        self.fees
    }

    fn spot_price(&self) -> (r: u64) {
        if self.reserve_x == 0 {
            return 0;
        }
        assert(self.reserve_y * SCALE <= 0xffff_ffff_ffff_ffff * 1_000_000_000);
        let price: u128 = (self.reserve_y as u128) * (SCALE as u128) / (self.reserve_x as u128);
        if price > 0xffff_ffff_ffff_ffff {
            u64::MAX
        } else {
            price as u64
        }
    }

    fn accumulated_fees(&self) -> (r: (u64, u64)) {
        (0, self.collected_y)
    }

    fn quote_sell_x(&self, amount_x: u64) -> (r: (u64, u64)) {
        if amount_x == 0 || amount_x >= self.reserve_x {
            return (0, 0);
        }
        let left: u128 = (self.reserve_x - amount_x) as u128;
        assert(self.reserve_y * amount_x <= 0xffff_ffff_ffff_ffff * 0xffff_ffff_ffff_fffe)
            by (nonlinear_arith)
            requires
                0 <= self.reserve_y <= 0xffff_ffff_ffff_ffff,
                0 <= amount_x <= 0xffff_ffff_ffff_fffe,
        ;
        let net: u128 = ((self.reserve_y as u128) * (amount_x as u128) + left - 1) / left;
        assert(net == self.sell_net(amount_x));
        if net > 0xffff_ffff_ffff_ffff {
            proof {
                lemma_fee_is_not_negative(net as int, self.fees.ask_fee);
            }
            return (0, 0);
        }
        assert(net * self.fees.ask_fee <= 0xffff_ffff_ffff_ffff * 0xffff_ffff) by (nonlinear_arith)
            requires
                0 <= net <= 0xffff_ffff_ffff_ffff,
                0 <= self.fees.ask_fee <= 0xffff_ffff,
        ;
        let fee: u128 = (net * (self.fees.ask_fee as u128) + (SCALE as u128) - 1) / (SCALE as u128);
        assert(fee == fee_on(net as int, self.fees.ask_fee));
        let total: u128 = net + fee;
        if total > 0xffff_ffff_ffff_ffff {
            (0, 0)
        } else {
            (total as u64, fee as u64)
        }
    }

    fn quote_buy_x(&self, amount_x: u64) -> (r: (u64, u64)) {
        if amount_x == 0 {
            return (0, 0);
        }
        assert(self.reserve_y * amount_x <= 0xffff_ffff_ffff_ffff * 0xffff_ffff_ffff_ffff)
            by (nonlinear_arith)
            requires
                0 <= self.reserve_y <= 0xffff_ffff_ffff_ffff,
                0 <= amount_x <= 0xffff_ffff_ffff_ffff,
        ;
        let filled: u128 = (self.reserve_x as u128) + (amount_x as u128);
        let gross: u128 = (self.reserve_y as u128) * (amount_x as u128) / filled;
        assert(gross == self.buy_gross(amount_x));
        proof {
            lemma_share_is_at_most_whole(
                self.reserve_y as int,
                amount_x as int,
                self.reserve_x as int,
            );
        }
        assert(gross * self.fees.bid_fee <= 0xffff_ffff_ffff_ffff * 0xffff_ffff) by (nonlinear_arith)
            requires
                0 <= gross <= 0xffff_ffff_ffff_ffff,
                0 <= self.fees.bid_fee <= 0xffff_ffff,
        ;
        let fee: u128 = (gross * (self.fees.bid_fee as u128) + (SCALE as u128) - 1) / (
        SCALE as u128);
        assert(fee == fee_on(gross as int, self.fees.bid_fee));
        if fee >= gross {
            (0, 0)
        } else {
            ((gross - fee) as u64, fee as u64)
        }
    }

    fn execute_sell_x(&mut self, amount_x: u64, timestamp: u64) -> (r: Option<TradeInfo>) {
        let (total, fee) = self.quote_sell_x(amount_x);
        if total == 0 {
            return None;
        }
        let net: u64 = total - fee;
        let reserve_y: u64 = match self.reserve_y.checked_add(net) {
            Some(v) => v,
            None => {
                return None;
            },
        };
        let collected_y: u64 = match self.collected_y.checked_add(fee) {
            Some(v) => v,
            None => {
                return None;
            },
        };
        self.reserve_x = self.reserve_x - amount_x;
        self.reserve_y = reserve_y;
        self.collected_y = collected_y;
        Some(TradeInfo { amount_x, amount_y: total })
    }

    fn execute_buy_x(&mut self, amount_x: u64, timestamp: u64) -> (r: Option<TradeInfo>) {
        let (out, fee) = self.quote_buy_x(amount_x);
        if out == 0 {
            return None;
        }
        let reserve_x: u64 = match self.reserve_x.checked_add(amount_x) {
            Some(v) => v,
            None => {
                return None;
            },
        };
        let collected_y: u64 = match self.collected_y.checked_add(fee) {
            Some(v) => v,
            None => {
                return None;
            },
        };
        proof {
            lemma_share_is_at_most_whole(
                self.reserve_y as int,
                amount_x as int,
                self.reserve_x as int,
            );
        }
        self.reserve_x = reserve_x;
        self.reserve_y = self.reserve_y - out - fee;
        self.collected_y = collected_y;
        Some(TradeInfo { amount_x, amount_y: out })
    }
}

/// Rounded up, a quotient times its divisor is not below the dividend;
/// rounded down, it is not above.
pub proof fn lemma_rounding_brackets(a: int, b: int)
    requires
        0 < b,
    ensures
        ceil_div(a, b) * b >= a,
        (a / b) * b <= a,
{
    vstd::arithmetic::div_mod::lemma_fundamental_div_mod(a + b - 1, b);
    vstd::arithmetic::div_mod::lemma_fundamental_div_mod(a, b);
    vstd::arithmetic::div_mod::lemma_mod_bound(a + b - 1, b);
    vstd::arithmetic::div_mod::lemma_mod_bound(a, b);
    assert(ceil_div(a, b) * b == b * ((a + b - 1) / b)) by (nonlinear_arith)
        requires
            ceil_div(a, b) == (a + b - 1) / b,
    ;
    assert((a / b) * b == b * (a / b)) by (nonlinear_arith);
}

/// No trade lowers the product of the reserves: the fee stays out of them,
/// and every rounding is in the pool's favour.
pub proof fn lemma_product_never_falls(pool: ConstantProductPool, amount_x: u64, timestamp: u64)
    ensures
        pool.spec_after_sell_x(amount_x, timestamp).reserve_x * pool.spec_after_sell_x(
            amount_x,
            timestamp,
        ).reserve_y >= pool.reserve_x * pool.reserve_y,
        pool.spec_after_buy_x(amount_x, timestamp).reserve_x * pool.spec_after_buy_x(
            amount_x,
            timestamp,
        ).reserve_y >= pool.reserve_x * pool.reserve_y,
{
    let x = pool.reserve_x as int;
    let y = pool.reserve_y as int;
    let a = amount_x as int;
    if pool.spec_sell_x(amount_x, timestamp) is Some {
        let net = pool.sell_net(amount_x);
        lemma_rounding_brackets(y * a, x - a);
        lemma_fee_is_not_negative(net, pool.fees.ask_fee);
        assert((x - a) * (y + net) >= x * y) by (nonlinear_arith)
            requires
                net * (x - a) >= y * a,
        ;
    }
    if pool.spec_buy_x(amount_x, timestamp) is Some {
        let gross = pool.buy_gross(amount_x);
        lemma_rounding_brackets(y * a, x + a);
        lemma_share_is_at_most_whole(y, a, x);
        assert(pool.spec_after_buy_x(amount_x, timestamp).reserve_y == y - gross);
        assert((x + a) * (y - gross) >= x * y) by (nonlinear_arith)
            requires
                gross * (x + a) <= y * a,
        ;
    }
}

/// A fee is never negative.
pub proof fn lemma_fee_is_not_negative(amount: int, rate: u32)
    requires
        0 <= amount,
    ensures
        0 <= fee_on(amount, rate),
{
    assert(0 <= amount * rate) by (nonlinear_arith)
        requires
            0 <= amount,
            0 <= rate,
    ;
}

/// The share `amount / (rest + amount)` of a whole is at most the whole.
pub proof fn lemma_share_is_at_most_whole(whole: int, amount: int, rest: int)
    requires
        0 <= whole,
        0 < amount,
        0 <= rest,
    ensures
        0 <= whole * amount / (rest + amount) <= whole,
{
    assert(0 <= whole * amount <= whole * (rest + amount)) by (nonlinear_arith)
        requires
            0 <= whole,
            0 < amount,
            0 <= rest,
    ;
    vstd::arithmetic::div_mod::lemma_div_is_ordered(
        whole * amount,
        whole * (rest + amount),
        rest + amount,
    );
    vstd::arithmetic::div_mod::lemma_div_multiples_vanish(whole, rest + amount);
    assert(whole * (rest + amount) == (rest + amount) * whole) by (nonlinear_arith);
    vstd::arithmetic::div_mod::lemma_div_pos_is_pos(whole * amount, rest + amount);
}

} // verus!
