//! The interface between the simulator and a priced AMM.

pub mod pool;

use vstd::prelude::*;

verus! {

/// The fee rates of an AMM, each a fraction of `SCALE`.
#[derive(Clone, Copy, Debug)]
pub struct FeeQuote {
    /// Charged when the AMM buys the risky asset X.
    pub bid_fee: u32,
    /// Charged when the AMM sells the risky asset X.
    pub ask_fee: u32,
}

/// What an AMM reports of a trade it has carried out.
#[derive(Clone, Copy, Debug)]
pub struct TradeInfo {
    /// Quantity of X that changed hands.
    pub amount_x: u64,
    /// Quantity of the numeraire Y that changed hands.
    pub amount_y: u64,
}

/// A pricing strategy together with the reserves it prices.
///
/// What a strategy answers is up to it. The contract of each method only
/// gives the answer a name: the spec function beside it, which says what
/// the strategy in a given state answers to a given question. So an answer
/// depends on the state of the strategy and on the question alone, and
/// what the simulator does with it can be stated exactly.
///
/// `pool::ConstantProductPool` is one such strategy. A strategy written
/// outside this crate gives each spec function a body of any kind: they
/// are never run.
pub trait PricingStrategy: Sized {
    /// What `initialize` returns for the given initial reserves.
    spec fn spec_initialize(&self, initial_x: u64, initial_y: u64) -> Result<(), String>;

    /// The strategy as `initialize` leaves it.
    spec fn spec_after_initialize(&self, initial_x: u64, initial_y: u64) -> Self;

    /// The reserves `(x, y)` that `reserves` reports.
    spec fn spec_reserves(&self) -> (u64, u64);

    /// The fee rates that `fees` reports.
    spec fn spec_fees(&self) -> FeeQuote;

    /// The price that `spot_price` reports.
    spec fn spec_spot_price(&self) -> u64;

    /// The collected fees that `accumulated_fees` reports.
    spec fn spec_accumulated_fees(&self) -> (u64, u64);

    /// The quote that `quote_sell_x` gives for `amount_x`.
    spec fn spec_quote_sell_x(&self, amount_x: u64) -> (u64, u64);

    /// The quote that `quote_buy_x` gives for `amount_x`.
    spec fn spec_quote_buy_x(&self, amount_x: u64) -> (u64, u64);

    /// What `execute_sell_x` returns for `amount_x` at `timestamp`.
    spec fn spec_sell_x(&self, amount_x: u64, timestamp: u64) -> Option<TradeInfo>;

    /// The strategy as `execute_sell_x` leaves it.
    spec fn spec_after_sell_x(&self, amount_x: u64, timestamp: u64) -> Self;

    /// What `execute_buy_x` returns for `amount_x` at `timestamp`.
    spec fn spec_buy_x(&self, amount_x: u64, timestamp: u64) -> Option<TradeInfo>;

    /// The strategy as `execute_buy_x` leaves it.
    spec fn spec_after_buy_x(&self, amount_x: u64, timestamp: u64) -> Self;

    /// Sets the strategy up with its initial reserves; `Err` carries a
    /// description of why it could not.
    fn initialize(&mut self, initial_x: u64, initial_y: u64) -> (r: Result<(), String>)
        ensures
            r == old(self).spec_initialize(initial_x, initial_y),
            *final(self) == old(self).spec_after_initialize(initial_x, initial_y),
    ;

    /// Current reserves `(x, y)`.
    fn reserves(&self) -> (r: (u64, u64))
        ensures
            r == self.spec_reserves(),
    ;

    /// Current fee rates.
    fn fees(&self) -> (r: FeeQuote)
        ensures
            r == self.spec_fees(),
    ;

    /// Current marginal price `y / x`, in units of `1 / SCALE`.
    fn spot_price(&self) -> (r: u64)
        ensures
            r == self.spec_spot_price(),
    ;

    /// Fees collected so far, `(fee_x, fee_y)`.
    fn accumulated_fees(&self) -> (r: (u64, u64))
        ensures
            r == self.spec_accumulated_fees(),
    ;

    /// What a taker would pay, in Y, to take `amount_x` of X out of the
    /// AMM, and an auxiliary figure. Changes nothing.
    fn quote_sell_x(&self, amount_x: u64) -> (r: (u64, u64))
        ensures
            r == self.spec_quote_sell_x(amount_x),
    ;

    /// What a taker would receive, in Y, for putting `amount_x` of X into
    /// the AMM, and an auxiliary figure. Changes nothing.
    fn quote_buy_x(&self, amount_x: u64) -> (r: (u64, u64))
        ensures
            r == self.spec_quote_buy_x(amount_x),
    ;

    /// The AMM sells `amount_x` of X; `None` if it declines.
    fn execute_sell_x(&mut self, amount_x: u64, timestamp: u64) -> (r: Option<TradeInfo>)
        ensures
            r == old(self).spec_sell_x(amount_x, timestamp),
            *final(self) == old(self).spec_after_sell_x(amount_x, timestamp),
    ;

    /// The AMM buys `amount_x` of X; `None` if it declines.
    fn execute_buy_x(&mut self, amount_x: u64, timestamp: u64) -> (r: Option<TradeInfo>)
        ensures
            r == old(self).spec_buy_x(amount_x, timestamp),
            *final(self) == old(self).spec_after_buy_x(amount_x, timestamp),
    ;
}

/// An AMM as the simulator holds it: a strategy under a name.
pub struct Amm<S> {
    /// The name results are reported under.
    pub name: String,
    /// The strategy that prices and executes.
    pub strategy: S,
}

impl<S: PricingStrategy> Amm<S> {
    /// An AMM called `name` that runs `strategy`.
    pub fn new(name: String, strategy: S) -> (r: Self)
        ensures
            r.name == name,
            r.strategy == strategy,
    {
        Amm { name, strategy }
    }
}

/// The two AMMs of a simulation.
pub struct AmmPair<S> {
    /// The AMM that runs the strategy under evaluation.
    pub submission: Amm<S>,
    /// The AMM that runs the strategy it is measured against.
    pub normalizer: Amm<S>,
}

/// What the simulator reads off an AMM at one moment.
#[derive(Clone, Copy, Debug)]
pub struct AmmSnapshot {
    /// Reserves `(x, y)`.
    pub reserves: (u64, u64),
    /// Fees collected so far, `(fee_x, fee_y)`.
    pub accumulated_fees: (u64, u64),
    /// Spot price as the AMM reports it.
    pub spot_price: u64,
    /// Fee rates.
    pub fees: FeeQuote,
}

impl AmmSnapshot {
    /// What `strategy` shows of itself.
    pub open spec fn of_strategy<S: PricingStrategy>(strategy: S) -> AmmSnapshot {
        AmmSnapshot {
            reserves: strategy.spec_reserves(),
            accumulated_fees: strategy.spec_accumulated_fees(),
            spot_price: strategy.spec_spot_price(),
            fees: strategy.spec_fees(),
        }
    }

    /// What `amm` shows of itself.
    pub open spec fn of<S: PricingStrategy>(amm: Amm<S>) -> AmmSnapshot {
        AmmSnapshot::of_strategy(amm.strategy)
    }

    /// Reads the current state of `amm`: its reserves, its collected fees,
    /// its spot price and its fee rates, each as the strategy reports it.
    pub fn observe<S: PricingStrategy>(amm: &Amm<S>) -> (r: AmmSnapshot)
        ensures
            r == AmmSnapshot::of(*amm),
    {
        AmmSnapshot {
            reserves: amm.strategy.reserves(),
            accumulated_fees: amm.strategy.accumulated_fees(),
            spot_price: amm.strategy.spot_price(),
            fees: amm.strategy.fees(),
        }
    }
}

} // verus!
