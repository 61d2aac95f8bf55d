//! Marking positions to the fair price, and the running totals of a run.

use crate::amm::AmmSnapshot;
use crate::fixed_point::SCALE;
use crate::market::arbitrageur::ArbResult;
use crate::market::router::RoutedTrade;
use crate::types::result::{PerStrategy, Venue};
use vstd::prelude::*;

verus! {

/// The worth at `price` of a holding `(x, y)` of the risky asset and the
/// numeraire, in units of `1 / SCALE` of Y.
pub open spec fn marked_value(holding: (u64, u64), price: u64) -> int {
    holding.0 * price + holding.1 * SCALE
}

/// Profit and loss of an AMM: its reserves and its collected fees at the
/// current fair price, less its initial reserves at the initial fair price.
pub open spec fn pnl_spec(
    seen: AmmSnapshot,
    fair_price: u64,
    initial_reserves: (u64, u64),
    initial_fair_price: u64,
) -> int {
    marked_value(seen.reserves, fair_price) + marked_value(seen.accumulated_fees, fair_price)
        - marked_value(initial_reserves, initial_fair_price)
}

/// Whether both sides of a profit and loss can be held: what the AMM has
/// now, and what it began with, are each worth at most `i128::MAX`.
pub open spec fn pnl_fits(
    seen: AmmSnapshot,
    fair_price: u64,
    initial_reserves: (u64, u64),
    initial_fair_price: u64,
) -> bool {
    &&& marked_value(seen.reserves, fair_price) + marked_value(seen.accumulated_fees, fair_price)
        <= i128::MAX
    &&& marked_value(initial_reserves, initial_fair_price) <= i128::MAX
}

/// What a retail trade is worth to the AMM at the fair price: what it
/// received less what it gave.
pub open spec fn trade_markout_spec(
    amount_x: u64,
    amount_y: u64,
    amm_buys_x: bool,
    fair_price: u64,
) -> int {
    if amm_buys_x {
        amount_x * fair_price - amount_y * SCALE
    } else {
        amount_y * SCALE - amount_x * fair_price
    }
}

/// Computes `marked_value`; `None` where it exceeds `i128::MAX`.
pub fn mark(holding: (u64, u64), price: u64) -> (r: Option<u128>)
    ensures
        marked_value(holding, price) >= 0,
        r == if marked_value(holding, price) <= i128::MAX {
            Some(marked_value(holding, price) as u128)
        } else {
            None
        },
{
    assert(0 <= holding.0 * price <= 0xffff_ffff_ffff_ffff * 0xffff_ffff_ffff_ffff)
        by (nonlinear_arith)
        requires
            0 <= holding.0 <= 0xffff_ffff_ffff_ffff,
            0 <= price <= 0xffff_ffff_ffff_ffff,
    ;
    assert(holding.1 * SCALE <= 0xffff_ffff_ffff_ffff * 1_000_000_000);
    let risky: u128 = (holding.0 as u128) * (price as u128);
    let safe: u128 = (holding.1 as u128) * (SCALE as u128);
    match risky.checked_add(safe) {
        Some(total) => if total <= 0x7fff_ffff_ffff_ffff_ffff_ffff_ffff_ffff {
            Some(total)
        } else {
            None
        },
        None => None,
    }
}

/// Computes `pnl_spec`; `None` where `pnl_fits` fails.
pub fn pnl(
    seen: &AmmSnapshot,
    fair_price: u64,
    initial_reserves: (u64, u64),
    initial_fair_price: u64,
) -> (r: Option<i128>)
    ensures
        r is Some == pnl_fits(*seen, fair_price, initial_reserves, initial_fair_price),
        r matches Some(v) ==> v == pnl_spec(*seen, fair_price, initial_reserves, initial_fair_price),
{
    let held: u128 = match mark(seen.reserves, fair_price) {
        Some(v) => v,
        None => {
            return None;
        },
    };
    let earned: u128 = match mark(seen.accumulated_fees, fair_price) {
        Some(v) => v,
        None => {
            return None;
        },
    };
    let began: u128 = match mark(initial_reserves, initial_fair_price) {
        Some(v) => v,
        None => {
            return None;
        },
    };
    let now: u128 = held + earned;
    if now > 0x7fff_ffff_ffff_ffff_ffff_ffff_ffff_ffff {
        return None;
    }
    Some((now as i128) - (began as i128))
}

/// Computes `trade_markout_spec`; `None` where it does not fit in `i128`.
pub fn trade_markout(amount_x: u64, amount_y: u64, amm_buys_x: bool, fair_price: u64) -> (r:
    Option<i128>)
    ensures
        r == if i128::MIN <= trade_markout_spec(amount_x, amount_y, amm_buys_x, fair_price)
            <= i128::MAX {
            Some(trade_markout_spec(amount_x, amount_y, amm_buys_x, fair_price) as i128)
        } else {
            None
        },
{
    assert(0 <= amount_x * fair_price <= 0xffff_ffff_ffff_ffff * 0xffff_ffff_ffff_ffff)
        by (nonlinear_arith)
        requires
            0 <= amount_x <= 0xffff_ffff_ffff_ffff,
            0 <= fair_price <= 0xffff_ffff_ffff_ffff,
    ;
    assert(amount_y * SCALE <= 0xffff_ffff_ffff_ffff * 1_000_000_000);
    let risky: u128 = (amount_x as u128) * (fair_price as u128);
    let safe: u128 = (amount_y as u128) * (SCALE as u128);
    let (gained, given): (u128, u128) = if amm_buys_x {
        (risky, safe)
    } else {
        (safe, risky)
    };
    if gained >= given {
        let d: u128 = gained - given;
        if d <= 0x7fff_ffff_ffff_ffff_ffff_ffff_ffff_ffff {
            Some(d as i128)
        } else {
            None
        }
    } else {
        let d: u128 = given - gained;
        if d <= 0x7fff_ffff_ffff_ffff_ffff_ffff_ffff_ffff {
            Some(-(d as i128))
        } else if d == 0x8000_0000_0000_0000_0000_0000_0000_0000 {
            Some(i128::MIN)
        } else {
            None
        }
    }
}

/// The running totals of a simulation, per strategy.
#[derive(Clone, Copy, Debug)]
pub struct Accounts {
    /// Sum of the markouts of all trades, in units of `1 / SCALE` of Y.
    pub markouts: PerStrategy<i128>,
    /// Y traded with the arbitrageur.
    pub arb_volume_y: PerStrategy<u128>,
    /// Y traded with retail.
    pub retail_volume_y: PerStrategy<u128>,
}

/// A trade against an AMM, as the totals see it.
pub enum Fill {
    /// An arbitrage that gained `profit` and moved `amount_y`.
    Arbitrage { profit: u128, amount_y: u64 },
    /// A retail trade at a tick whose fair price was `fair_price`.
    Retail { amount_x: u64, amount_y: u64, amm_buys_x: bool, fair_price: u64 },
}

impl Fill {
    /// What the trade adds to the AMM's markout: the arbitrageur's profit
    /// is the AMM's loss; a retail trade counts by `trade_markout_spec`.
    pub open spec fn markout(self) -> int {
        match self {
            Fill::Arbitrage { profit, amount_y } => -(profit as int),
            Fill::Retail { amount_x, amount_y, amm_buys_x, fair_price } => trade_markout_spec(
                amount_x,
                amount_y,
                amm_buys_x,
                fair_price,
            ),
        }
    }

    /// The Y that the trade adds to the arbitrage volume.
    pub open spec fn arb_volume(self) -> int {
        match self {
            Fill::Arbitrage { profit, amount_y } => amount_y as int,
            Fill::Retail { .. } => 0,
        }
    }

    /// The Y that the trade adds to the retail volume.
    pub open spec fn retail_volume(self) -> int {
        match self {
            Fill::Arbitrage { .. } => 0,
            Fill::Retail { amount_x, amount_y, amm_buys_x, fair_price } => amount_y as int,
        }
    }
}

impl Accounts {
    /// Totals of zero.
    pub open spec fn zero() -> Accounts {
        Accounts {
            markouts: PerStrategy { submission: 0, normalizer: 0 },
            arb_volume_y: PerStrategy { submission: 0, normalizer: 0 },
            retail_volume_y: PerStrategy { submission: 0, normalizer: 0 },
        }
    }

    /// Whether `fill` against `venue` can be added: its own markout, and
    /// each total with it added, is within the range of that total.
    pub open spec fn admits(self, venue: Venue, fill: Fill) -> bool {
        &&& i128::MIN <= fill.markout() <= i128::MAX
        &&& i128::MIN <= self.markouts.at(venue) + fill.markout() <= i128::MAX
        &&& self.arb_volume_y.at(venue) + fill.arb_volume() <= u128::MAX
        &&& self.retail_volume_y.at(venue) + fill.retail_volume() <= u128::MAX
    }

    /// The totals after `fill` against `venue`: those of `venue` grow by
    /// what the fill adds, the others stay.
    pub open spec fn after(self, venue: Venue, fill: Fill) -> Accounts {
        Accounts {
            markouts: self.markouts.with(
                venue,
                (self.markouts.at(venue) + fill.markout()) as i128,
            ),
            arb_volume_y: self.arb_volume_y.with(
                venue,
                (self.arb_volume_y.at(venue) + fill.arb_volume()) as u128,
            ),
            retail_volume_y: self.retail_volume_y.with(
                venue,
                (self.retail_volume_y.at(venue) + fill.retail_volume()) as u128,
            ),
        }
    }

    /// Totals of zero.
    pub fn new() -> (r: Accounts)
        ensures
            r == Accounts::zero(),
    {
        Accounts {
            markouts: PerStrategy { submission: 0, normalizer: 0 },
            arb_volume_y: PerStrategy { submission: 0, normalizer: 0 },
            retail_volume_y: PerStrategy { submission: 0, normalizer: 0 },
        }
    }

    /// Adds an arbitrage against `venue`. Returns whether it was added:
    /// where the totals cannot hold it, they stay as they were.
    pub fn record_arb(&mut self, venue: Venue, profit: u128, amount_y: u64) -> (r: bool)
        ensures
            r == old(self).admits(venue, Fill::Arbitrage { profit, amount_y }),
            r ==> *final(self) == old(self).after(venue, Fill::Arbitrage { profit, amount_y }),
            !r ==> *final(self) == *old(self),
    {
        if profit > 0x8000_0000_0000_0000_0000_0000_0000_0000 {
            return false;
        }
        let markout: i128 = match self.markouts.get(venue).checked_sub_unsigned(profit) {
            Some(v) => v,
            None => {
                return false;
            },
        };
        let volume: u128 = match self.arb_volume_y.get(venue).checked_add(amount_y as u128) {
            Some(v) => v,
            None => {
                return false;
            },
        };
        self.markouts.set(venue, markout);
        self.arb_volume_y.set(venue, volume);
        assert(*self =~= old(self).after(venue, Fill::Arbitrage { profit, amount_y }));
        true
    }

    /// Adds a retail trade against `venue` at `fair_price`. Returns whether
    /// it was added: where the totals cannot hold it, they stay as they
    /// were.
    pub fn record_trade(
        &mut self,
        venue: Venue,
        amount_x: u64,
        amount_y: u64,
        amm_buys_x: bool,
        fair_price: u64,
    ) -> (r: bool)
        ensures
            r == old(self).admits(
                venue,
                Fill::Retail { amount_x, amount_y, amm_buys_x, fair_price },
            ),
            r ==> *final(self) == old(self).after(
                venue,
                Fill::Retail { amount_x, amount_y, amm_buys_x, fair_price },
            ),
            !r ==> *final(self) == *old(self),
    {
        let change: i128 = match trade_markout(amount_x, amount_y, amm_buys_x, fair_price) {
            Some(v) => v,
            None => {
                return false;
            },
        };
        let markout: i128 = match self.markouts.get(venue).checked_add(change) {
            Some(v) => v,
            None => {
                return false;
            },
        };
        let volume: u128 = match self.retail_volume_y.get(venue).checked_add(amount_y as u128) {
            Some(v) => v,
            None => {
                return false;
            },
        };
        self.markouts.set(venue, markout);
        self.retail_volume_y.set(venue, volume);
        assert(*self =~= old(self).after(
            venue,
            Fill::Retail { amount_x, amount_y, amm_buys_x, fair_price },
        ));
        true
    }
}

/// The totals after the arbitrage `found`, if there was one, against
/// `venue`; `None` where it cannot be added.
pub open spec fn after_arbitrage(totals: Accounts, venue: Venue, found: Option<ArbResult>) -> Option<
    Accounts,
> {
    match found {
        Some(arb) => {
            let fill = Fill::Arbitrage { profit: arb.profit, amount_y: arb.amount_y };
            if totals.admits(venue, fill) {
                Some(totals.after(venue, fill))
            } else {
                None
            }
        },
        None => Some(totals),
    }
}

/// Computes `after_arbitrage`.
pub fn record_arbitrage(totals: Accounts, venue: Venue, found: &Option<ArbResult>) -> (r: Option<
    Accounts,
>)
    ensures
        r == after_arbitrage(totals, venue, *found),
{
    match found {
        Some(arb) => {
            let mut next: Accounts = totals;
            if next.record_arb(venue, arb.profit, arb.amount_y) {
                Some(next)
            } else {
                None
            }
        },
        None => Some(totals),
    }
}

/// The fill that a routed trade made at `fair_price` stands for.
pub open spec fn retail_fill(trade: RoutedTrade, fair_price: u64) -> Fill {
    Fill::Retail {
        amount_x: trade.amount_x,
        amount_y: trade.amount_y,
        amm_buys_x: trade.amm_buys_x,
        fair_price,
    }
}

/// The totals after `trades`, all made at `fair_price`, were added in
/// order, each against the venue that its AMM name stands for; `None`
/// where one names no venue or cannot be added.
pub open spec fn after_trades(totals: Accounts, trades: Seq<RoutedTrade>, fair_price: u64) -> Option<
    Accounts,
>
    decreases trades.len(),
{
    if trades.len() == 0 {
        Some(totals)
    } else {
        let trade = trades.last();
        match (
            after_trades(totals, trades.drop_last(), fair_price),
            Venue::from_name_spec(trade.amm_name@),
        ) {
            (Some(before), Some(venue)) => if before.admits(venue, retail_fill(trade, fair_price)) {
                Some(before.after(venue, retail_fill(trade, fair_price)))
            } else {
                None
            },
            _ => None,
        }
    }
}

/// Once a trade could not be added, the whole batch cannot.
pub proof fn lemma_failed_trades_stay_failed(
    totals: Accounts,
    trades: Seq<RoutedTrade>,
    fair_price: u64,
    n: int,
)
    requires
        0 <= n <= trades.len(),
        after_trades(totals, trades.take(n), fair_price) is None,
    ensures
        after_trades(totals, trades, fair_price) is None,
    decreases trades.len() - n,
{
    if n < trades.len() {
        assert(trades.take(n + 1).drop_last() =~= trades.take(n));
        lemma_failed_trades_stay_failed(totals, trades, fair_price, n + 1);
    } else {
        assert(trades.take(n) =~= trades);
    }
}

/// Computes `after_trades`.
pub fn record_trades(totals: Accounts, trades: &Vec<RoutedTrade>, fair_price: u64) -> (r: Option<
    Accounts,
>)
    ensures
        r == after_trades(totals, trades@, fair_price),
{
    let mut current: Accounts = totals;
    let mut i: usize = 0;
    while i < trades.len()
        invariant
            i <= trades.len(),
            after_trades(totals, trades@.take(i as int), fair_price) == Some(current),
        decreases trades.len() - i,
    {
        let trade: &RoutedTrade = &trades[i];
        proof {
            assert(trades@.take(i + 1).drop_last() =~= trades@.take(i as int));
            assert(trades@.take(i + 1).last() == trades@[i as int]);
            if after_trades(totals, trades@.take(i + 1), fair_price) is None {
                lemma_failed_trades_stay_failed(totals, trades@, fair_price, i + 1);
            }
        }
        let venue: Venue = match Venue::from_name(&trade.amm_name) {
            Some(venue) => venue,
            None => {
                return None;
            },
        };
        if !current.record_trade(
            venue,
            trade.amount_x,
            trade.amount_y,
            trade.amm_buys_x,
            fair_price,
        ) {
            return None;
        }
        i = i + 1;
    }
    assert(trades@.take(i as int) =~= trades@);
    Some(current)
}

/// The profit and loss of both strategies; `None` where one does not fit.
pub open spec fn pnl_pair_spec(
    seen: PerStrategy<AmmSnapshot>,
    fair_price: u64,
    initial_reserves: PerStrategy<(u64, u64)>,
    initial_fair_price: u64,
) -> Option<PerStrategy<i128>> {
    if pnl_fits(seen.submission, fair_price, initial_reserves.submission, initial_fair_price)
        && pnl_fits(seen.normalizer, fair_price, initial_reserves.normalizer, initial_fair_price) {
        Some(
            PerStrategy {
                submission: pnl_spec(
                    seen.submission,
                    fair_price,
                    initial_reserves.submission,
                    initial_fair_price,
                ) as i128,
                normalizer: pnl_spec(
                    seen.normalizer,
                    fair_price,
                    initial_reserves.normalizer,
                    initial_fair_price,
                ) as i128,
            },
        )
    } else {
        None
    }
}

/// Computes `pnl_pair_spec`.
pub fn pnl_pair(
    seen: &PerStrategy<AmmSnapshot>,
    fair_price: u64,
    initial_reserves: &PerStrategy<(u64, u64)>,
    initial_fair_price: u64,
) -> (r: Option<PerStrategy<i128>>)
    ensures
        r == pnl_pair_spec(*seen, fair_price, *initial_reserves, initial_fair_price),
{
    let submission: i128 = match pnl(
        &seen.submission,
        fair_price,
        initial_reserves.submission,
        initial_fair_price,
    ) {
        Some(v) => v,
        None => {
            return None;
        },
    };
    let normalizer: i128 = match pnl(
        &seen.normalizer,
        fair_price,
        initial_reserves.normalizer,
        initial_fair_price,
    ) {
        Some(v) => v,
        None => {
            return None;
        },
    };
    Some(PerStrategy { submission, normalizer })
}

/// An AMM that still holds its initial reserves, has collected no fees
/// and is marked at the initial fair price has a profit and loss of zero.
pub proof fn lemma_untouched_pnl_is_zero(seen: AmmSnapshot, initial_fair_price: u64)
    requires
        seen.accumulated_fees == (0u64, 0u64),
    ensures
        pnl_spec(seen, initial_fair_price, seen.reserves, initial_fair_price) == 0,
{
}

} // verus!
