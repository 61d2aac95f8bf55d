//! The bookkeeping of a run as a state that each tick advances.
//!
//! `SimulationState` holds what a run has recorded so far. It is advanced
//! by the events of one tick at a time and knows nothing of where they
//! come from, so what a run reports is stated exactly as a function of
//! the events of its ticks.

use crate::amm::AmmSnapshot;
use crate::market::arbitrageur::ArbResult;
use crate::market::router::RoutedTrade;
use crate::simulation::accounting::{
    after_arbitrage, after_trades, lemma_untouched_pnl_is_zero, pnl_pair, pnl_pair_spec, pnl_spec,
    record_arbitrage, record_trades, retail_fill, Accounts,
};
use crate::simulation::engine::{capture_step, capture_step_spec};
use crate::types::result::{
    normalizer_name, submission_name, LightweightSimResult, LightweightStepResult, PerStrategy,
    Venue,
};
use vstd::prelude::*;

verus! {

/// What happened in one tick.
pub struct TickEvents {
    /// The fair price of the tick.
    pub fair_price: u64,
    /// The arbitrage against each AMM, if one was executed.
    pub arbitrage: PerStrategy<Option<ArbResult>>,
    /// The retail trades, in the order in which they were made.
    pub trades: Vec<RoutedTrade>,
    /// The state of each AMM at the end of the tick.
    pub seen: PerStrategy<AmmSnapshot>,
}

/// The reserves that a pair of snapshots shows.
pub open spec fn reserves_of(seen: PerStrategy<AmmSnapshot>) -> PerStrategy<(u64, u64)> {
    PerStrategy { submission: seen.submission.reserves, normalizer: seen.normalizer.reserves }
}

/// The totals after one tick: the arbitrage against the submission, then
/// that against the normalizer, then the retail trades.
pub open spec fn accounts_after_tick(totals: Accounts, tick: TickEvents) -> Option<Accounts> {
    match after_arbitrage(totals, Venue::Submission, tick.arbitrage.submission) {
        Some(first) => match after_arbitrage(first, Venue::Normalizer, tick.arbitrage.normalizer) {
            Some(second) => after_trades(second, tick.trades@, tick.fair_price),
            None => None,
        },
        None => None,
    }
}

/// The totals after the ticks of `history`, from totals of zero.
pub open spec fn accounts_after_ticks(history: Seq<TickEvents>) -> Option<Accounts>
    decreases history.len(),
{
    if history.len() == 0 {
        Some(Accounts::zero())
    } else {
        match accounts_after_ticks(history.drop_last()) {
            Some(totals) => accounts_after_tick(totals, history.last()),
            None => None,
        }
    }
}

/// The fair price and the state of the AMMs after the ticks of `history`:
/// those of the last tick, or the initial ones where there is none.
pub open spec fn latest(
    initial_fair_price: u64,
    initial_seen: PerStrategy<AmmSnapshot>,
    history: Seq<TickEvents>,
) -> (u64, PerStrategy<AmmSnapshot>) {
    if history.len() == 0 {
        (initial_fair_price, initial_seen)
    } else {
        (history.last().fair_price, history.last().seen)
    }
}

/// Whether `result` is what a run with the given seed, initial fair price
/// and initial state of the AMMs reports after the ticks of `history`:
///
/// - the names are `"submission"` and `"normalizer"`, in this order;
/// - the initial reserves are those first seen;
/// - there are at most `u32::MAX` ticks, and step `i` is the record of
///   tick `i`;
/// - the final profit and loss marks the latest state at the latest fair
///   price;
/// - the markouts and volumes are the totals after all ticks.
pub open spec fn is_result_of(
    result: LightweightSimResult,
    seed: u64,
    initial_fair_price: u64,
    initial_seen: PerStrategy<AmmSnapshot>,
    history: Seq<TickEvents>,
) -> bool {
    let (fair_price, seen) = latest(initial_fair_price, initial_seen, history);
    &&& result.seed == seed
    &&& result.strategies@.len() == 2
    &&& result.strategies@[0]@ == submission_name()
    &&& result.strategies@[1]@ == normalizer_name()
    &&& result.initial_fair_price == initial_fair_price
    &&& result.initial_reserves == reserves_of(initial_seen)
    &&& result.steps@.len() == history.len()
    &&& history.len() <= u32::MAX
    &&& forall|i: int|
        0 <= i < history.len() ==> capture_step_spec(
            i as u32,
            history[i].fair_price,
            history[i].seen,
            reserves_of(initial_seen),
            initial_fair_price,
        ) == Some(#[trigger] result.steps@[i])
    &&& pnl_pair_spec(seen, fair_price, reserves_of(initial_seen), initial_fair_price) == Some(
        result.pnl,
    )
    &&& accounts_after_ticks(history) == Some(
        Accounts {
            markouts: result.instantaneous_markouts,
            arb_volume_y: result.arb_volume_y,
            retail_volume_y: result.retail_volume_y,
        },
    )
}

/// What an executed arbitrage adds to the markout of its AMM: the
/// arbitrageur's profit is the AMM's loss.
pub open spec fn arbitrage_markout(found: Option<ArbResult>) -> int {
    match found {
        Some(arb) => -(arb.profit as int),
        None => 0,
    }
}

/// The sum of the markouts of those of `trades`, all made at `fair_price`,
/// whose AMM name stands for `venue`.
pub open spec fn trades_markout(trades: Seq<RoutedTrade>, venue: Venue, fair_price: u64) -> int
    decreases trades.len(),
{
    if trades.len() == 0 {
        0
    } else {
        trades_markout(trades.drop_last(), venue, fair_price) + if Venue::from_name_spec(
            trades.last().amm_name@,
        ) == Some(venue) {
            retail_fill(trades.last(), fair_price).markout()
        } else {
            0
        }
    }
}

/// What one tick adds to the markout of `venue`: the negated profit of
/// the arbitrage against it, and the markouts of the retail trades with
/// it.
pub open spec fn tick_markout(tick: TickEvents, venue: Venue) -> int {
    arbitrage_markout(tick.arbitrage.at(venue)) + trades_markout(
        tick.trades@,
        venue,
        tick.fair_price,
    )
}

/// The sum of `tick_markout` over the ticks of `history`.
pub open spec fn run_markout(history: Seq<TickEvents>, venue: Venue) -> int
    decreases history.len(),
{
    if history.len() == 0 {
        0
    } else {
        run_markout(history.drop_last(), venue) + tick_markout(history.last(), venue)
    }
}

/// A batch of retail trades moves the markout of each venue by the sum of
/// the markouts of the trades with it.
pub proof fn lemma_trades_add_their_markouts(
    totals: Accounts,
    trades: Seq<RoutedTrade>,
    fair_price: u64,
    venue: Venue,
)
    requires
        after_trades(totals, trades, fair_price) is Some,
    ensures
        after_trades(totals, trades, fair_price)->0.markouts.at(venue) == totals.markouts.at(venue)
            + trades_markout(trades, venue, fair_price),
    decreases trades.len(),
{
    if trades.len() > 0 {
        lemma_trades_add_their_markouts(totals, trades.drop_last(), fair_price, venue);
    }
}

/// One tick moves the markout of each venue by `tick_markout`.
pub proof fn lemma_tick_adds_its_markout(totals: Accounts, tick: TickEvents, venue: Venue)
    requires
        accounts_after_tick(totals, tick) is Some,
    ensures
        accounts_after_tick(totals, tick)->0.markouts.at(venue) == totals.markouts.at(venue)
            + tick_markout(tick, venue),
{
    let first = after_arbitrage(totals, Venue::Submission, tick.arbitrage.submission)->0;
    let second = after_arbitrage(first, Venue::Normalizer, tick.arbitrage.normalizer)->0;
    lemma_trades_add_their_markouts(second, tick.trades@, tick.fair_price, venue);
}

/// The cumulative markout of a strategy is the sum, over all ticks, of
/// the negated profit of the arbitrage against it and of the markouts of
/// the retail trades with it.
pub proof fn lemma_markout_is_sum_over_ticks(history: Seq<TickEvents>, venue: Venue)
    requires
        accounts_after_ticks(history) is Some,
    ensures
        accounts_after_ticks(history)->0.markouts.at(venue) == run_markout(history, venue),
    decreases history.len(),
{
    if history.len() > 0 {
        lemma_markout_is_sum_over_ticks(history.drop_last(), venue);
        lemma_tick_adds_its_markout(
            accounts_after_ticks(history.drop_last())->0,
            history.last(),
            venue,
        );
    }
}

/// The Y that an executed arbitrage moved.
pub open spec fn arbitrage_volume(found: Option<ArbResult>) -> int {
    match found {
        Some(arb) => arb.amount_y as int,
        None => 0,
    }
}

/// The sum of the Y of those of `trades` whose AMM name stands for `venue`.
pub open spec fn trades_volume(trades: Seq<RoutedTrade>, venue: Venue) -> int
    decreases trades.len(),
{
    if trades.len() == 0 {
        0
    } else {
        trades_volume(trades.drop_last(), venue) + if Venue::from_name_spec(
            trades.last().amm_name@,
        ) == Some(venue) {
            trades.last().amount_y as int
        } else {
            0
        }
    }
}

/// The sum of `arbitrage_volume` for `venue` over the ticks of `history`.
pub open spec fn run_arb_volume(history: Seq<TickEvents>, venue: Venue) -> int
    decreases history.len(),
{
    if history.len() == 0 {
        0
    } else {
        run_arb_volume(history.drop_last(), venue) + arbitrage_volume(
            history.last().arbitrage.at(venue),
        )
    }
}

/// The sum of `trades_volume` for `venue` over the ticks of `history`.
pub open spec fn run_retail_volume(history: Seq<TickEvents>, venue: Venue) -> int
    decreases history.len(),
{
    if history.len() == 0 {
        0
    } else {
        run_retail_volume(history.drop_last(), venue) + trades_volume(
            history.last().trades@,
            venue,
        )
    }
}

/// A batch of retail trades adds its Y to the retail volume of each venue
/// and leaves the arbitrage volume alone.
pub proof fn lemma_trades_add_their_volume(
    totals: Accounts,
    trades: Seq<RoutedTrade>,
    fair_price: u64,
    venue: Venue,
)
    requires
        after_trades(totals, trades, fair_price) is Some,
    ensures
        after_trades(totals, trades, fair_price)->0.retail_volume_y.at(venue)
            == totals.retail_volume_y.at(venue) + trades_volume(trades, venue),
        after_trades(totals, trades, fair_price)->0.arb_volume_y.at(venue)
            == totals.arb_volume_y.at(venue),
    decreases trades.len(),
{
    if trades.len() > 0 {
        lemma_trades_add_their_volume(totals, trades.drop_last(), fair_price, venue);
    }
}

/// The cumulative arbitrage volume of a strategy is the sum of the Y of
/// the arbitrages against it, and its retail volume that of the Y of the
/// retail trades with it.
pub proof fn lemma_volumes_are_sums_over_ticks(history: Seq<TickEvents>, venue: Venue)
    requires
        accounts_after_ticks(history) is Some,
    ensures
        accounts_after_ticks(history)->0.arb_volume_y.at(venue) == run_arb_volume(history, venue),
        accounts_after_ticks(history)->0.retail_volume_y.at(venue) == run_retail_volume(
            history,
            venue,
        ),
    decreases history.len(),
{
    if history.len() > 0 {
        lemma_volumes_are_sums_over_ticks(history.drop_last(), venue);
        let totals = accounts_after_ticks(history.drop_last())->0;
        let tick = history.last();
        let first = after_arbitrage(totals, Venue::Submission, tick.arbitrage.submission)->0;
        let second = after_arbitrage(first, Venue::Normalizer, tick.arbitrage.normalizer)->0;
        lemma_trades_add_their_volume(second, tick.trades@, tick.fair_price, venue);
    }
}

/// The final profit and loss of a strategy is its final reserves and
/// collected fees at the final fair price less its initial reserves at
/// the initial fair price, and is the value recorded for the last tick.
pub proof fn lemma_final_pnl(
    result: LightweightSimResult,
    seed: u64,
    initial_fair_price: u64,
    initial_seen: PerStrategy<AmmSnapshot>,
    history: Seq<TickEvents>,
    venue: Venue,
)
    requires
        is_result_of(result, seed, initial_fair_price, initial_seen, history),
    ensures
        result.pnl.at(venue) == pnl_spec(
            latest(initial_fair_price, initial_seen, history).1.at(venue),
            latest(initial_fair_price, initial_seen, history).0,
            initial_seen.at(venue).reserves,
            initial_fair_price,
        ),
        history.len() > 0 ==> result.pnl.at(venue) == result.steps@.last().pnls.at(venue),
{
    if history.len() > 0 {
        let last = history.len() - 1;
        assert(capture_step_spec(
            last as u32,
            history[last].fair_price,
            history[last].seen,
            reserves_of(initial_seen),
            initial_fair_price,
        ) == Some(result.steps@[last]));
    }
}

/// A run without a tick reports no step and totals of zero, and for a
/// strategy that had collected no fees a profit and loss of zero.
pub proof fn lemma_run_without_ticks(
    result: LightweightSimResult,
    seed: u64,
    initial_fair_price: u64,
    initial_seen: PerStrategy<AmmSnapshot>,
    venue: Venue,
)
    requires
        is_result_of(result, seed, initial_fair_price, initial_seen, Seq::empty()),
    ensures
        result.steps@.len() == 0,
        result.instantaneous_markouts.at(venue) == 0,
        result.arb_volume_y.at(venue) == 0,
        result.retail_volume_y.at(venue) == 0,
        initial_seen.at(venue).accumulated_fees == (0u64, 0u64) ==> result.pnl.at(venue) == 0,
{
    if initial_seen.at(venue).accumulated_fees == (0u64, 0u64) {
        lemma_untouched_pnl_is_zero(initial_seen.at(venue), initial_fair_price);
    }
}

/// Two runs that start alike and see the same events report the same:
/// the same steps, the same final figures, the same names.
pub proof fn lemma_same_events_same_result(
    a: LightweightSimResult,
    b: LightweightSimResult,
    seed: u64,
    initial_fair_price: u64,
    initial_seen: PerStrategy<AmmSnapshot>,
    history: Seq<TickEvents>,
)
    requires
        is_result_of(a, seed, initial_fair_price, initial_seen, history),
        is_result_of(b, seed, initial_fair_price, initial_seen, history),
    ensures
        a.seed == b.seed,
        a.strategies@.len() == b.strategies@.len(),
        forall|i: int| 0 <= i < a.strategies@.len() ==> a.strategies@[i]@ == b.strategies@[i]@,
        a.pnl == b.pnl,
        a.instantaneous_markouts == b.instantaneous_markouts,
        a.initial_fair_price == b.initial_fair_price,
        a.initial_reserves == b.initial_reserves,
        a.steps@ == b.steps@,
        a.arb_volume_y == b.arb_volume_y,
        a.retail_volume_y == b.retail_volume_y,
{
    assert forall|i: int| 0 <= i < a.steps@.len() implies a.steps@[i] == b.steps@[i] by {
        assert(capture_step_spec(
            i as u32,
            history[i].fair_price,
            history[i].seen,
            reserves_of(initial_seen),
            initial_fair_price,
        ) == Some(a.steps@[i]));
        assert(capture_step_spec(
            i as u32,
            history[i].fair_price,
            history[i].seen,
            reserves_of(initial_seen),
            initial_fair_price,
        ) == Some(b.steps@[i]));
    }
    assert(a.steps@ =~= b.steps@);
}

/// Two runs of equally many ticks report results of the same shape,
/// whatever their seeds, their strategies and their events: the same two
/// names in the same order, equally many steps, and the same timestamps.
pub proof fn lemma_results_have_the_same_shape(
    a: LightweightSimResult,
    a_seed: u64,
    a_initial_fair_price: u64,
    a_initial_seen: PerStrategy<AmmSnapshot>,
    a_history: Seq<TickEvents>,
    b: LightweightSimResult,
    b_seed: u64,
    b_initial_fair_price: u64,
    b_initial_seen: PerStrategy<AmmSnapshot>,
    b_history: Seq<TickEvents>,
)
    requires
        is_result_of(a, a_seed, a_initial_fair_price, a_initial_seen, a_history),
        is_result_of(b, b_seed, b_initial_fair_price, b_initial_seen, b_history),
        a_history.len() == b_history.len(),
    ensures
        a.strategies@.len() == 2,
        b.strategies@.len() == 2,
        a.strategies@[0]@ == b.strategies@[0]@,
        a.strategies@[1]@ == b.strategies@[1]@,
        a.steps@.len() == b.steps@.len(),
        forall|i: int|
            0 <= i < a.steps@.len() ==> (#[trigger] a.steps@[i]).timestamp == b.steps@[i].timestamp,
{
    assert forall|i: int| 0 <= i < a.steps@.len() implies (#[trigger] a.steps@[i]).timestamp
        == b.steps@[i].timestamp by {
        assert(capture_step_spec(
            i as u32,
            a_history[i].fair_price,
            a_history[i].seen,
            reserves_of(a_initial_seen),
            a_initial_fair_price,
        ) == Some(a.steps@[i]));
        assert(capture_step_spec(
            i as u32,
            b_history[i].fair_price,
            b_history[i].seen,
            reserves_of(b_initial_seen),
            b_initial_fair_price,
        ) == Some(b.steps@[i]));
    }
}

/// What a run has recorded so far.
///
/// A state is made by `start` and `advance` alone, so it always is what
/// the ticks it was advanced by make it: `history` names them.
pub struct SimulationState {
    seed: u64,
    initial_fair_price: u64,
    initial_seen: PerStrategy<AmmSnapshot>,
    fair_price: u64,
    seen: PerStrategy<AmmSnapshot>,
    accounts: Accounts,
    steps: Vec<LightweightStepResult>,
    history: Ghost<Seq<TickEvents>>,
}

impl SimulationState {
    /// Seed of the run.
    pub closed spec fn seed(self) -> u64 {
        self.seed
    }

    /// Fair price before the first tick.
    pub closed spec fn initial_fair_price(self) -> u64 {
        self.initial_fair_price
    }

    /// State of each AMM before the first tick.
    pub closed spec fn initial_seen(self) -> PerStrategy<AmmSnapshot> {
        self.initial_seen
    }

    /// The events of each tick recorded so far, in order.
    pub closed spec fn history(self) -> Seq<TickEvents> {
        self.history@
    }

    /// The state is what its history makes it: one step for each tick, each
    /// the record of its tick, the totals those after all ticks, and the
    /// latest price and snapshots those of the last tick.
    #[verifier::type_invariant]
    spec fn well_formed(self) -> bool {
        &&& self.steps@.len() == self.history@.len()
        &&& self.steps@.len() <= u32::MAX
        &&& forall|i: int|
            0 <= i < self.history@.len() ==> capture_step_spec(
                i as u32,
                self.history@[i].fair_price,
                self.history@[i].seen,
                reserves_of(self.initial_seen),
                self.initial_fair_price,
            ) == Some(#[trigger] self.steps@[i])
        &&& accounts_after_ticks(self.history@) == Some(self.accounts)
        &&& (self.fair_price, self.seen) == latest(
            self.initial_fair_price,
            self.initial_seen,
            self.history@,
        )
    }

    /// The state of a run before its first tick.
    pub fn start(seed: u64, initial_fair_price: u64, initial_seen: PerStrategy<AmmSnapshot>) -> (r:
        Self)
        ensures
            r.seed() == seed,
            r.initial_fair_price() == initial_fair_price,
            r.initial_seen() == initial_seen,
            r.history() == Seq::<TickEvents>::empty(),
    {
        SimulationState {
            seed,
            initial_fair_price,
            initial_seen,
            fair_price: initial_fair_price,
            seen: initial_seen,
            accounts: Accounts::new(),
            steps: Vec::new(),
            history: Ghost(Seq::empty()),
        }
    }

    /// Whether the events of `tick` can be recorded next: the totals can
    /// take them, the profit and loss of both strategies fits, and the
    /// index of the tick fits in 32 bits.
    pub open spec fn admits(self, tick: TickEvents) -> bool {
        &&& accounts_after_ticks(self.history().push(tick)) is Some
        &&& capture_step_spec(
            self.history().len() as u32,
            tick.fair_price,
            tick.seen,
            reserves_of(self.initial_seen()),
            self.initial_fair_price(),
        ) is Some
        &&& self.history().len() < u32::MAX
    }

    /// Records the events of one tick. Returns the state with `tick` added
    /// to its history, or `None` where `tick` cannot be recorded.
    pub fn advance(self, tick: &TickEvents) -> (r: Option<Self>)
        ensures
            r is Some == self.admits(*tick),
            r matches Some(next) ==> {
                &&& next.history() == self.history().push(*tick)
                &&& next.seed() == self.seed()
                &&& next.initial_fair_price() == self.initial_fair_price()
                &&& next.initial_seen() == self.initial_seen()
            },
    {
        proof {
            use_type_invariant(&self);
            assert(self.history@.push(*tick).drop_last() =~= self.history@);
        }
        let first: Accounts = match record_arbitrage(
            self.accounts,
            Venue::Submission,
            &tick.arbitrage.submission,
        ) {
            Some(totals) => totals,
            None => {
                return None;
            },
        };
        let second: Accounts = match record_arbitrage(
            first,
            Venue::Normalizer,
            &tick.arbitrage.normalizer,
        ) {
            Some(totals) => totals,
            None => {
                return None;
            },
        };
        let totals: Accounts = match record_trades(second, &tick.trades, tick.fair_price) {
            Some(totals) => totals,
            None => {
                return None;
            },
        };
        if self.steps.len() >= 0xffff_ffff {
            return None;
        }
        let timestamp: u32 = self.steps.len() as u32;
        let initial_reserves: PerStrategy<(u64, u64)> = PerStrategy {
            submission: self.initial_seen.submission.reserves,
            normalizer: self.initial_seen.normalizer.reserves,
        };
        let step: LightweightStepResult = match capture_step(
            timestamp,
            tick.fair_price,
            &tick.seen,
            &initial_reserves,
            self.initial_fair_price,
        ) {
            Some(step) => step,
            None => {
                return None;
            },
        };
        let ghost history = self.history@.push(*tick);
        let mut steps: Vec<LightweightStepResult> = self.steps;
        steps.push(step);
        Some(
            SimulationState {
                seed: self.seed,
                initial_fair_price: self.initial_fair_price,
                initial_seen: self.initial_seen,
                fair_price: tick.fair_price,
                seen: tick.seen,
                accounts: totals,
                steps,
                history: Ghost(history),
            },
        )
    }

    /// The result of the run as far as it has come; `None` where the
    /// profit and loss of a strategy does not fit, which can only be
    /// before the first tick.
    pub fn finish(self) -> (r: Option<LightweightSimResult>)
        ensures
            r is Some == pnl_pair_spec(
                latest(self.initial_fair_price(), self.initial_seen(), self.history()).1,
                latest(self.initial_fair_price(), self.initial_seen(), self.history()).0,
                reserves_of(self.initial_seen()),
                self.initial_fair_price(),
            ) is Some,
            self.history().len() > 0 ==> r is Some,
            r matches Some(result) ==> is_result_of(
                result,
                self.seed(),
                self.initial_fair_price(),
                self.initial_seen(),
                self.history(),
            ),
    {
        proof {
            use_type_invariant(&self);
            if self.history@.len() > 0 {
                let last = self.history@.len() - 1;
                assert(capture_step_spec(
                    last as u32,
                    self.history@[last].fair_price,
                    self.history@[last].seen,
                    reserves_of(self.initial_seen),
                    self.initial_fair_price,
                ) == Some(self.steps@[last]));
            }
        }
        let initial_reserves: PerStrategy<(u64, u64)> = PerStrategy {
            submission: self.initial_seen.submission.reserves,
            normalizer: self.initial_seen.normalizer.reserves,
        };
        let pnl: PerStrategy<i128> = match pnl_pair(
            &self.seen,
            self.fair_price,
            &initial_reserves,
            self.initial_fair_price,
        ) {
            Some(pnl) => pnl,
            None => {
                return None;
            },
        };
        let mut strategies: Vec<String> = Vec::new();
        strategies.push(Venue::Submission.name());
        strategies.push(Venue::Normalizer.name());
        Some(
            LightweightSimResult {
                seed: self.seed,
                strategies,
                pnl,
                instantaneous_markouts: self.accounts.markouts,
                initial_fair_price: self.initial_fair_price,
                initial_reserves,
                steps: self.steps,
                arb_volume_y: self.accounts.arb_volume_y,
                retail_volume_y: self.accounts.retail_volume_y,
            },
        )
    }
}

} // verus!
