//! The simulation engine.
//!
//! Each tick: a new fair price is drawn, the arbitrageur trades against
//! each AMM, retail orders arrive and are routed, and the state of both
//! AMMs is recorded.

use crate::amm::{Amm, AmmPair, AmmSnapshot, PricingStrategy};
use crate::market::arbitrageur::{arb_result, ArbResult, Arbitrageur};
use crate::market::price_process::PriceProcess;
use crate::market::retail::{RetailOrder, RetailTrader};
use crate::market::router::{OrderRouter, RoutedTrade};
use crate::simulation::accounting::{pnl_pair, pnl_pair_spec, Accounts};
use crate::simulation::state::{
    is_result_of, lemma_run_without_ticks, reserves_of, SimulationState, TickEvents,
};
use crate::types::config::SimulationConfig;
use crate::types::result::{
    normalizer_name, submission_name, LightweightSimResult, LightweightStepResult, PerStrategy,
    Venue,
};
use vstd::prelude::*;
use vstd::string::StringExecFns;

verus! {

/// Why a simulation ended without a result.
#[derive(Debug)]
pub enum SimulationError {
    /// A strategy failed, or reported figures that cannot be accounted.
    EVMError(String),
    /// The configuration cannot be run.
    InvalidConfig(String),
}

impl SimulationError {
    /// The text that `describe` gives.
    pub open spec fn description(self) -> Seq<char> {
        match self {
            SimulationError::EVMError(s) => "EVM error: "@ + s@,
            SimulationError::InvalidConfig(s) => "Invalid config: "@ + s@,
        }
    }

    /// The error in words: its kind, then its message.
    pub fn describe(&self) -> (r: String)
        ensures
            r@ == self.description(),
    {
        match self {
            SimulationError::EVMError(s) => String::from_str("EVM error: ").concat(s.as_str()),
            SimulationError::InvalidConfig(s) => String::from_str("Invalid config: ").concat(
                s.as_str(),
            ),
        }
    }
}

/// The record of a tick: the state of both AMMs as `seen` and their
/// profit and loss at `fair_price`; `None` where one does not fit.
pub open spec fn capture_step_spec(
    timestamp: u32,
    fair_price: u64,
    seen: PerStrategy<AmmSnapshot>,
    initial_reserves: PerStrategy<(u64, u64)>,
    initial_fair_price: u64,
) -> Option<LightweightStepResult> {
    match pnl_pair_spec(seen, fair_price, initial_reserves, initial_fair_price) {
        Some(pnls) => Some(
            LightweightStepResult {
                timestamp,
                fair_price,
                spot_prices: PerStrategy {
                    submission: seen.submission.spot_price,
                    normalizer: seen.normalizer.spot_price,
                },
                pnls,
                fees: PerStrategy {
                    submission: (seen.submission.fees.bid_fee, seen.submission.fees.ask_fee),
                    normalizer: (seen.normalizer.fees.bid_fee, seen.normalizer.fees.ask_fee),
                },
            },
        ),
        None => None,
    }
}

/// Computes `capture_step_spec`.
pub fn capture_step(
    timestamp: u32,
    fair_price: u64,
    seen: &PerStrategy<AmmSnapshot>,
    initial_reserves: &PerStrategy<(u64, u64)>,
    initial_fair_price: u64,
) -> (r: Option<LightweightStepResult>)
    ensures
        r == capture_step_spec(timestamp, fair_price, *seen, *initial_reserves, initial_fair_price),
{
    match pnl_pair(seen, fair_price, initial_reserves, initial_fair_price) {
        Some(pnls) => Some(
            LightweightStepResult {
                timestamp,
                fair_price,
                spot_prices: PerStrategy {
                    submission: seen.submission.spot_price,
                    normalizer: seen.normalizer.spot_price,
                },
                pnls,
                fees: PerStrategy {
                    submission: (seen.submission.fees.bid_fee, seen.submission.fees.ask_fee),
                    normalizer: (seen.normalizer.fees.bid_fee, seen.normalizer.fees.ask_fee),
                },
            },
        ),
        None => None,
    }
}

/// Runs simulations of two strategies that compete for the same retail
/// orders.
pub struct SimulationEngine {
    config: SimulationConfig,
}

impl SimulationEngine {
    /// The configuration that the engine runs.
    pub closed spec fn config(&self) -> SimulationConfig {
        self.config
    }

    /// An engine that runs `config`.
    pub fn new(config: SimulationConfig) -> (r: Self)
        ensures
            r.config() == config,
    {
        SimulationEngine { config }
    }

    /// Runs one simulation of `submission` against `baseline`.
    ///
    /// A seed that leaves none for the retail orders is an invalid
    /// configuration. A strategy that fails to initialize ends the run
    /// with its own message, the submission first. Otherwise the price
    /// process `P`, the retail generator `R`, the router `O` and the two
    /// strategies decide what happens in each tick, and the engine records
    /// it in a `SimulationState`.
    ///
    /// A run without a step cannot fail once both strategies are
    /// initialized, provided that what they then hold can be valued at any
    /// fair price, and fails only where at some fair price it cannot. It
    /// reports a profit and loss of zero for a strategy that starts without
    /// collected fees.
    ///
    /// Of a run with steps the contract states what holds of the result
    /// whatever the price process, the retail generator and the router
    /// answer. There is an initial fair price, a history of one tick for
    /// each configured step, and the AMMs as they stood before each tick
    /// and after the last, such that
    ///
    /// - the AMMs first stand as their strategies are after initialization,
    ///   under the names `"submission"` and `"normalizer"` (`begins`);
    /// - the arbitrage of each tick is exactly `arb_result` of each AMM as
    ///   it stood before the tick, at the fair price of the tick and with
    ///   the index of the tick as timestamp, and what is seen at the end
    ///   of the tick is what the AMMs then show (`ticks_follow`);
    /// - the result is exactly what `is_result_of` says of that history.
    ///
    /// The final fair price is that of the last tick, and the final state
    /// of an AMM is the one recorded for that tick.
    pub fn run<S, P, R, O>(&mut self, submission: S, baseline: S) -> (r: Result<
        LightweightSimResult,
        SimulationError,
    >) where S: PricingStrategy, P: PriceProcess, R: RetailTrader, O: OrderRouter
        ensures
            *final(self) == *old(self),
            !old(self).config().seeds_fit() ==> r is Err,
            r matches Err(e) ==> (e is InvalidConfig <==> !old(self).config().seeds_fit()),
            old(self).config().seeds_fit() ==> (first_failure(
                submission,
                baseline,
                old(self).config(),
            ) matches Some(message) ==> r == Err::<LightweightSimResult, SimulationError>(
                SimulationError::EVMError(message),
            )),
            (old(self).config().seeds_fit() && first_failure(
                submission,
                baseline,
                old(self).config(),
            ) is None && old(self).config().n_steps == 0 && forall|price: u64| #[trigger]
                pnl_pair_spec(
                    started(submission, baseline, old(self).config()),
                    price,
                    reserves_of(started(submission, baseline, old(self).config())),
                    price,
                ) is Some) ==> r is Ok,
            (old(self).config().seeds_fit() && first_failure(
                submission,
                baseline,
                old(self).config(),
            ) is None && old(self).config().n_steps == 0 && r is Err) ==> exists|price: u64| #[trigger]
                pnl_pair_spec(
                    started(submission, baseline, old(self).config()),
                    price,
                    reserves_of(started(submission, baseline, old(self).config())),
                    price,
                ) is None,
            r matches Ok(result) ==> {
                &&& first_failure(submission, baseline, old(self).config()) is None
                &&& exists|
                    initial_fair_price: u64,
                    history: Seq<TickEvents>,
                    stages: Seq<AmmPair<S>>,
                |
                    {
                        &&& history.len() == old(self).config().n_steps
                        &&& begins(stages[0], submission, baseline, old(self).config())
                        &&& #[trigger] ticks_follow(stages, history)
                        &&& arbitrage_gains(history)
                        &&& #[trigger] is_result_of(
                            result,
                            old(self).config().price_seed(),
                            initial_fair_price,
                            started(submission, baseline, old(self).config()),
                            history,
                        )
                    }
                &&& result.initial_reserves == reserves_of(
                    started(submission, baseline, old(self).config()),
                )
                &&& forall|venue: Venue|
                    #![trigger result.pnl.at(venue)]
                    old(self).config().n_steps == 0 && started(
                        submission,
                        baseline,
                        old(self).config(),
                    ).at(venue).accumulated_fees == (0u64, 0u64) ==> result.pnl.at(venue) == 0
                &&& result.seed == old(self).config().price_seed()
                &&& result.strategies@.len() == 2
                &&& result.strategies@[0]@ == submission_name()
                &&& result.strategies@[1]@ == normalizer_name()
                &&& result.steps@.len() == old(self).config().n_steps
                &&& forall|i: int|
                    0 <= i < result.steps@.len() ==> (#[trigger] result.steps@[i]).timestamp == i
                &&& result.steps@.len() > 0 ==> result.pnl == result.steps@.last().pnls
                &&& result.steps@.len() == 0 ==> (Accounts {
                    markouts: result.instantaneous_markouts,
                    arb_volume_y: result.arb_volume_y,
                    retail_volume_y: result.retail_volume_y,
                }) == Accounts::zero()
            },
    {
        let config: SimulationConfig = self.config;
        let ghost start = started(submission, baseline, config);
        let ghost failure = first_failure(submission, baseline, config);
        let (seed, retail_seed): (u64, u64) = match config.seeds() {
            Some(seeds) => seeds,
            None => {
                return Err(
                    SimulationError::InvalidConfig(
                        String::from_str("the seed leaves no seed for the retail orders"),
                    ),
                );
            },
        };
        let mut price_process: P = P::new(
            config.initial_price,
            config.gbm_mu,
            config.gbm_sigma,
            config.gbm_dt,
            Some(seed),
        );
        let mut retail_trader: R = R::new(
            config.retail_arrival_rate,
            config.retail_mean_size,
            config.retail_size_sigma,
            config.retail_buy_prob,
            Some(retail_seed),
        );
        let arbitrageur: Arbitrageur = Arbitrageur::new();
        let router: O = O::new();

        let mut amms: AmmPair<S> = AmmPair {
            submission: Amm::new(Venue::Submission.name(), submission),
            normalizer: Amm::new(Venue::Normalizer.name(), baseline),
        };
        match amms.submission.strategy.initialize(config.initial_x, config.initial_y) {
            Ok(_) => {},
            Err(e) => {
                return Err(SimulationError::EVMError(e));
            },
        }
        match amms.normalizer.strategy.initialize(config.initial_x, config.initial_y) {
            Ok(_) => {},
            Err(e) => {
                return Err(SimulationError::EVMError(e));
            },
        }

        let initial_fair_price: u64 = price_process.current_price();
        let initial_seen: PerStrategy<AmmSnapshot> = PerStrategy {
            submission: AmmSnapshot::observe(&amms.submission),
            normalizer: AmmSnapshot::observe(&amms.normalizer),
        };
        assert(initial_seen == start);
        let ghost mut stages: Seq<AmmPair<S>> = seq![amms];
        let mut state: SimulationState = SimulationState::start(
            seed,
            initial_fair_price,
            initial_seen,
        );

        let mut t: u32 = 0;
        while t < config.n_steps
            invariant
                t <= config.n_steps,
                config == old(self).config(),
                config.seeds_fit(),
                seed == config.price_seed(),
                *self == *old(self),
                state.seed() == seed,
                state.initial_fair_price() == initial_fair_price,
                state.initial_seen() == initial_seen,
                initial_seen == start,
                start == started(submission, baseline, config),
                failure == first_failure(submission, baseline, config),
                failure is None,
                state.history().len() == t,
                arbitrage_gains(state.history()),
                stages.len() == t + 1,
                stages.last() == amms,
                begins(stages[0], submission, baseline, config),
                ticks_follow(stages, state.history()),
            decreases config.n_steps - t,
        {
            let ghost earlier = stages;
            let ghost recorded = state.history();
            let fair_price: u64 = price_process.step();
            let first: Option<ArbResult> = arbitrageur.execute_arb(
                &mut amms.submission,
                fair_price,
                t as u64,
            );
            let second: Option<ArbResult> = arbitrageur.execute_arb(
                &mut amms.normalizer,
                fair_price,
                t as u64,
            );
            let orders: Vec<RetailOrder> = retail_trader.generate_orders();
            let trades: Vec<RoutedTrade> = router.route_orders(
                &orders,
                &mut amms,
                fair_price,
                t as u64,
            );
            let tick: TickEvents = TickEvents {
                fair_price,
                arbitrage: PerStrategy { submission: first, normalizer: second },
                trades,
                seen: PerStrategy {
                    submission: AmmSnapshot::observe(&amms.submission),
                    normalizer: AmmSnapshot::observe(&amms.normalizer),
                },
            };
            state = match state.advance(&tick) {
                Some(next) => next,
                None => {
                    return Err(
                        SimulationError::EVMError(
                            String::from_str(
                                "a trade names no AMM, or a figure exceeds the range of the accounts",
                            ),
                        ),
                    );
                },
            };
            proof {
                stages = earlier.push(amms);
                assert(tick_follows(earlier.last(), amms, tick, t as u64));
                assert forall|i: int| 0 <= i < state.history().len() implies tick_follows(
                    stages[i],
                    stages[i + 1],
                    #[trigger] state.history()[i],
                    i as u64,
                ) by {
                    if i < t {
                        assert(tick_follows(earlier[i], earlier[i + 1], recorded[i], i as u64));
                    }
                }
            }
            t = t + 1;
        }

        let ghost history = state.history();
        match state.finish() {
            Some(result) => {
                proof {
                    lemma_result_shape(result, seed, initial_fair_price, initial_seen, history);
                    if config.n_steps == 0 {
                        assert(history =~= Seq::empty());
                        lemma_run_without_ticks(
                            result,
                            seed,
                            initial_fair_price,
                            initial_seen,
                            Venue::Submission,
                        );
                        lemma_run_without_ticks(
                            result,
                            seed,
                            initial_fair_price,
                            initial_seen,
                            Venue::Normalizer,
                        );
                    }
                }
                Ok(result)
            },
            None => Err(
                SimulationError::EVMError(
                    String::from_str("a profit and loss exceeds the range of the accounts"),
                ),
            ),
        }
    }
}

/// Whether `first` is the pair of AMMs that a run begins with: each
/// strategy as its initialization with the configured reserves leaves it,
/// the submission under the name `"submission"` and the baseline under the
/// name `"normalizer"`.
pub open spec fn begins<S: PricingStrategy>(
    first: AmmPair<S>,
    submission: S,
    baseline: S,
    config: SimulationConfig,
) -> bool {
    &&& first.submission.name@ == submission_name()
    &&& first.normalizer.name@ == normalizer_name()
    &&& first.submission.strategy == submission.spec_after_initialize(
        config.initial_x,
        config.initial_y,
    )
    &&& first.normalizer.strategy == baseline.spec_after_initialize(
        config.initial_x,
        config.initial_y,
    )
}

/// Whether `tick` is what the engine records of a tick that the AMMs
/// enter as `before` and leave as `after`: the arbitrage against each AMM
/// is the outcome of an arbitrage against it as it stood before, at the
/// fair price of the tick, and what is seen is what the AMMs show after.
pub open spec fn tick_follows<S: PricingStrategy>(
    before: AmmPair<S>,
    after: AmmPair<S>,
    tick: TickEvents,
    timestamp: u64,
) -> bool {
    &&& tick.arbitrage.submission == arb_result(before.submission, tick.fair_price, timestamp)
    &&& tick.arbitrage.normalizer == arb_result(before.normalizer, tick.fair_price, timestamp)
    &&& tick.seen == (PerStrategy {
        submission: AmmSnapshot::of(after.submission),
        normalizer: AmmSnapshot::of(after.normalizer),
    })
}

/// Whether each tick of `history` follows from the AMMs as they stood:
/// `stages` holds the AMMs before each tick and, last, after the last
/// tick, and tick `t` carries the timestamp `t`.
pub open spec fn ticks_follow<S: PricingStrategy>(
    stages: Seq<AmmPair<S>>,
    history: Seq<TickEvents>,
) -> bool {
    &&& stages.len() == history.len() + 1
    &&& forall|t: int|
        0 <= t < history.len() ==> tick_follows(
            stages[t],
            stages[t + 1],
            #[trigger] history[t],
            t as u64,
        )
}

/// What the AMMs of a run show before its first tick: each strategy as
/// its initialization with the configured reserves leaves it.
pub open spec fn started<S: PricingStrategy>(
    submission: S,
    baseline: S,
    config: SimulationConfig,
) -> PerStrategy<AmmSnapshot> {
    PerStrategy {
        submission: AmmSnapshot::of_strategy(
            submission.spec_after_initialize(config.initial_x, config.initial_y),
        ),
        normalizer: AmmSnapshot::of_strategy(
            baseline.spec_after_initialize(config.initial_x, config.initial_y),
        ),
    }
}

/// The message of the first strategy that fails to initialize, the
/// submission before the baseline; `None` where both succeed.
pub open spec fn first_failure<S: PricingStrategy>(
    submission: S,
    baseline: S,
    config: SimulationConfig,
) -> Option<String> {
    match submission.spec_initialize(config.initial_x, config.initial_y) {
        Err(message) => Some(message),
        Ok(_) => match baseline.spec_initialize(config.initial_x, config.initial_y) {
            Err(message) => Some(message),
            Ok(_) => None,
        },
    }
}

/// Every arbitrage among the events of `history` made a profit at the
/// fair price of its tick.
pub open spec fn arbitrage_gains(history: Seq<TickEvents>) -> bool {
    forall|t: int, venue: Venue|
        0 <= t < history.len() ==> (#[trigger] history[t].arbitrage.at(venue) matches Some(arb)
            ==> arb.settles_at(history[t].fair_price) && arb.profit > 0)
}

/// What `is_result_of` says of the shape of a result: the steps are
/// numbered from zero, the final profit and loss is the one recorded for
/// the last tick, and without a tick all totals are zero.
pub proof fn lemma_result_shape(
    result: LightweightSimResult,
    seed: u64,
    initial_fair_price: u64,
    initial_seen: PerStrategy<AmmSnapshot>,
    history: Seq<TickEvents>,
)
    requires
        is_result_of(result, seed, initial_fair_price, initial_seen, history),
    ensures
        forall|i: int|
            0 <= i < result.steps@.len() ==> (#[trigger] result.steps@[i]).timestamp == i,
        result.steps@.len() > 0 ==> result.pnl == result.steps@.last().pnls,
        result.steps@.len() == 0 ==> (Accounts {
            markouts: result.instantaneous_markouts,
            arb_volume_y: result.arb_volume_y,
            retail_volume_y: result.retail_volume_y,
        }) == Accounts::zero(),
{
    if result.steps@.len() > 0 {
        let last = result.steps@.len() - 1;
        assert(capture_step_spec(
            last as u32,
            history[last].fair_price,
            history[last].seen,
            reserves_of(initial_seen),
            initial_fair_price,
        ) == Some(result.steps@[last]));
    }
}

} // verus!
