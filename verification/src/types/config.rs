//! The parameters of a simulation.

use vstd::prelude::*;

verus! {

/// The parameters of one simulation. Prices, rates, probabilities and the
/// time step are in units of `1 / SCALE`; reserves are in base units.
#[derive(Clone, Copy, Debug)]
pub struct SimulationConfig {
    /// Fair price before the first tick.
    pub initial_price: u64,
    /// Drift of the fair price.
    pub gbm_mu: i64,
    /// Volatility of the fair price.
    pub gbm_sigma: u64,
    /// Time that one tick stands for.
    pub gbm_dt: u64,
    /// Mean number of retail orders per tick.
    pub retail_arrival_rate: u64,
    /// Mean size of a retail order.
    pub retail_mean_size: u64,
    /// Dispersion of the size of a retail order.
    pub retail_size_sigma: u64,
    /// Probability that a retail order is a buy.
    pub retail_buy_prob: u64,
    /// X reserves that each AMM starts with.
    pub initial_x: u64,
    /// Y reserves that each AMM starts with.
    pub initial_y: u64,
    /// Number of ticks to simulate.
    pub n_steps: u32,
    /// Seed of the run; `None` stands for 0.
    pub seed: Option<u64>,
}

impl SimulationConfig {
    /// The seed of the fair-price process: the configured seed, or 0.
    pub open spec fn price_seed(self) -> u64 {
        match self.seed {
            Some(seed) => seed,
            None => 0,
        }
    }

    /// Whether the retail generator can be given a seed of its own, one
    /// above that of the price process.
    pub open spec fn seeds_fit(self) -> bool {
        self.price_seed() < u64::MAX
    }

    /// The seed of the price process and that of the retail generator,
    /// which is one above it so that the two streams differ; `None` where
    /// there is no such number.
    pub fn seeds(&self) -> (r: Option<(u64, u64)>)
        ensures
            r == if self.seeds_fit() {
                Some((self.price_seed(), (self.price_seed() + 1) as u64))
            } else {
                None::<(u64, u64)>
            },
    {
        let seed: u64 = match self.seed {
            Some(seed) => seed,
            None => 0,
        };
        match seed.checked_add(1) {
            Some(next) => Some((seed, next)),
            None => None,
        }
    }
}

} // verus!
