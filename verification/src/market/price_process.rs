//! The source of the fair price.

use vstd::prelude::*;

verus! {

/// A stochastic process that yields one fair price per tick and is
/// determined by its parameters and its seed.
///
/// Prices, drift, volatility and time step are in units of `1 / SCALE`.
pub trait PriceProcess: Sized {
    /// A process that starts at `initial_price`.
    fn new(initial_price: u64, mu: i64, sigma: u64, dt: u64, seed: Option<u64>) -> Self;

    /// The price of the latest tick, or the initial price before the first.
    fn current_price(&self) -> u64;

    /// Advances by one tick and returns the new price.
    fn step(&mut self) -> u64;
}

} // verus!
