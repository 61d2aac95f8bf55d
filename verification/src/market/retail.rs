//! The source of uninformed retail orders.

use vstd::prelude::*;

verus! {

/// One retail order.
#[derive(Clone, Copy, Debug)]
pub struct RetailOrder {
    /// Whether the trader wants to buy X (else to sell it).
    pub is_buy: bool,
    /// Size of the order, in base units of Y.
    pub size: u64,
}

/// A generator of retail orders that is determined by its parameters and
/// its seed.
///
/// Rates, sizes and probabilities are in units of `1 / SCALE`.
pub trait RetailTrader: Sized {
    /// A generator with the given arrival rate, mean order size, size
    /// dispersion and probability of a buy.
    fn new(
        arrival_rate: u64,
        mean_size: u64,
        size_sigma: u64,
        buy_prob: u64,
        seed: Option<u64>,
    ) -> Self;

    /// The orders that arrive in the next tick.
    fn generate_orders(&mut self) -> Vec<RetailOrder>;
}

} // verus!
