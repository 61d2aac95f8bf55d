//! The policy that sends retail orders to AMMs.

use crate::amm::{AmmPair, PricingStrategy};
use crate::market::retail::RetailOrder;
use vstd::prelude::*;

verus! {

/// A retail trade as one AMM carried it out.
#[derive(Clone, Debug)]
pub struct RoutedTrade {
    /// Name of the AMM that traded.
    pub amm_name: String,
    /// Quantity of X traded.
    pub amount_x: u64,
    /// Quantity of Y traded.
    pub amount_y: u64,
    /// Whether the AMM was the buyer of X.
    pub amm_buys_x: bool,
}

/// A policy that decides which AMM fills each order and has it filled.
pub trait OrderRouter: Sized {
    /// A router.
    fn new() -> Self;

    /// Executes `orders` against `amms` and returns the trades made.
    fn route_orders<S: PricingStrategy>(
        &self,
        orders: &Vec<RetailOrder>,
        amms: &mut AmmPair<S>,
        fair_price: u64,
        timestamp: u64,
    ) -> Vec<RoutedTrade>;
}

} // verus!
