//! The parties that trade against the AMMs.

pub mod arbitrageur;
pub mod price_process;
pub mod retail;
pub mod router;

pub use arbitrageur::{ArbPlan, ArbResult, Arbitrageur};
pub use price_process::PriceProcess;
pub use retail::{RetailOrder, RetailTrader};
pub use router::{OrderRouter, RoutedTrade};
