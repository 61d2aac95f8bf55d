//! A verified, fixed-point simulator of competing automated market makers.
//!
//! Two pricing strategies, a submission and a normalizer, each run an AMM.
//! In every tick a fair price is drawn, an arbitrageur trades each AMM
//! back towards it, retail orders are routed to the AMMs, and the state of
//! both is recorded. The outcome is the profit and loss, the markouts and
//! the volumes of each strategy.
//!
//! Asset quantities are whole numbers of base units. Prices and fee rates
//! are whole numbers of `1 / SCALE`. Values (a quantity of the risky asset
//! times a price, or a quantity of the numeraire times `SCALE`) are exact
//! integers, so no contract in this crate speaks of rounding except where a
//! square root is taken.
//!
//! The strategies, the price process, the retail orders and the router are
//! supplied from outside through the traits of `amm` and `market`. Of a
//! strategy the crate relies on one thing only: that what it answers
//! depends on its state and on the question, so that each answer has a
//! name. Of the others it relies on nothing. What the arbitrageur does to
//! an AMM is stated exactly over the strategy's answers, and what a run
//! accounts exactly over the events of its ticks.

pub mod amm;
pub mod fixed_point;
pub mod market;
pub mod simulation;
pub mod types;
