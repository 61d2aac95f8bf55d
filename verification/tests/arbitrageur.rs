use amm_sim::amm::{Amm, FeeQuote, PricingStrategy, TradeInfo};
use amm_sim::fixed_point::SCALE;
use amm_sim::market::{ArbPlan, Arbitrageur};

const UNIT: u64 = 1_000_000_000;

/// A constant-product pool with fixed fees, charged in Y.
struct Pool {
    x: u64,
    y: u64,
    bid_fee: u32,
    ask_fee: u32,
    fee_y: u64,
    refuses: bool,
    executed: Vec<(bool, u64, u64)>,
}

impl Pool {
    fn with(x: u64, y: u64, bid_fee: u32, ask_fee: u32) -> Pool {
        Pool { x, y, bid_fee, ask_fee, fee_y: 0, refuses: false, executed: Vec::new() }
    }
}

fn ceil_div(a: u128, b: u128) -> u128 {
    (a + b - 1) / b
}

impl PricingStrategy for Pool {
    // The names under which contracts speak of the answers below. Nothing ever calls them.
    fn spec_initialize(&self, _initial_x: u64, _initial_y: u64) -> Result<(), String> {
        unreachable!()
    }

    fn spec_after_initialize(&self, _initial_x: u64, _initial_y: u64) -> Self {
        unreachable!()
    }

    fn spec_reserves(&self) -> (u64, u64) {
        unreachable!()
    }

    fn spec_fees(&self) -> FeeQuote {
        unreachable!()
    }

    fn spec_spot_price(&self) -> u64 {
        unreachable!()
    }

    fn spec_accumulated_fees(&self) -> (u64, u64) {
        unreachable!()
    }

    fn spec_quote_sell_x(&self, _amount_x: u64) -> (u64, u64) {
        unreachable!()
    }

    fn spec_quote_buy_x(&self, _amount_x: u64) -> (u64, u64) {
        unreachable!()
    }

    fn spec_sell_x(&self, _amount_x: u64, _timestamp: u64) -> Option<TradeInfo> {
        unreachable!()
    }

    fn spec_after_sell_x(&self, _amount_x: u64, _timestamp: u64) -> Self {
        unreachable!()
    }

    fn spec_buy_x(&self, _amount_x: u64, _timestamp: u64) -> Option<TradeInfo> {
        unreachable!()
    }

    fn spec_after_buy_x(&self, _amount_x: u64, _timestamp: u64) -> Self {
        unreachable!()
    }

    fn initialize(&mut self, initial_x: u64, initial_y: u64) -> Result<(), String> {
        self.x = initial_x;
        self.y = initial_y;
        Ok(())
    }

    fn reserves(&self) -> (u64, u64) {
        (self.x, self.y)
    }

    fn fees(&self) -> FeeQuote {
        FeeQuote { bid_fee: self.bid_fee, ask_fee: self.ask_fee }
    }

    fn spot_price(&self) -> u64 {
        (self.y as u128 * SCALE as u128 / self.x as u128) as u64
    }

    fn accumulated_fees(&self) -> (u64, u64) {
        (0, self.fee_y)
    }

    fn quote_sell_x(&self, amount_x: u64) -> (u64, u64) {
        if amount_x == 0 || amount_x >= self.x {
            return (0, 0);
        }
        let net = ceil_div(self.y as u128 * amount_x as u128, (self.x - amount_x) as u128);
        let fee = ceil_div(net * self.ask_fee as u128, SCALE as u128);
        ((net + fee) as u64, fee as u64)
    }

    fn quote_buy_x(&self, amount_x: u64) -> (u64, u64) {
        if amount_x == 0 {
            return (0, 0);
        }
        let gross = self.y as u128 * amount_x as u128 / (self.x as u128 + amount_x as u128);
        let fee = ceil_div(gross * self.bid_fee as u128, SCALE as u128);
        ((gross - fee) as u64, fee as u64)
    }

    fn execute_sell_x(&mut self, amount_x: u64, timestamp: u64) -> Option<TradeInfo> {
        let (total, fee) = self.quote_sell_x(amount_x);
        if self.refuses || total == 0 {
            return None;
        }
        self.x -= amount_x;
        self.y += total - fee;
        self.fee_y += fee;
        self.executed.push((false, amount_x, timestamp));
        Some(TradeInfo { amount_x, amount_y: total })
    }

    fn execute_buy_x(&mut self, amount_x: u64, timestamp: u64) -> Option<TradeInfo> {
        let (out, fee) = self.quote_buy_x(amount_x);
        if self.refuses || out == 0 {
            return None;
        }
        self.x += amount_x;
        self.y -= out + fee;
        self.fee_y += fee;
        self.executed.push((true, amount_x, timestamp));
        Some(TradeInfo { amount_x, amount_y: out })
    }
}

fn amm(name: &str, pool: Pool) -> Amm<Pool> {
    Amm::new(name.to_string(), pool)
}

#[test]
fn test_arb_formulas() {
    let rx = 1000 * UNIT;
    let ry = 1000 * UNIT;
    let fee = 2_500_000; // 25 bps

    // Fair price above the spot of 1.0: buy X from the AMM.
    let fair_price = 1_100_000_000;
    let amount_x = Arbitrageur::buy_size(rx, ry, fee, fair_price);
    assert!(amount_x.unwrap() > 0);
    assert_eq!(amount_x, Some(45_346_326_481));
    let float_size = 1000.0 - (1000.0 * 1000.0 * 1.0025 / 1.1f64).sqrt();
    assert!(float_size > 0.0);
    assert!((amount_x.unwrap() as f64 / UNIT as f64 - float_size).abs() < 1e-8);

    // Fair price below the spot of 1.0: sell X to the AMM.
    let fair_price = 900_000_000;
    let amount_x = Arbitrageur::sell_size(rx, ry, fee, fair_price);
    assert!(amount_x.unwrap() > 0);
    assert_eq!(amount_x, Some(52_774_113_156));
    let float_size = (1000.0 * 1000.0 * 0.9975 / 0.9f64).sqrt() - 1000.0;
    assert!(float_size > 0.0);
    assert!((amount_x.unwrap() as f64 / UNIT as f64 - float_size).abs() < 1e-8);
}

#[test]
fn buy_size_is_none_where_the_closed_form_is_not_below_the_reserves() {
    assert_eq!(Arbitrageur::buy_size(1000 * UNIT, 1000 * UNIT, 0, SCALE), None);
    assert_eq!(Arbitrageur::buy_size(1000 * UNIT, 1000 * UNIT, 2_500_000, 900_000_000), None);
    assert_eq!(Arbitrageur::buy_size(0, 0, 0, SCALE), None);
}

#[test]
fn sell_size_is_none_where_the_closed_form_is_not_above_the_reserves() {
    assert_eq!(Arbitrageur::sell_size(1000 * UNIT, 1000 * UNIT, 0, SCALE), None);
    assert_eq!(Arbitrageur::sell_size(1000 * UNIT, 1000 * UNIT, 2_500_000, 1_100_000_000), None);
    // A bid fee of 100% or more leaves nothing to gain.
    assert_eq!(Arbitrageur::sell_size(1000 * UNIT, 1000 * UNIT, 1_000_000_000, 1), None);
    assert_eq!(Arbitrageur::sell_size(1000 * UNIT, 1000 * UNIT, u32::MAX, 1), None);
}

#[test]
fn buy_size_is_capped_at_99_percent_of_the_reserves() {
    let rx = 1000 * UNIT;
    let size = Arbitrageur::buy_size(rx, 1000 * UNIT, 0, 1_000_000_000_000_000_000).unwrap();
    assert_eq!(size, 990 * UNIT);
    assert!(size as u128 * 100 <= rx as u128 * 99);
    // Odd reserves: the cap rounds down.
    assert_eq!(Arbitrageur::buy_size(101, 1_000_000, 0, u64::MAX), Some(99));
    assert_eq!(Arbitrageur::buy_size(1, 1_000_000, 0, u64::MAX), Some(0));
    assert_eq!(Arbitrageur::buy_size(2, 1_000_000, 0, u64::MAX), Some(1));
}

#[test]
fn sell_size_at_a_fair_price_of_zero_fills_the_reserves() {
    let rx = 1000 * UNIT;
    assert_eq!(Arbitrageur::sell_size(rx, 1000 * UNIT, 0, 0), Some(u64::MAX - rx));
}

#[test]
fn profits_are_exact_and_gated() {
    // 45.346326481 X at 1.1 against 47.619040872 Y paid.
    assert_eq!(
        Arbitrageur::buy_profit(45_346_326_481, 47_619_040_872, 1_100_000_000),
        Some(2_261_918_257_100_000_000)
    );
    assert_eq!(
        Arbitrageur::sell_profit(52_774_113_156, 50_003_298_157, 900_000_000),
        Some(2_506_596_316_600_000_000)
    );
    // Nothing quoted.
    assert_eq!(Arbitrageur::buy_profit(10, 0, SCALE), None);
    assert_eq!(Arbitrageur::sell_profit(10, 0, SCALE), None);
    // Break-even is no profit.
    assert_eq!(Arbitrageur::buy_profit(10, 10, SCALE), None);
    assert_eq!(Arbitrageur::sell_profit(10, 10, SCALE), None);
    // A loss.
    assert_eq!(Arbitrageur::buy_profit(10, 11, SCALE), None);
    assert_eq!(Arbitrageur::sell_profit(11, 10, SCALE), None);
    // The smallest gain.
    assert_eq!(Arbitrageur::buy_profit(11, 10, SCALE), Some(1_000_000_000));
    assert_eq!(Arbitrageur::sell_profit(1, 1, SCALE - 1), Some(1));
    // The largest.
    assert_eq!(
        Arbitrageur::buy_profit(u64::MAX, 1, u64::MAX),
        Some(u64::MAX as u128 * u64::MAX as u128 - 1_000_000_000)
    );
}

#[test]
fn plan_buys_below_sells_above_and_idles_at_equality() {
    let arb = Arbitrageur::new();
    let fees = FeeQuote { bid_fee: 2_500_000, ask_fee: 2_500_000 };
    let rx = 1000 * UNIT;
    let ry = 1000 * UNIT;
    assert!(matches!(
        arb.plan(rx, ry, fees, 1_100_000_000),
        ArbPlan::BuyFromAmm { amount_x: 45_346_326_481 }
    ));
    assert!(matches!(
        arb.plan(rx, ry, fees, 900_000_000),
        ArbPlan::SellToAmm { amount_x: 52_774_113_156 }
    ));
    assert!(matches!(arb.plan(rx, ry, fees, SCALE), ArbPlan::Idle));
    // Mispriced, but by less than the fee.
    assert!(matches!(arb.plan(rx, ry, fees, 1_002_000_000), ArbPlan::Idle));
    assert!(matches!(arb.plan(rx, ry, fees, 998_000_000), ArbPlan::Idle));
    // Equality of the ratio, not of the numbers.
    assert!(matches!(
        arb.plan(3, 6, FeeQuote { bid_fee: 0, ask_fee: 0 }, 2 * SCALE),
        ArbPlan::Idle
    ));
    // Empty reserves.
    assert!(matches!(arb.plan(0, 0, fees, SCALE), ArbPlan::Idle));
    assert!(matches!(arb.plan(0, 5, fees, SCALE), ArbPlan::Idle));
}

#[test]
fn execute_arb_buys_from_an_underpriced_amm() {
    let arb = Arbitrageur::default();
    let mut amm = amm("pool", Pool::with(1000 * UNIT, 1000 * UNIT, 2_500_000, 2_500_000));
    let result = arb.execute_arb(&mut amm, 1_100_000_000, 7).unwrap();
    assert_eq!(result.amm_name, "pool");
    assert_eq!(result.side, "sell");
    assert_eq!(result.amount_x, 45_346_326_481);
    assert_eq!(result.amount_y, 47_619_040_872);
    assert_eq!(result.profit, 2_261_918_257_100_000_000);
    assert!(result.profit > 0);
    assert!(result.amount_x as u128 * 100 <= 1000 * UNIT as u128 * 99);
    assert_eq!(amm.strategy.executed, vec![(false, 45_346_326_481, 7)]);
    assert_eq!(amm.strategy.reserves(), (954_653_673_519, 1_047_500_290_146));
    assert_eq!(amm.name, "pool");
}

#[test]
fn execute_arb_sells_to_an_overpriced_amm() {
    let arb = Arbitrageur::new();
    let mut amm = amm("pool", Pool::with(1000 * UNIT, 1000 * UNIT, 2_500_000, 2_500_000));
    let result = arb.execute_arb(&mut amm, 900_000_000, 3).unwrap();
    assert_eq!(result.amm_name, "pool");
    assert_eq!(result.side, "buy");
    assert_eq!(result.amount_x, 52_774_113_156);
    assert_eq!(result.amount_y, 50_003_298_157);
    assert_eq!(result.profit, 2_506_596_316_600_000_000);
    assert_eq!(amm.strategy.executed, vec![(true, 52_774_113_156, 3)]);
}

#[test]
fn execute_arb_does_nothing_at_the_fair_price() {
    let arb = Arbitrageur::new();
    let mut amm = amm("pool", Pool::with(1000 * UNIT, 1000 * UNIT, 2_500_000, 2_500_000));
    assert!(arb.execute_arb(&mut amm, SCALE, 0).is_none());
    assert!(arb.execute_arb(&mut amm, 1_002_000_000, 0).is_none());
    assert!(amm.strategy.executed.is_empty());
    assert_eq!(amm.strategy.reserves(), (1000 * UNIT, 1000 * UNIT));
}

#[test]
fn execute_arb_leaves_nothing_to_take_a_second_time() {
    let arb = Arbitrageur::new();
    let mut amm = amm("pool", Pool::with(1000 * UNIT, 1000 * UNIT, 2_500_000, 2_500_000));
    assert!(arb.execute_arb(&mut amm, 1_100_000_000, 0).is_some());
    assert!(arb.execute_arb(&mut amm, 1_100_000_000, 1).is_none());
    assert_eq!(amm.strategy.executed.len(), 1);
}

#[test]
fn execute_arb_is_empty_where_the_amm_refuses() {
    let arb = Arbitrageur::new();
    let mut pool = Pool::with(1000 * UNIT, 1000 * UNIT, 2_500_000, 2_500_000);
    pool.refuses = true;
    let mut amm = amm("pool", pool);
    assert!(arb.execute_arb(&mut amm, 1_100_000_000, 0).is_none());
    assert!(arb.execute_arb(&mut amm, 900_000_000, 0).is_none());
    assert_eq!(amm.strategy.reserves(), (1000 * UNIT, 1000 * UNIT));
}

#[test]
fn execute_plan_trades_exactly_what_was_planned() {
    let arb = Arbitrageur::new();
    let mut amm = amm("pool", Pool::with(1000 * UNIT, 1000 * UNIT, 0, 0));
    assert!(arb.execute_plan(&mut amm, ArbPlan::Idle, 2 * SCALE, 1).is_none());
    assert!(amm.strategy.executed.is_empty());
    assert_eq!(amm.strategy.reserves(), (1000 * UNIT, 1000 * UNIT));

    let bought = arb
        .execute_plan(&mut amm, ArbPlan::BuyFromAmm { amount_x: 100 * UNIT }, 2 * SCALE, 2)
        .unwrap();
    assert_eq!((bought.side, bought.amount_x, bought.amount_y), ("sell", 100 * UNIT, 111_111_111_112));
    assert_eq!(amm.strategy.executed, vec![(false, 100 * UNIT, 2)]);

    let sold = arb
        .execute_plan(&mut amm, ArbPlan::SellToAmm { amount_x: 100 * UNIT }, SCALE, 3)
        .unwrap();
    assert_eq!((sold.side, sold.amount_x), ("buy", 100 * UNIT));
    assert_eq!(sold.amount_y, 111_111_111_111);
    assert_eq!(sold.profit, 11_111_111_111 * SCALE as u128);
    assert_eq!(amm.strategy.executed.len(), 2);

    // A plan that the quote does not bear out is dropped.
    assert!(arb
        .execute_plan(&mut amm, ArbPlan::BuyFromAmm { amount_x: 100 * UNIT }, SCALE, 4)
        .is_none());
    assert_eq!(amm.strategy.executed.len(), 2);
}

#[test]
fn compute_buy_arb_stops_at_a_quote_without_profit() {
    let arb = Arbitrageur::new();
    let mut amm = amm("pool", Pool::with(1000 * UNIT, 1000 * UNIT, 0, 0));
    // Buying 100 X costs more than 111 Y; at a fair price of 1.0 that is a loss.
    assert!(arb.compute_buy_arb(&mut amm, 100 * UNIT, SCALE, 0).is_none());
    // Nothing is quoted for the whole reserve.
    assert!(arb.compute_buy_arb(&mut amm, 1000 * UNIT, u64::MAX, 0).is_none());
    assert!(amm.strategy.executed.is_empty());
    // At a fair price of 2.0 it gains.
    let result = arb.compute_buy_arb(&mut amm, 100 * UNIT, 2 * SCALE, 5).unwrap();
    assert_eq!(result.side, "sell");
    assert_eq!(result.amount_x, 100 * UNIT);
    assert_eq!(result.amount_y, 111_111_111_112);
    assert_eq!(result.profit, 200 * UNIT as u128 * SCALE as u128 - 111_111_111_112 * SCALE as u128);
}

#[test]
fn compute_sell_arb_stops_at_a_quote_without_profit() {
    let arb = Arbitrageur::new();
    let mut amm = amm("pool", Pool::with(1000 * UNIT, 1000 * UNIT, 0, 0));
    assert!(arb.compute_sell_arb(&mut amm, 100 * UNIT, SCALE, 0).is_none());
    assert!(arb.compute_sell_arb(&mut amm, 0, 1, 0).is_none());
    assert!(amm.strategy.executed.is_empty());
    let result = arb.compute_sell_arb(&mut amm, 100 * UNIT, SCALE / 2, 5).unwrap();
    assert_eq!(result.side, "buy");
    assert_eq!(result.amount_x, 100 * UNIT);
    assert_eq!(result.amount_y, 90_909_090_909);
    assert_eq!(result.profit, 90_909_090_909 * SCALE as u128 - 50 * UNIT as u128 * SCALE as u128);
}

#[test]
fn arbitrage_all_keeps_the_order_and_skips_the_idle() {
    let arb = Arbitrageur::new();
    let mut amms = vec![
        amm("first", Pool::with(1000 * UNIT, 1000 * UNIT, 2_500_000, 2_500_000)),
        amm("second", Pool::with(1000 * UNIT, 1100 * UNIT, 2_500_000, 2_500_000)),
        amm("third", Pool::with(1000 * UNIT, 1200 * UNIT, 2_500_000, 2_500_000)),
    ];
    let results = arb.arbitrage_all(&mut amms, 1_100_000_000, 9);
    assert_eq!(results.len(), 2);
    assert_eq!(results[0].amm_name, "first");
    assert_eq!(results[0].side, "sell");
    assert_eq!(results[0].amount_x, 45_346_326_481);
    assert_eq!(results[1].amm_name, "third");
    assert_eq!(results[1].side, "buy");
    assert!(results.iter().all(|r| r.profit > 0));
    assert_eq!(amms.len(), 3);
    assert!(amms[1].strategy.executed.is_empty());
    assert_eq!(amms[2].strategy.executed.len(), 1);

    let mut none: Vec<Amm<Pool>> = Vec::new();
    assert!(arb.arbitrage_all(&mut none, SCALE, 0).is_empty());
}

#[test]
fn arbitrage_of_one_amm_does_not_depend_on_the_others() {
    let arb = Arbitrageur::new();
    let mut alone = amm("a", Pool::with(1000 * UNIT, 1000 * UNIT, 2_500_000, 2_500_000));
    let single = arb.execute_arb(&mut alone, 1_100_000_000, 1).unwrap();
    let mut amms = vec![
        amm("b", Pool::with(500 * UNIT, 2000 * UNIT, 1_000_000, 1_000_000)),
        amm("a", Pool::with(1000 * UNIT, 1000 * UNIT, 2_500_000, 2_500_000)),
    ];
    let results = arb.arbitrage_all(&mut amms, 1_100_000_000, 1);
    assert_eq!(results.len(), 2);
    assert_eq!(results[1].amm_name, single.amm_name);
    assert_eq!(results[1].amount_x, single.amount_x);
    assert_eq!(results[1].amount_y, single.amount_y);
    assert_eq!(results[1].profit, single.profit);
    assert_eq!(results[1].side, single.side);
}
