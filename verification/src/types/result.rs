//! What a simulation reports.

use vstd::prelude::*;
use vstd::string::StringExecFns;

verus! {

/// One of the two roles in which a strategy takes part.
#[derive(Clone, Copy, Debug)]
pub enum Venue {
    /// The strategy under evaluation.
    Submission,
    /// The strategy it is measured against.
    Normalizer,
}

/// The name under which the strategy under evaluation is reported.
pub open spec fn submission_name() -> Seq<char> {
    "submission"@
}

/// The name under which the strategy it is measured against is reported.
pub open spec fn normalizer_name() -> Seq<char> {
    "normalizer"@
}

/// The two names differ, so a name stands for at most one venue.
pub proof fn lemma_names_differ()
    ensures
        submission_name() != normalizer_name(),
{
    reveal_strlit("submission");
    reveal_strlit("normalizer");
    assert("submission"@[0] == 's');
    assert("normalizer"@[0] == 'n');
}

impl Venue {
    /// The name that results of the venue are reported under.
    pub open spec fn name_spec(self) -> Seq<char> {
        match self {
            Venue::Submission => submission_name(),
            Venue::Normalizer => normalizer_name(),
        }
    }

    /// The venue that `name` stands for, if any.
    pub open spec fn from_name_spec(name: Seq<char>) -> Option<Venue> {
        if name == submission_name() {
            Some(Venue::Submission)
        } else if name == normalizer_name() {
            Some(Venue::Normalizer)
        } else {
            None
        }
    }

    /// The name that results of the venue are reported under.
    pub fn name(self) -> (r: String)
        ensures
            r@ == self.name_spec(),
    {
        match self {
            Venue::Submission => String::from_str("submission"),
            Venue::Normalizer => String::from_str("normalizer"),
        }
    }

    /// The venue that `name` stands for, if any.
    pub fn from_name(name: &String) -> (r: Option<Venue>)
        ensures
            r == Venue::from_name_spec(name@),
    {
        if *name == Venue::Submission.name() {
            Some(Venue::Submission)
        } else if *name == Venue::Normalizer.name() {
            Some(Venue::Normalizer)
        } else {
            None
        }
    }
}

/// Each venue is the one that its own name stands for.
pub proof fn lemma_name_round_trip(venue: Venue)
    ensures
        Venue::from_name_spec(venue.name_spec()) == Some(venue),
{
    lemma_names_differ();
}

/// One value for each of the two strategies.
#[derive(Clone, Copy, Debug)]
pub struct PerStrategy<T> {
    /// The value of the strategy under evaluation.
    pub submission: T,
    /// The value of the strategy it is measured against.
    pub normalizer: T,
}

impl<T> PerStrategy<T> {
    /// The value for `venue`.
    pub open spec fn at(self, venue: Venue) -> T {
        match venue {
            Venue::Submission => self.submission,
            Venue::Normalizer => self.normalizer,
        }
    }

    /// `self` with the value for `venue` replaced by `value`.
    pub open spec fn with(self, venue: Venue, value: T) -> Self {
        match venue {
            Venue::Submission => PerStrategy { submission: value, normalizer: self.normalizer },
            Venue::Normalizer => PerStrategy { submission: self.submission, normalizer: value },
        }
    }

    /// The value for `venue`.
    pub fn get(&self, venue: Venue) -> (r: &T)
        ensures
            *r == self.at(venue),
    {
        match venue {
            Venue::Submission => &self.submission,
            Venue::Normalizer => &self.normalizer,
        }
    }

    /// The value reported under `name`, if `name` is that of a strategy.
    pub fn by_name(&self, name: &String) -> (r: Option<&T>)
        ensures
            r == match Venue::from_name_spec(name@) {
                Some(venue) => Some(&self.at(venue)),
                None => None,
            },
    {
        match Venue::from_name(name) {
            Some(venue) => Some(self.get(venue)),
            None => None,
        }
    }

    /// Replaces the value for `venue` by `value`.
    pub fn set(&mut self, venue: Venue, value: T)
        ensures
            *final(self) == old(self).with(venue, value),
    {
        match venue {
            Venue::Submission => {
                self.submission = value;
            },
            Venue::Normalizer => {
                self.normalizer = value;
            },
        }
    }
}

/// The state of a simulation after one tick.
#[derive(Clone, Copy, Debug)]
pub struct LightweightStepResult {
    /// Index of the tick.
    pub timestamp: u32,
    /// Fair price of the tick.
    pub fair_price: u64,
    /// Spot price of each AMM.
    pub spot_prices: PerStrategy<u64>,
    /// Running profit and loss of each strategy, in units of `1 / SCALE`
    /// of Y.
    pub pnls: PerStrategy<i128>,
    /// Fee rates `(bid, ask)` of each AMM.
    pub fees: PerStrategy<(u32, u32)>,
}

/// The outcome of a whole simulation.
#[derive(Clone, Debug)]
pub struct LightweightSimResult {
    /// Seed of the run.
    pub seed: u64,
    /// Names of the strategies, the one under evaluation first.
    pub strategies: Vec<String>,
    /// Final profit and loss of each strategy.
    pub pnl: PerStrategy<i128>,
    /// Sum of the markouts of all trades against each strategy.
    pub instantaneous_markouts: PerStrategy<i128>,
    /// Fair price before the first tick.
    pub initial_fair_price: u64,
    /// Reserves `(x, y)` of each AMM before the first tick.
    pub initial_reserves: PerStrategy<(u64, u64)>,
    /// The state after each tick, in order.
    pub steps: Vec<LightweightStepResult>,
    /// Y traded with the arbitrageur by each AMM.
    pub arb_volume_y: PerStrategy<u128>,
    /// Y traded with retail by each AMM.
    pub retail_volume_y: PerStrategy<u128>,
}

} // verus!
