//! Market data records and trading signals.
//!
//! [`QuantumSignal::analyze`] estimates the probability of an upward move
//! with a Monte Carlo simulation of additive random-walk price paths,
//! classifies it into a direction with a confidence, and cross-checks the
//! direction against the window's order-flow imbalance.

use rayon::iter::{IntoParallelIterator, ParallelIterator};
use vstd::arithmetic::mul::{
    lemma_mul_inequality,
    lemma_mul_is_distributive_add_other_way,
    lemma_mul_upper_bound,
};
use vstd::prelude::*;

use crate::analysis::{ofi_of, MarketMicrostructure};
use crate::fixed::{lemma_fraction_le, PRICE_MAX, SCALE};

verus! {

/// The atomic unit of market data: one observed trade, with price and
/// volume in fixed-point units.
///
/// `is_buyer_maker` is true when the trade was initiated by a seller
/// hitting the bid (bearish flow) and false when a buyer lifted the ask
/// (bullish flow).
#[derive(Debug, Clone, Copy, PartialEq, Eq, Structural)]
pub struct TradeData {
    pub price: u64,
    pub quantity: u64,
    pub is_buyer_maker: bool,
}

/// Direction of a trading signal or an open position.
#[derive(Debug, Clone, Copy, PartialEq, Eq, Structural)]
pub enum Direction {
    Up,
    Down,
    Neutral,
}

/// The output of the prediction engine.
///
/// `confidence` is a percentage in fixed-point units, always between
/// `50.0` and `100.0` (that is, between `50 * SCALE` and `100 * SCALE`).
#[derive(Debug, Clone, Copy, PartialEq, Eq, Structural)]
pub struct QuantumSignal {
    pub confidence: u64,
    pub direction: Direction,
    pub is_whale_confirmed: bool,
}

/// Lowest confidence a signal can carry: 50%, in fixed-point units.
pub const CONFIDENCE_MIN: u64 = 5_000_000;

/// Highest confidence a signal can carry: 100%, in fixed-point units.
pub const CONFIDENCE_MAX: u64 = 10_000_000;

/// Confidence below which stake sizing bypasses the Kelly formula: 80%.
pub const KELLY_FLOOR_CONFIDENCE: u64 = 8_000_000;

/// Flat minimum stake fraction: 1% of bankroll, in fixed-point units.
pub const STAKE_MIN: u64 = 100_000;

/// Cap on the stake fraction: 5% of bankroll, in fixed-point units.
pub const STAKE_MAX: u64 = 500_000;

/// A signal is well formed when its confidence lies in the 50%–100% band
/// and a neutral signal is never whale-confirmed.
pub open spec fn signal_wf(s: QuantumSignal) -> bool {
    &&& CONFIDENCE_MIN <= s.confidence <= CONFIDENCE_MAX
    &&& s.direction is Neutral ==> !s.is_whale_confirmed
}

/// The one-tenth-Kelly stake fraction for a given confidence, before
/// clamping, in fixed-point percent.
///
/// With payout ratio `b = 0.85` and win probability `p = confidence/100`,
/// full Kelly is `(b*p - (1-p)) / b`; scaled to one tenth and expressed as
/// a percentage this is `(37*c - 2000) / 170` for a confidence of `c`
/// percent, which the fixed-point representation turns into the formula
/// below (truncating division).
pub open spec fn raw_kelly_fraction(confidence: int) -> int {
    (37 * confidence - 200_000_000) / 170
}

/// The stake fraction `calculate_stake` owes for a given confidence:
/// the flat 1% floor below 80% confidence, and the clamped one-tenth-Kelly
/// fraction otherwise.
pub open spec fn stake_fraction_of(confidence: int) -> int {
    if confidence < KELLY_FLOOR_CONFIDENCE {
        STAKE_MIN as int
    } else if raw_kelly_fraction(confidence) < STAKE_MIN {
        STAKE_MIN as int
    } else if raw_kelly_fraction(confidence) > STAKE_MAX {
        STAKE_MAX as int
    } else {
        raw_kelly_fraction(confidence)
    }
}

/// Number of independent Monte Carlo price paths per analysis.
pub const PATHS: u64 = 10_000;

/// Number of discrete random-walk steps per simulated path.
pub const STEPS: u64 = 60;

/// Path count above which the simulation calls the move upward: more than
/// 70% of [`PATHS`].
pub const UP_PATHS: u64 = 7_000;

/// Path count below which the simulation calls the move downward: less
/// than 30% of [`PATHS`].
pub const DOWN_PATHS: u64 = 3_000;

/// Order-flow imbalance beyond which a directional call counts as
/// whale-confirmed: `0.2` in fixed-point units.
pub const WHALE_CONFIRM_OFI: i64 = 20_000;

/// The signal owed for a simulation in which `up_moves` of the [`PATHS`]
/// paths ended strictly above the current price, against an order-flow
/// imbalance of `ofi`.
///
/// Strictly more than 70% upward paths is an upward call and strictly
/// fewer than 30% a downward one, each with the winning proportion as its
/// confidence percentage; anything between is neutral at 50% confidence.
/// An upward call is whale-confirmed exactly when `ofi` exceeds `0.2`, a
/// downward one exactly when `ofi` falls below `-0.2`; a neutral signal
/// never is.
pub open spec fn classify_spec(up_moves: int, ofi: int) -> QuantumSignal
    recommends
        0 <= up_moves <= PATHS,
{
    if up_moves > UP_PATHS {
        QuantumSignal {
            confidence: (up_moves * 1000) as u64,
            direction: Direction::Up,
            is_whale_confirmed: ofi > WHALE_CONFIRM_OFI,
        }
    } else if up_moves < DOWN_PATHS {
        QuantumSignal {
            confidence: ((PATHS - up_moves) * 1000) as u64,
            direction: Direction::Down,
            is_whale_confirmed: ofi < -WHALE_CONFIRM_OFI,
        }
    } else {
        QuantumSignal {
            confidence: CONFIDENCE_MIN,
            direction: Direction::Neutral,
            is_whale_confirmed: false,
        }
    }
}

/// Relies on `rand::random_range`: a uniform sample in `[lo, hi)`; the
/// range is non-empty, so the call cannot panic.
#[verifier::external_body]
pub(crate) fn sample_uniform(lo: i64, hi: i64) -> (r: i64)
    requires
        lo < hi,
    ensures
        lo <= r < hi,
{
    rand::random_range(lo..hi)
}

/// One simulated price path: starting at `current_price`, take [`STEPS`]
/// steps of `volatility * shock` with `shock` drawn uniformly from
/// `[-1.0, 1.0)`, and report whether the path ends strictly above its
/// start (`1`) or not (`0`).
///
/// With zero volatility the path never moves, so the result is `0`.
pub fn path_up_indicator(current_price: u64, volatility: u64) -> (r: u64)
    requires
        current_price <= PRICE_MAX,
        volatility <= PRICE_MAX,
    ensures
        r <= 1,
        volatility == 0 ==> r == 0,
{
    let mut price: i64 = current_price as i64;
    let mut step: u64 = 0;
    while step < STEPS
        invariant
            0 <= step <= STEPS,
            current_price <= PRICE_MAX,
            volatility <= PRICE_MAX,
            current_price - step * volatility <= price <= current_price + step * volatility,
        decreases STEPS - step,
    {
        let shock = sample_uniform(-(SCALE as i64), SCALE as i64);
        let shock_mag: u64 = if shock >= 0 {
            shock as u64
        } else {
            (-shock) as u64
        };
        proof {
            lemma_mul_upper_bound(volatility as int, PRICE_MAX as int, shock_mag as int, SCALE as int);
            lemma_fraction_le(volatility as int, shock_mag as int, SCALE as int);
            lemma_mul_inequality(step as int, STEPS as int, volatility as int);
            lemma_mul_is_distributive_add_other_way(volatility as int, step as int, 1);
            lemma_mul_inequality(step + 1, STEPS as int, volatility as int);
        }
        let delta = (volatility * shock_mag / SCALE) as i64;
        if shock >= 0 {
            price = price + delta;
        } else {
            price = price - delta;
        }
        step = step + 1;
    }
    if price > current_price as i64 {
        1
    } else {
        0
    }
}

/// Relies on rayon's parallel `map`/`sum` over an integer range: the
/// result is the sum of `paths` independent evaluations of
/// [`path_up_indicator`], whose contract bounds each summand by `1` and
/// pins it to `0` at zero volatility.
#[verifier::external_body]
fn count_paths_up(current_price: u64, volatility: u64, paths: u64) -> (r: u64)
    requires
        current_price <= PRICE_MAX,
        volatility <= PRICE_MAX,
    ensures
        r <= paths,
        volatility == 0 ==> r == 0,
{
    (0..paths).into_par_iter().map(|_| path_up_indicator(current_price, volatility)).sum()
}

/// Turns a simulation outcome and an order-flow imbalance into the signal
/// [`classify_spec`] prescribes.
pub fn classify(up_moves: u64, ofi: i64) -> (s: QuantumSignal)
    requires
        up_moves <= PATHS,
        -(SCALE as i64) <= ofi <= SCALE as i64,
    ensures
        s == classify_spec(up_moves as int, ofi as int),
        signal_wf(s),
{
    if up_moves > UP_PATHS {
        QuantumSignal {
            confidence: up_moves * 1000,
            direction: Direction::Up,
            is_whale_confirmed: ofi > WHALE_CONFIRM_OFI,
        }
    } else if up_moves < DOWN_PATHS {
        QuantumSignal {
            confidence: (PATHS - up_moves) * 1000,
            direction: Direction::Down,
            is_whale_confirmed: ofi < -WHALE_CONFIRM_OFI,
        }
    } else {
        QuantumSignal {
            confidence: CONFIDENCE_MIN,
            direction: Direction::Neutral,
            is_whale_confirmed: false,
        }
    }
}

impl QuantumSignal {
    /// Combines a Monte Carlo probability estimate with the window's
    /// order flow.
    ///
    /// Simulates [`PATHS`] independent additive random-walk paths from
    /// `current_price` scaled by `volatility`, counts how many end
    /// strictly above it, and classifies the count per [`classify_spec`]
    /// against the window's order-flow imbalance. The count itself is
    /// random, so the contract promises the classification of *some*
    /// count; at zero volatility no path can move, the count is `0`, and
    /// the signal is a downward call at 100% confidence.
    pub fn analyze(market: &MarketMicrostructure, current_price: u64, volatility: u64) -> (s:
        QuantumSignal)
        requires
            market.wf(),
            0 < current_price <= PRICE_MAX,
            volatility <= PRICE_MAX,
        ensures
            signal_wf(s),
            exists|u: int| 0 <= u <= PATHS && s == classify_spec(u, ofi_of(market@)),
            s.is_whale_confirmed ==> (s.direction is Up && ofi_of(market@) > WHALE_CONFIRM_OFI)
                || (s.direction is Down && ofi_of(market@) < -WHALE_CONFIRM_OFI),
            volatility == 0 ==> s == classify_spec(0, ofi_of(market@)) && s.direction is Down
                && s.confidence == CONFIDENCE_MAX,
    {
        let ofi = market.calculate_ofi();
        let up_moves = count_paths_up(current_price, volatility, PATHS);
        let s = classify(up_moves, ofi);
        proof {
            assert(0 <= up_moves as int <= PATHS && s == classify_spec(
                up_moves as int,
                ofi as int,
            ));
        }
        s
    }

    /// Risk-adjusted stake sizing: one-tenth Kelly with an assumed payout
    /// ratio of `0.85`, clamped to 1%–5% of bankroll; any signal below 80%
    /// confidence gets the flat 1% minimum instead.
    ///
    /// The result is a percentage of bankroll in fixed-point units,
    /// always between `STAKE_MIN` and `STAKE_MAX`.
    pub fn calculate_stake(&self) -> (r: u64)
        requires
            signal_wf(*self),
        ensures
            r == stake_fraction_of(self.confidence as int),
            STAKE_MIN <= r <= STAKE_MAX,
            self.confidence < KELLY_FLOOR_CONFIDENCE ==> r == STAKE_MIN,
    {
        if self.confidence < KELLY_FLOOR_CONFIDENCE {
            return STAKE_MIN;
        }
        // confidence >= 80% makes 37 * confidence - 200_000_000 positive,
        // so the unsigned subtraction cannot underflow.
        let raw: u64 = (37 * self.confidence - 200_000_000) / 170;
        if raw < STAKE_MIN {
            STAKE_MIN
        } else if raw > STAKE_MAX {
            STAKE_MAX
        } else {
            raw
        }
    }
}

} // verus!
