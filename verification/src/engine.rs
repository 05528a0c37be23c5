//! Tick-loop decisions.
//!
//! The loop that consumes the market stream delegates its choices here:
//! when enough history exists to evaluate a signal, which confidence a
//! signal must clear at the current volatility, when a confirmed signal
//! fires, how the post-signal cooldown gates evaluation, and how the
//! transport's raw or simulated prices become ticks.

use vstd::prelude::*;

use crate::fixed::{PRICE_MAX, SCALE};
use crate::model::{sample_uniform, QuantumSignal, TradeData};

verus! {

/// Ticks of history required before signals are evaluated.
pub const MIN_HISTORY_TICKS: usize = 20;

/// Confidence a signal must clear at ordinary volatility: 90%.
pub const BASE_REQUIRED_CONFIDENCE: u64 = 9_000_000;

/// Confidence required in a high-volatility regime: 94%.
pub const HIGH_VOL_REQUIRED_CONFIDENCE: u64 = 9_400_000;

/// Confidence sufficient in a low-volatility regime: 88%.
pub const LOW_VOL_REQUIRED_CONFIDENCE: u64 = 8_800_000;

/// Volatility above which the high-volatility threshold applies: `100.0`.
pub const HIGH_VOL_LIMIT: u64 = 10_000_000;

/// Volatility below which the low-volatility threshold applies: `20.0`.
pub const LOW_VOL_LIMIT: u64 = 2_000_000;

/// Seconds after a fired signal during which no new signal is evaluated.
pub const COOLDOWN_SECS: u64 = 60;

/// Volume every transport tick carries: `0.1` in fixed-point units.
pub const FEED_QUANTITY: u64 = 10_000;

/// Largest synthetic price move when the market feed is unreachable:
/// `0.0005` (five hundredths of a percent) in fixed-point units.
pub const FALLBACK_MOVE_MAX: i64 = 50;

/// The confidence threshold owed at a given volatility.
pub open spec fn required_confidence_of(volatility: int) -> int {
    if volatility > HIGH_VOL_LIMIT {
        HIGH_VOL_REQUIRED_CONFIDENCE as int
    } else if volatility < LOW_VOL_LIMIT {
        LOW_VOL_REQUIRED_CONFIDENCE as int
    } else {
        BASE_REQUIRED_CONFIDENCE as int
    }
}

/// Dynamic confidence threshold: demand more certainty when the market is
/// wild, accept a little less when it is quiet.
pub fn required_confidence(volatility: u64) -> (r: u64)
    ensures
        r == required_confidence_of(volatility as int),
{
    if volatility > HIGH_VOL_LIMIT {
        HIGH_VOL_REQUIRED_CONFIDENCE
    } else if volatility < LOW_VOL_LIMIT {
        LOW_VOL_REQUIRED_CONFIDENCE
    } else {
        BASE_REQUIRED_CONFIDENCE
    }
}

/// Whether the loop evaluates a signal on this tick: at least the
/// caller-chosen amount of history, the news gate clear, and no cooldown
/// running. [`MIN_HISTORY_TICKS`] is the usual choice of `min_history`; a
/// stricter caller may demand more.
pub fn should_evaluate(
    window_len: usize,
    min_history: usize,
    trading_halted: bool,
    in_cooldown: bool,
) -> (r: bool)
    ensures
        r == (window_len >= min_history && !trading_halted && !in_cooldown),
{
    window_len >= min_history && !trading_halted && !in_cooldown
}

/// Whether a signal's confidence sits in the caller's warning zone
/// (reached `low` but not `high`): worth an alert, not a trade.
pub fn in_warning_zone(signal: &QuantumSignal, low: u64, high: u64) -> (r: bool)
    ensures
        r == (low <= signal.confidence < high),
{
    low <= signal.confidence && signal.confidence < high
}

/// Whether a signal fires: it clears the required confidence strictly and
/// carries whale confirmation.
pub fn should_fire(signal: &QuantumSignal, required: u64) -> (r: bool)
    ensures
        r == (signal.confidence > required && signal.is_whale_confirmed),
{
    signal.confidence > required && signal.is_whale_confirmed
}

/// Whether the post-signal cooldown is still running at `now`, given when
/// the last signal fired.
pub fn cooldown_active(last_fired: Option<u64>, now: u64) -> (r: bool)
    ensures
        r == (last_fired is Some && now < last_fired->0 + COOLDOWN_SECS),
{
    match last_fired {
        None => false,
        Some(t) => {
            if now <= t {
                true
            } else {
                now - t < COOLDOWN_SECS
            }
        },
    }
}

/// The tick the transport hands the engine for a freshly fetched price:
/// the fixed feed volume, with the flow side inferred from whether the
/// price fell below the previous one.
pub fn tick_from_price(price: u64, last_price: u64) -> (t: TradeData)
    requires
        0 < price <= PRICE_MAX,
    ensures
        t.price == price,
        t.quantity == FEED_QUANTITY,
        t.is_buyer_maker == (price < last_price),
{
    TradeData { price, quantity: FEED_QUANTITY, is_buyer_maker: price < last_price }
}

/// The synthetic price a shock of `move_units` fixed-point units produces
/// from the previous price: `last_price * (1 + move_units / SCALE)`, with
/// a floor of one fixed-point unit so a price never becomes zero.
pub open spec fn synthetic_price_of(last_price: int, move_units: int) -> int {
    let p = last_price * (SCALE + move_units) / (SCALE as int);
    if p < 1 {
        1
    } else {
        p
    }
}

/// A synthetic fallback tick for when the market feed is unreachable:
/// moves the previous price by a uniformly random amount within
/// ±[`FALLBACK_MOVE_MAX`] and infers the flow side from the move.
///
/// The price bound precondition is a machine limit: it leaves room for the
/// largest upward move without leaving the fixed-point price range.
pub fn fallback_tick(last_price: u64) -> (t: TradeData)
    requires
        0 < last_price,
        last_price + last_price / 2000 <= PRICE_MAX,
    ensures
        t.quantity == FEED_QUANTITY,
        0 < t.price <= PRICE_MAX,
        t.is_buyer_maker == (t.price < last_price),
        exists|m: int|
            -FALLBACK_MOVE_MAX <= m < FALLBACK_MOVE_MAX && t.price == synthetic_price_of(
                last_price as int,
                m,
            ),
{
    let move_units = sample_uniform(-FALLBACK_MOVE_MAX, FALLBACK_MOVE_MAX);
    let factor: u64 = (SCALE as i64 + move_units) as u64;
    proof {
        lemma_synthetic_price_bounds(last_price as int, move_units as int);
    }
    let raw: u64 = ((last_price as u128) * (factor as u128) / (SCALE as u128)) as u64;
    let price: u64 = if raw < 1 {
        1
    } else {
        raw
    };
    let t = TradeData { price, quantity: FEED_QUANTITY, is_buyer_maker: price < last_price };
    proof {
        assert(t.price == synthetic_price_of(last_price as int, move_units as int));
    }
    t
}

/// A synthetic price stays within the fixed-point range whenever the
/// previous price leaves room for the largest move.
proof fn lemma_synthetic_price_bounds(last_price: int, move_units: int)
    requires
        0 < last_price,
        last_price + last_price / 2000 <= PRICE_MAX,
        -FALLBACK_MOVE_MAX <= move_units < FALLBACK_MOVE_MAX,
    ensures
        0 <= last_price * (SCALE + move_units) / (SCALE as int) <= PRICE_MAX,
        last_price * (SCALE + move_units) <= PRICE_MAX * (SCALE + FALLBACK_MOVE_MAX),
{
    vstd::arithmetic::mul::lemma_mul_upper_bound(
        last_price,
        PRICE_MAX as int,
        SCALE + move_units,
        SCALE + FALLBACK_MOVE_MAX,
    );
    vstd::arithmetic::mul::lemma_mul_nonnegative(last_price, SCALE + move_units);
    vstd::arithmetic::div_mod::lemma_div_pos_is_pos(last_price * (SCALE + move_units), SCALE as int);
    // last * (SCALE + m) <= last * (SCALE + 50) and the quotient by SCALE
    // is at most last + last * 50 / SCALE == last + last / 2000.
    vstd::arithmetic::mul::lemma_mul_inequality(SCALE + move_units, SCALE + 50, last_price);
    vstd::arithmetic::mul::lemma_mul_is_commutative(last_price, SCALE + move_units);
    vstd::arithmetic::mul::lemma_mul_is_commutative(SCALE + 50, last_price);
    vstd::arithmetic::div_mod::lemma_div_is_ordered(
        last_price * (SCALE + move_units),
        last_price * (SCALE + 50),
        SCALE as int,
    );
    assert(last_price * (SCALE + 50) == last_price * SCALE + last_price * 50) by {
        vstd::arithmetic::mul::lemma_mul_is_distributive_add(last_price, SCALE as int, 50);
    }
    assert(last_price * (SCALE + 50) / (SCALE as int) <= last_price + last_price / 2000) by {
        vstd::arithmetic::div_mod::lemma_hoist_over_denominator(
            last_price * 50,
            last_price,
            SCALE as nat,
        );
        assert(last_price * 50 / (SCALE as int) == last_price / 2000) by {
            assert(last_price * 50 == 50 * last_price) by {
                vstd::arithmetic::mul::lemma_mul_is_commutative(last_price, 50);
            }
            vstd::arithmetic::div_mod::lemma_div_denominator(last_price * 50, 50, 2000);
            vstd::arithmetic::div_mod::lemma_div_multiples_vanish(last_price, 50);
        }
    }
}

} // verus!
