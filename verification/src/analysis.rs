//! Rolling market-microstructure window.
//!
//! [`MarketMicrostructure`] keeps the last [`WINDOW_CAP`] ticks as three
//! synchronized queues of buy volumes, sell volumes and prices, and derives
//! the order-flow imbalance from them.

use std::collections::VecDeque;
use vstd::arithmetic::div_mod::{lemma_div_is_ordered, lemma_div_by_multiple};
use vstd::arithmetic::mul::{lemma_mul_inequality, lemma_mul_is_distributive_sub_other_way};
use vstd::prelude::*;

use crate::fixed::{PRICE_MAX, SCALE, VOLUME_MAX};
use crate::model::TradeData;

verus! {

/// Capacity of the rolling window: how many ticks of history are kept.
pub const WINDOW_CAP: usize = 100;

/// Order-flow imbalance above which one-sided buying counts as whale
/// activity: `0.8` in fixed-point units.
pub const WHALE_OFI: i64 = 80_000;

/// Error raised when price extrema are requested from a window that holds
/// no ticks yet.
#[derive(Debug, Clone, Copy, PartialEq, Eq, Structural)]
pub enum WindowError {
    EmptyWindow,
}

/// Mathematical contents of a window: three equally long sequences.
pub struct WindowModel {
    pub bids: Seq<u64>,
    pub asks: Seq<u64>,
    pub prices: Seq<u64>,
}

/// Sum of a sequence of volumes.
pub open spec fn sum_of(s: Seq<u64>) -> int
    decreases s.len(),
{
    if s.len() == 0 {
        0
    } else {
        sum_of(s.drop_last()) + s.last()
    }
}

/// Least element of a non-empty sequence.
pub open spec fn seq_min(s: Seq<u64>) -> u64
    recommends
        s.len() > 0,
    decreases s.len(),
{
    if s.len() <= 1 {
        s[0]
    } else if s.last() < seq_min(s.drop_last()) {
        s.last()
    } else {
        seq_min(s.drop_last())
    }
}

/// Greatest element of a non-empty sequence.
pub open spec fn seq_max(s: Seq<u64>) -> u64
    recommends
        s.len() > 0,
    decreases s.len(),
{
    if s.len() <= 1 {
        s[0]
    } else if s.last() > seq_max(s.drop_last()) {
        s.last()
    } else {
        seq_max(s.drop_last())
    }
}

/// How one queue of the window advances on a new entry: the value is
/// appended, and when the queue already holds `WINDOW_CAP` entries the
/// oldest one is evicted.
pub open spec fn slide(s: Seq<u64>, v: u64) -> Seq<u64> {
    if s.len() < WINDOW_CAP {
        s.push(v)
    } else {
        s.push(v).drop_first()
    }
}

/// The order-flow imbalance of a window: `(B - S) / (B + S)` in fixed-point
/// units, where `B` and `S` are the buy-side and sell-side volume sums, and
/// exactly `0` when no volume has been seen.
pub open spec fn ofi_of(m: WindowModel) -> int {
    let b = sum_of(m.bids);
    let s = sum_of(m.asks);
    if b + s == 0 {
        0
    } else if b >= s {
        (b - s) * SCALE / (b + s)
    } else {
        -((s - b) * SCALE / (b + s))
    }
}

/// Sum of a sequence of bounded elements is bounded by length times bound.
proof fn lemma_sum_bounded(s: Seq<u64>, bound: int)
    requires
        forall|i: int| 0 <= i < s.len() ==> s[i] <= bound,
        bound >= 0,
    ensures
        0 <= sum_of(s) <= s.len() * bound,
    decreases s.len(),
{
    if s.len() > 0 {
        lemma_sum_bounded(s.drop_last(), bound);
        assert(s.last() <= bound);
        assert((s.len() - 1) * bound + bound == s.len() * bound) by {
            lemma_mul_is_distributive_sub_other_way(bound, s.len() as int, 1);
        }
    }
}

/// A ratio of volume sums, scaled by `SCALE`, never exceeds `SCALE` when
/// the numerator is at most the denominator.
proof fn lemma_scaled_ratio_bounded(diff: int, total: int)
    requires
        0 <= diff <= total,
        0 < total,
    ensures
        0 <= diff * SCALE / total <= SCALE,
{
    lemma_mul_inequality(diff, total, SCALE as int);
    lemma_div_is_ordered(diff * SCALE, total * SCALE, total);
    lemma_div_by_multiple(SCALE as int, total);
}

/// Stores recent market history to detect whales and order-flow imbalance.
///
/// The three queues always have equal length, hold at most [`WINDOW_CAP`]
/// entries, and advance in lockstep: every tick contributes its volume to
/// exactly one of the two volume queues and a zero to the other.
pub struct MarketMicrostructure {
    bids: VecDeque<u64>,
    asks: VecDeque<u64>,
    prices: VecDeque<u64>,
}

impl View for MarketMicrostructure {
    type V = WindowModel;

    closed spec fn view(&self) -> WindowModel {
        WindowModel { bids: self.bids@, asks: self.asks@, prices: self.prices@ }
    }
}

impl MarketMicrostructure {
    /// All three queues have equal length, at most the window capacity,
    /// and every entry respects the fixed-point bounds.
    pub open spec fn wf(&self) -> bool {
        &&& self@.bids.len() == self@.asks.len() == self@.prices.len()
        &&& self@.prices.len() <= WINDOW_CAP
        &&& forall|i: int| 0 <= i < self@.bids.len() ==> self@.bids[i] <= VOLUME_MAX
        &&& forall|i: int| 0 <= i < self@.asks.len() ==> self@.asks[i] <= VOLUME_MAX
        &&& forall|i: int| 0 <= i < self@.prices.len() ==> 0 < #[trigger] self@.prices[i] <= PRICE_MAX
    }

    /// An empty window.
    pub fn new() -> (w: Self)
        ensures
            w.wf(),
            w@.bids =~= Seq::<u64>::empty(),
            w@.asks =~= Seq::<u64>::empty(),
            w@.prices =~= Seq::<u64>::empty(),
    {
        MarketMicrostructure { bids: VecDeque::new(), asks: VecDeque::new(), prices: VecDeque::new() }
    }

    /// Number of ticks currently held; callers gate history-sensitive
    /// computations on this.
    pub fn len(&self) -> (n: usize)
        ensures
            n == self@.prices.len(),
    {
        self.prices.len()
    }

    /// Updates internal state with new trade data.
    ///
    /// A seller-initiated trade contributes its volume to the sell queue
    /// and a zero to the buy queue; a buyer-initiated trade does the
    /// inverse. When the window is full the oldest entry of all three
    /// queues is evicted, keeping them synchronized.
    ///
    /// The price and volume bounds are the fixed-point range limits; they
    /// keep every volume sum and simulated price inside machine integers.
    pub fn update(&mut self, trade: &TradeData)
        requires
            old(self).wf(),
            0 < trade.price <= PRICE_MAX,
            trade.quantity <= VOLUME_MAX,
        ensures
            final(self).wf(),
            final(self)@.bids =~= slide(
                old(self)@.bids,
                if trade.is_buyer_maker { 0u64 } else { trade.quantity },
            ),
            final(self)@.asks =~= slide(
                old(self)@.asks,
                if trade.is_buyer_maker { trade.quantity } else { 0u64 },
            ),
            final(self)@.prices =~= slide(old(self)@.prices, trade.price),
            final(self)@.prices.len() == if old(self)@.prices.len() < WINDOW_CAP {
                old(self)@.prices.len() + 1int
            } else {
                WINDOW_CAP as int
            },
    {
        if trade.is_buyer_maker {
            // Seller initiated (bearish flow).
            self.asks.push_back(trade.quantity);
            self.bids.push_back(0);
        } else {
            // Buyer initiated (bullish flow).
            self.bids.push_back(trade.quantity);
            self.asks.push_back(0);
        }
        self.prices.push_back(trade.price);

        if self.bids.len() > WINDOW_CAP {
            self.bids.pop_front();
            self.asks.pop_front();
            self.prices.pop_front();
        }
    }

    /// Calculates the order-flow imbalance, in fixed-point units.
    ///
    /// The result is always between `-1.0` and `1.0` (positive means net
    /// buying pressure, negative net selling pressure) and is exactly `0`
    /// when the window is empty or all recorded volumes are zero.
    pub fn calculate_ofi(&self) -> (r: i64)
        requires
            self.wf(),
        ensures
            r == ofi_of(self@),
            -(SCALE as i64) <= r <= SCALE as i64,
            sum_of(self@.bids) + sum_of(self@.asks) == 0 ==> r == 0,
    {
        let buy_vol = sum_volumes(&self.bids);
        let sell_vol = sum_volumes(&self.asks);
        let total = buy_vol + sell_vol;
        if total == 0 {
            return 0;
        }
        if buy_vol >= sell_vol {
            let diff = buy_vol - sell_vol;
            proof {
                lemma_scaled_ratio_bounded(diff as int, total as int);
                lemma_mul_inequality(diff as int, total as int, SCALE as int);
                lemma_sum_bounded(self@.bids, VOLUME_MAX as int);
                lemma_sum_bounded(self@.asks, VOLUME_MAX as int);
                lemma_mul_inequality(total as int, 2 * WINDOW_CAP * VOLUME_MAX, SCALE as int);
            }
            (diff * SCALE / total) as i64
        } else {
            let diff = sell_vol - buy_vol;
            proof {
                lemma_scaled_ratio_bounded(diff as int, total as int);
                lemma_mul_inequality(diff as int, total as int, SCALE as int);
                lemma_sum_bounded(self@.bids, VOLUME_MAX as int);
                lemma_sum_bounded(self@.asks, VOLUME_MAX as int);
                lemma_mul_inequality(total as int, 2 * WINDOW_CAP * VOLUME_MAX, SCALE as int);
            }
            -((diff * SCALE / total) as i64)
        }
    }

    /// Detects whale activity: more than 80% of recent volume on one side.
    ///
    /// Returns a message naming the side, or nothing when flow is mixed.
    pub fn whale_alert(&self) -> (r: Option<String>)
        requires
            self.wf(),
        ensures
            ofi_of(self@) > WHALE_OFI ==> r is Some && r->Some_0@ == "WHALE BUYING"@,
            ofi_of(self@) < -WHALE_OFI ==> r is Some && r->Some_0@ == "WHALE SELLING"@,
            -WHALE_OFI <= ofi_of(self@) <= WHALE_OFI ==> r is None,
    {
        let ofi = self.calculate_ofi();
        if ofi > WHALE_OFI {
            Some("WHALE BUYING".to_owned())
        } else if ofi < -WHALE_OFI {
            Some("WHALE SELLING".to_owned())
        } else {
            None
        }
    }

    /// Minimum and maximum over the current price queue, or
    /// [`WindowError::EmptyWindow`] when no ticks have been recorded.
    pub fn min_max_price(&self) -> (r: Result<(u64, u64), WindowError>)
        requires
            self.wf(),
        ensures
            self@.prices.len() == 0 <==> r is Err,
            r is Err ==> r->Err_0 == WindowError::EmptyWindow,
            r is Ok ==> r->Ok_0.0 == seq_min(self@.prices) && r->Ok_0.1 == seq_max(self@.prices),
    {
        let n = self.prices.len();
        if n == 0 {
            return Err(WindowError::EmptyWindow);
        }
        let mut mn = self.prices[0];
        let mut mx = self.prices[0];
        let mut i: usize = 1;
        while i < n
            invariant
                self.wf(),
                n == self@.prices.len(),
                1 <= i <= n,
                mn == seq_min(self@.prices.take(i as int)),
                mx == seq_max(self@.prices.take(i as int)),
            decreases n - i,
        {
            proof {
                assert(self@.prices.take(i + 1 as int).drop_last() =~= self@.prices.take(i as int));
            }
            let p = self.prices[i];
            if p < mn {
                mn = p;
            }
            if p > mx {
                mx = p;
            }
            i = i + 1;
        }
        proof {
            assert(self@.prices.take(n as int) =~= self@.prices);
        }
        Ok((mn, mx))
    }

    /// Volatility estimate over the current window: half the spread between
    /// the highest and lowest recorded price, or
    /// [`WindowError::EmptyWindow`] when no ticks have been recorded.
    pub fn volatility(&self) -> (r: Result<u64, WindowError>)
        requires
            self.wf(),
        ensures
            self@.prices.len() == 0 <==> r is Err,
            r is Err ==> r->Err_0 == WindowError::EmptyWindow,
            r is Ok ==> r->Ok_0 == (seq_max(self@.prices) - seq_min(self@.prices)) / 2,
    {
        match self.min_max_price() {
            Err(e) => Err(e),
            Ok((mn, mx)) => {
                proof {
                    lemma_min_le_max(self@.prices);
                }
                Ok((mx - mn) / 2)
            },
        }
    }
}

/// In a non-empty sequence the least element is at most the greatest.
proof fn lemma_min_le_max(s: Seq<u64>)
    requires
        s.len() > 0,
    ensures
        seq_min(s) <= seq_max(s),
    decreases s.len(),
{
    if s.len() > 1 {
        lemma_min_le_max(s.drop_last());
    }
}

/// Sum a volume queue; the window bounds keep the sum well under `u64`.
fn sum_volumes(v: &VecDeque<u64>) -> (r: u64)
    requires
        v@.len() <= WINDOW_CAP,
        forall|i: int| 0 <= i < v@.len() ==> v@[i] <= VOLUME_MAX,
    ensures
        r == sum_of(v@),
        r <= WINDOW_CAP * VOLUME_MAX,
{
    let n = v.len();
    let mut acc: u64 = 0;
    let mut i: usize = 0;
    while i < n
        invariant
            n == v@.len() <= WINDOW_CAP,
            forall|j: int| 0 <= j < v@.len() ==> v@[j] <= VOLUME_MAX,
            0 <= i <= n,
            acc == sum_of(v@.take(i as int)),
            acc <= i * VOLUME_MAX,
        decreases n - i,
    {
        proof {
            assert(v@.take(i + 1 as int).drop_last() =~= v@.take(i as int));
            lemma_mul_inequality(i as int, WINDOW_CAP as int, VOLUME_MAX as int);
        }
        acc = acc + v[i];
        proof {
            lemma_mul_inequality(i + 1, WINDOW_CAP as int, VOLUME_MAX as int);
        }
        i = i + 1;
    }
    proof {
        assert(v@.take(n as int) =~= v@);
        lemma_sum_bounded(v@, VOLUME_MAX as int);
        lemma_mul_inequality(v@.len() as int, WINDOW_CAP as int, VOLUME_MAX as int);
    }
    acc
}

} // verus!
