//! Virtual wallet and paper-trade settlement.
//!
//! [`PaperWallet`] owns a balance and a queue of open virtual positions.
//! [`PaperWallet::open_trade`] appends a position sized as a percentage of
//! the balance at open time; [`PaperWallet::update`] settles every position
//! whose holding period has elapsed, exactly once, adjusting the balance
//! and the win/loss tallies.

use std::collections::VecDeque;
use vstd::arithmetic::mul::lemma_mul_upper_bound;
use vstd::prelude::*;

use crate::fixed::{lemma_fraction_le, PRICE_MAX, SCALE};
use crate::model::Direction;

verus! {

/// Balance a fresh wallet starts with: `10,000.0` in fixed-point units.
pub const START_BALANCE: i64 = 1_000_000_000;

/// Seconds a position stays open before it is settled.
pub const HOLDING_PERIOD_SECS: u64 = 60;

/// Bound on the wallet's money amounts, in fixed-point units: the balance
/// magnitude plus all committed stakes always stay under this, which keeps
/// every settlement computation inside `i64`.
pub const MONEY_CAP: i64 = 1_000_000_000_000_000_000;

/// One open virtual position.
///
/// `stake` is the absolute currency amount committed at open time; it is
/// not re-evaluated at settlement. `open_time` is in seconds.
#[derive(Debug, Clone, Copy, PartialEq, Eq, Structural)]
pub struct VirtualTrade {
    pub entry_price: u64,
    pub direction: Direction,
    pub stake: i64,
    pub open_time: u64,
}

/// Mathematical contents of a wallet.
pub struct WalletModel {
    pub balance: i64,
    pub trades: Seq<VirtualTrade>,
    pub wins: u32,
    pub losses: u32,
}

/// Magnitude of a currency amount.
pub open spec fn abs_of(x: int) -> int {
    if x >= 0 {
        x
    } else {
        -x
    }
}

/// Total stake magnitude committed across a queue of positions.
pub open spec fn stakes_total(s: Seq<VirtualTrade>) -> int
    decreases s.len(),
{
    if s.len() == 0 {
        0
    } else {
        abs_of(s[0].stake as int) + stakes_total(s.drop_first())
    }
}

/// Whether a position's holding period has elapsed at time `now`.
pub open spec fn is_expired(t: VirtualTrade, now: u64) -> bool {
    t.open_time + HOLDING_PERIOD_SECS <= now
}

/// Whether a settled position wins: strictly above entry for an upward
/// position, strictly below for a downward one. An unchanged price loses.
pub open spec fn is_win(t: VirtualTrade, current_price: u64) -> bool {
    ||| (t.direction is Up && current_price > t.entry_price)
    ||| (t.direction is Down && current_price < t.entry_price)
}

/// The 85% payout a winning stake earns, in fixed-point units
/// (truncating division on the stake's magnitude).
pub open spec fn payout_of(stake: int) -> int {
    if stake >= 0 {
        stake * 17 / 20
    } else {
        -((-stake) * 17 / 20)
    }
}

/// How much a settled position moves the balance: the payout on a win, the
/// lost stake on a loss.
pub open spec fn settle_delta(t: VirtualTrade, current_price: u64) -> int {
    if is_win(t, current_price) {
        payout_of(t.stake as int)
    } else {
        -(t.stake as int)
    }
}

/// Positions that survive an update at time `now`: those whose holding
/// period has not yet elapsed, in their original order.
pub open spec fn retained_of(s: Seq<VirtualTrade>, now: u64) -> Seq<VirtualTrade>
    decreases s.len(),
{
    if s.len() == 0 {
        Seq::empty()
    } else if is_expired(s[0], now) {
        retained_of(s.drop_first(), now)
    } else {
        seq![s[0]] + retained_of(s.drop_first(), now)
    }
}

/// Net balance change of an update: the sum of the settlement deltas of
/// every expired position.
pub open spec fn delta_of(s: Seq<VirtualTrade>, current_price: u64, now: u64) -> int
    decreases s.len(),
{
    if s.len() == 0 {
        0
    } else {
        (if is_expired(s[0], now) {
            settle_delta(s[0], current_price)
        } else {
            0
        }) + delta_of(s.drop_first(), current_price, now)
    }
}

/// Number of expired positions that settle as wins.
pub open spec fn wins_of(s: Seq<VirtualTrade>, current_price: u64, now: u64) -> int
    decreases s.len(),
{
    if s.len() == 0 {
        0
    } else {
        (if is_expired(s[0], now) && is_win(s[0], current_price) {
            1int
        } else {
            0int
        }) + wins_of(s.drop_first(), current_price, now)
    }
}

/// Number of expired positions that settle as losses.
pub open spec fn losses_of(s: Seq<VirtualTrade>, current_price: u64, now: u64) -> int
    decreases s.len(),
{
    if s.len() == 0 {
        0
    } else {
        (if is_expired(s[0], now) && !is_win(s[0], current_price) {
            1int
        } else {
            0int
        }) + losses_of(s.drop_first(), current_price, now)
    }
}

/// Settled-trade win rate as a fixed-point percentage, and `0` before any
/// trade has settled.
pub open spec fn win_rate_of(wins: int, losses: int) -> int {
    if wins + losses == 0 {
        0
    } else {
        wins * 100 * SCALE / (wins + losses)
    }
}

/// Tracks a virtual balance and the open virtual positions.
pub struct PaperWallet {
    balance: i64,
    active_trades: VecDeque<VirtualTrade>,
    wins: u32,
    losses: u32,
}

impl View for PaperWallet {
    type V = WalletModel;

    closed spec fn view(&self) -> WalletModel {
        WalletModel {
            balance: self.balance,
            trades: self.active_trades@,
            wins: self.wins,
            losses: self.losses,
        }
    }
}

impl PaperWallet {
    /// Every open position points up or down, the committed money stays
    /// under [`MONEY_CAP`], and the tallies cannot overflow.
    pub open spec fn wf(&self) -> bool {
        &&& forall|i: int|
            0 <= i < self@.trades.len() ==> !((#[trigger] self@.trades[i]).direction is Neutral)
        &&& abs_of(self@.balance as int) + stakes_total(self@.trades) <= MONEY_CAP
        &&& self@.wins + self@.losses + self@.trades.len() <= u32::MAX
    }

    /// A fresh wallet: starting balance, no open positions, no tallies.
    pub fn new() -> (w: Self)
        ensures
            w.wf(),
            w@.balance == START_BALANCE,
            w@.trades =~= Seq::<VirtualTrade>::empty(),
            w@.wins == 0,
            w@.losses == 0,
    {
        PaperWallet {
            balance: START_BALANCE,
            active_trades: VecDeque::new(),
            wins: 0,
            losses: 0,
        }
    }

    /// Current balance, in fixed-point units.
    pub fn balance(&self) -> (r: i64)
        ensures
            r == self@.balance,
    {
        self.balance
    }

    /// Number of settled winning trades.
    pub fn wins(&self) -> (r: u32)
        ensures
            r == self@.wins,
    {
        self.wins
    }

    /// Number of settled losing trades.
    pub fn losses(&self) -> (r: u32)
        ensures
            r == self@.losses,
    {
        self.losses
    }

    /// Number of currently open positions.
    pub fn open_count(&self) -> (r: usize)
        ensures
            r == self@.trades.len(),
    {
        self.active_trades.len()
    }

    /// Total stake magnitude currently committed to open positions, in
    /// fixed-point units. Callers use this to check there is room for one
    /// more position before opening it.
    pub fn committed_stake(&self) -> (r: i64)
        requires
            self.wf(),
        ensures
            r == stakes_total(self@.trades),
    {
        let ghost s0 = self.active_trades@;
        let n = self.active_trades.len();
        let mut acc: i64 = 0;
        let mut i: usize = 0;
        proof {
            assert(s0.skip(0) =~= s0);
            lemma_stakes_total_nonneg(s0);
        }
        while i < n
            invariant
                self.wf(),
                s0 == self@.trades,
                n == s0.len(),
                0 <= i <= n,
                acc == stakes_total(s0) - stakes_total(s0.skip(i as int)),
                0 <= acc <= stakes_total(s0),
            decreases n - i,
        {
            proof {
                lemma_stakes_total_parts(s0, i as int);
                assert(s0.skip(i as int).drop_first() =~= s0.skip(i + 1));
                lemma_stakes_total_nonneg(s0.skip(i + 1));
            }
            let t = &self.active_trades[i];
            if t.stake >= 0 {
                acc = acc + t.stake;
            } else {
                acc = acc - t.stake;
            }
            i = i + 1;
        }
        proof {
            assert(s0.skip(n as int) =~= Seq::<VirtualTrade>::empty());
        }
        acc
    }

    /// Settled-trade win rate as a fixed-point percentage; `0` before any
    /// trade has settled.
    pub fn win_rate(&self) -> (r: u64)
        ensures
            r == win_rate_of(self@.wins as int, self@.losses as int),
    {
        let total = self.wins as u64 + self.losses as u64;
        if total == 0 {
            return 0;
        }
        self.wins as u64 * 100 * SCALE / total
    }

    /// Opens a virtual position: commits `balance * stake_pct / 100` at the
    /// current balance (`stake_pct` is a fixed-point percentage) and
    /// appends the position to the open queue. The balance itself does not
    /// move until settlement.
    ///
    /// The two bound preconditions are machine limits: they keep the
    /// committed money under [`MONEY_CAP`] and the tallies within range,
    /// and are checkable through [`Self::balance`], [`Self::committed_stake`],
    /// [`Self::wins`], [`Self::losses`] and [`Self::open_count`].
    pub fn open_trade(&mut self, direction: Direction, price: u64, stake_pct: u64, now: u64)
        requires
            old(self).wf(),
            !(direction is Neutral),
            0 < price <= PRICE_MAX,
            stake_pct <= 100 * SCALE,
            2 * abs_of(old(self)@.balance as int) + stakes_total(old(self)@.trades) <= MONEY_CAP,
            old(self)@.wins + old(self)@.losses + old(self)@.trades.len() < u32::MAX,
        ensures
            final(self).wf(),
            final(self)@.trades =~= old(self)@.trades.push(
                VirtualTrade {
                    entry_price: price,
                    direction,
                    stake: stake_of(old(self)@.balance as int, stake_pct as int) as i64,
                    open_time: now,
                },
            ),
            final(self)@.balance == old(self)@.balance,
            final(self)@.wins == old(self)@.wins,
            final(self)@.losses == old(self)@.losses,
    {
        proof {
            lemma_stakes_total_nonneg(old(self)@.trades);
        }
        let mag: u64 = if self.balance >= 0 {
            self.balance as u64
        } else {
            (-self.balance) as u64
        };
        proof {
            lemma_mul_upper_bound(mag as int, MONEY_CAP as int, stake_pct as int, 100 * SCALE);
            lemma_scaled_fraction_le(mag as int, stake_pct as int);
        }
        let stake_mag: u64 = ((mag as u128) * (stake_pct as u128) / ((100 * SCALE) as u128)) as u64;
        let stake: i64 = if self.balance >= 0 {
            stake_mag as i64
        } else {
            -(stake_mag as i64)
        };
        let trade = VirtualTrade { entry_price: price, direction, stake, open_time: now };
        proof {
            lemma_stakes_total_push(self@.trades, trade);
        }
        self.active_trades.push_back(trade);
    }

    /// Settles every position whose holding period has elapsed at `now`:
    /// removes it from the queue, credits the 85% payout on a win or debits
    /// the stake on a loss, and advances the corresponding tally. Positions
    /// still inside their holding period are kept, in order, and are
    /// settled at most once by later calls.
    pub fn update(&mut self, current_price: u64, now: u64)
        requires
            old(self).wf(),
        ensures
            final(self).wf(),
            final(self)@.trades =~= retained_of(old(self)@.trades, now),
            final(self)@.balance == old(self)@.balance + delta_of(
                old(self)@.trades,
                current_price,
                now,
            ),
            final(self)@.wins == old(self)@.wins + wins_of(old(self)@.trades, current_price, now),
            final(self)@.losses == old(self)@.losses + losses_of(
                old(self)@.trades,
                current_price,
                now,
            ),
    {
        let ghost s0 = self.active_trades@;
        let ghost b0 = self.balance;
        let ghost w0 = self.wins;
        let ghost l0 = self.losses;
        let mut kept: VecDeque<VirtualTrade> = VecDeque::new();
        proof {
            lemma_stakes_total_nonneg(s0);
        }
        while self.active_trades.len() > 0
            invariant
                retained_of(s0, now) =~= kept@ + retained_of(self.active_trades@, now),
                self.balance == b0 + delta_of(s0, current_price, now) - delta_of(
                    self.active_trades@,
                    current_price,
                    now,
                ),
                self.wins == w0 + wins_of(s0, current_price, now) - wins_of(
                    self.active_trades@,
                    current_price,
                    now,
                ),
                self.losses == l0 + losses_of(s0, current_price, now) - losses_of(
                    self.active_trades@,
                    current_price,
                    now,
                ),
                abs_of(self.balance as int) + stakes_total(kept@) + stakes_total(
                    self.active_trades@,
                ) <= MONEY_CAP,
                self.wins + self.losses + kept@.len() + self.active_trades@.len() <= u32::MAX,
                forall|i: int|
                    0 <= i < kept@.len() ==> !is_expired(#[trigger] kept@[i], now) && !(
                    kept@[i].direction is Neutral),
                forall|i: int|
                    0 <= i < self.active_trades@.len() ==> !((
                    #[trigger] self.active_trades@[i]).direction is Neutral),
            decreases self.active_trades@.len(),
        {
            let ghost rest = self.active_trades@;
            let t = self.active_trades.pop_front().unwrap();
            proof {
                lemma_stakes_total_nonneg(rest.drop_first());
                lemma_wl_bounds(rest, current_price, now);
                lemma_wl_bounds(rest.drop_first(), current_price, now);
                lemma_delta_bounded(rest, current_price, now);
                lemma_delta_bounded(rest.drop_first(), current_price, now);
                lemma_stakes_total_nonneg(kept@);
            }
            let expired = now >= HOLDING_PERIOD_SECS && t.open_time <= now - HOLDING_PERIOD_SECS;
            if expired {
                let won = match t.direction {
                    Direction::Up => current_price > t.entry_price,
                    Direction::Down => current_price < t.entry_price,
                    Direction::Neutral => false,
                };
                if won {
                    let payout: i64 = if t.stake >= 0 {
                        (((t.stake as u64) as u128) * 17 / 20) as i64
                    } else {
                        -((((-t.stake) as u64 as u128) * 17 / 20) as i64)
                    };
                    proof {
                        lemma_payout_le(t.stake as int);
                    }
                    self.balance = self.balance + payout;
                    self.wins = self.wins + 1;
                } else {
                    self.balance = self.balance - t.stake;
                    self.losses = self.losses + 1;
                }
            } else {
                proof {
                    lemma_stakes_total_push(kept@, t);
                    assert(seq![t] + retained_of(rest.drop_first(), now) =~= seq![t].add(
                        retained_of(rest.drop_first(), now),
                    ));
                    assert(kept@ + (seq![t] + retained_of(rest.drop_first(), now)) =~= kept@.push(t)
                        + retained_of(rest.drop_first(), now));
                }
                kept.push_back(t);
            }
        }
        proof {
            assert(kept@ + retained_of(self.active_trades@, now) =~= kept@);
            lemma_retained_stakes(s0, now);
        }
        self.active_trades = kept;
    }
}

/// Splitting a queue at `i` splits its total stake.
proof fn lemma_stakes_total_parts(s: Seq<VirtualTrade>, i: int)
    requires
        0 <= i < s.len(),
    ensures
        stakes_total(s) - stakes_total(s.skip(i)) + abs_of(s[i].stake as int) == stakes_total(
            s,
        ) - stakes_total(s.skip(i + 1)),
    decreases s.len(),
{
    assert(s.skip(i).drop_first() =~= s.skip(i + 1));
}

/// A total of stake magnitudes is never negative.
proof fn lemma_stakes_total_nonneg(s: Seq<VirtualTrade>)
    ensures
        stakes_total(s) >= 0,
    decreases s.len(),
{
    if s.len() > 0 {
        lemma_stakes_total_nonneg(s.drop_first());
    }
}

/// Appending a position adds its stake magnitude to the total.
proof fn lemma_stakes_total_push(s: Seq<VirtualTrade>, t: VirtualTrade)
    ensures
        stakes_total(s.push(t)) == stakes_total(s) + abs_of(t.stake as int),
    decreases s.len(),
{
    let p = s.push(t);
    assert(p.len() == s.len() + 1);
    assert(stakes_total(p) == abs_of(p[0].stake as int) + stakes_total(p.drop_first()));
    if s.len() == 0 {
        assert(p[0] == t);
        assert(p.drop_first() =~= Seq::<VirtualTrade>::empty());
    } else {
        assert(p[0] == s[0]);
        assert(p.drop_first() =~= s.drop_first().push(t));
        lemma_stakes_total_push(s.drop_first(), t);
    }
}

/// A balance fraction never exceeds the balance magnitude it is taken of.
proof fn lemma_scaled_fraction_le(mag: int, pct: int)
    requires
        0 <= mag,
        0 <= pct <= 100 * SCALE,
    ensures
        0 <= mag * pct / (100 * SCALE) <= mag,
{
    lemma_fraction_le(mag, pct, 100 * SCALE);
}

/// A payout never exceeds the stake magnitude it is computed from.
proof fn lemma_payout_le(stake: int)
    ensures
        abs_of(payout_of(stake)) <= abs_of(stake),
{
    lemma_fraction_le(abs_of(stake), 17, 20);
}

/// Win and loss counts of an update stay within the queue's length.
proof fn lemma_wl_bounds(s: Seq<VirtualTrade>, current_price: u64, now: u64)
    ensures
        0 <= wins_of(s, current_price, now),
        0 <= losses_of(s, current_price, now),
        wins_of(s, current_price, now) + losses_of(s, current_price, now) <= s.len(),
    decreases s.len(),
{
    if s.len() > 0 {
        lemma_wl_bounds(s.drop_first(), current_price, now);
    }
}

/// The balance change of an update is bounded by the committed stakes.
proof fn lemma_delta_bounded(s: Seq<VirtualTrade>, current_price: u64, now: u64)
    ensures
        abs_of(delta_of(s, current_price, now)) <= stakes_total(s),
    decreases s.len(),
{
    if s.len() > 0 {
        lemma_delta_bounded(s.drop_first(), current_price, now);
        lemma_payout_le(s[0].stake as int);
    }
}

/// Retained positions commit no more stake than the whole queue did.
proof fn lemma_retained_stakes(s: Seq<VirtualTrade>, now: u64)
    ensures
        0 <= stakes_total(retained_of(s, now)) <= stakes_total(s),
    decreases s.len(),
{
    if s.len() == 0 {
    } else {
        lemma_retained_stakes(s.drop_first(), now);
        if !is_expired(s[0], now) {
            assert((seq![s[0]] + retained_of(s.drop_first(), now)).drop_first() =~= retained_of(
                s.drop_first(),
                now,
            ));
        }
    }
}

/// The stake a percentage of a balance commits, in fixed-point units:
/// `balance * (stake_pct / 100)`, with the truncating division applied to
/// the balance's magnitude.
pub open spec fn stake_of(balance: int, stake_pct: int) -> int {
    if balance >= 0 {
        balance * stake_pct / (100 * SCALE)
    } else {
        -((-balance) * stake_pct / (100 * SCALE))
    }
}

/// No position survives an update that it was already expired for: every
/// retained position's holding period is still running at `now`.
pub proof fn lemma_retained_not_expired(s: Seq<VirtualTrade>, now: u64)
    ensures
        forall|i: int|
            0 <= i < retained_of(s, now).len() ==> !is_expired(
                #[trigger] retained_of(s, now)[i],
                now,
            ),
    decreases s.len(),
{
    if s.len() > 0 {
        lemma_retained_not_expired(s.drop_first(), now);
        if !is_expired(s[0], now) {
            assert((seq![s[0]] + retained_of(s.drop_first(), now)).drop_first() =~= retained_of(
                s.drop_first(),
                now,
            ));
        }
    }
}

/// An update settles nothing when every position's holding period is still
/// running: the queue, the balance and the tallies all stay as they are.
pub proof fn lemma_update_before_holding(s: Seq<VirtualTrade>, current_price: u64, now: u64)
    requires
        forall|i: int| 0 <= i < s.len() ==> !is_expired(#[trigger] s[i], now),
    ensures
        retained_of(s, now) =~= s,
        delta_of(s, current_price, now) == 0,
        wins_of(s, current_price, now) == 0,
        losses_of(s, current_price, now) == 0,
    decreases s.len(),
{
    if s.len() > 0 {
        lemma_update_before_holding(s.drop_first(), current_price, now);
        assert(seq![s[0]] + s.drop_first() =~= s);
    }
}

/// A position settles exactly once: a second update at the same time finds
/// nothing left to settle, so it moves neither the queue, nor the balance,
/// nor the tallies.
pub proof fn lemma_settle_exactly_once(
    s: Seq<VirtualTrade>,
    current_price: u64,
    second_price: u64,
    now: u64,
)
    ensures
        retained_of(retained_of(s, now), now) =~= retained_of(s, now),
        delta_of(retained_of(s, now), second_price, now) == 0,
        wins_of(retained_of(s, now), second_price, now) == 0,
        losses_of(retained_of(s, now), second_price, now) == 0,
{
    lemma_retained_not_expired(s, now);
    lemma_update_before_holding(retained_of(s, now), second_price, now);
}

} // verus!
