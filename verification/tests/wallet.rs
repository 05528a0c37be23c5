use quantum_engine::model::Direction;
use quantum_engine::simulator::PaperWallet;

const SCALE: u64 = 100_000;

#[test]
fn new_wallet_has_starting_balance_and_no_history() {
    let w = PaperWallet::new();
    assert_eq!(w.balance(), 10_000 * SCALE as i64);
    assert_eq!(w.open_count(), 0);
    assert_eq!(w.wins(), 0);
    assert_eq!(w.losses(), 0);
    assert_eq!(w.win_rate(), 0);
}

#[test]
fn open_trade_commits_a_balance_fraction_without_moving_it() {
    let mut w = PaperWallet::new();
    // 5% of 10,000.0 is 500.0.
    w.open_trade(Direction::Up, 100 * SCALE, 5 * SCALE, 0);
    assert_eq!(w.balance(), 10_000 * SCALE as i64);
    assert_eq!(w.open_count(), 1);
    assert_eq!(w.committed_stake(), 500 * SCALE as i64);
}

#[test]
fn update_before_holding_period_changes_nothing() {
    let mut w = PaperWallet::new();
    w.open_trade(Direction::Up, 100 * SCALE, 5 * SCALE, 0);
    w.update(105 * SCALE, 59);
    assert_eq!(w.open_count(), 1);
    assert_eq!(w.balance(), 10_000 * SCALE as i64);
    assert_eq!(w.wins(), 0);
    assert_eq!(w.losses(), 0);
}

#[test]
fn winning_position_settles_once_with_payout() {
    let mut w = PaperWallet::new();
    // Entry 100, stake 5% of a 10,000 balance: 500. Settled 61 seconds
    // later at 105: a win pays 85% of the stake.
    w.open_trade(Direction::Up, 100 * SCALE, 5 * SCALE, 0);
    w.update(105 * SCALE, 61);
    assert_eq!(w.open_count(), 0);
    assert_eq!(w.balance(), 10_425 * SCALE as i64);
    assert_eq!(w.wins(), 1);
    assert_eq!(w.losses(), 0);

    // A second update finds nothing left to settle.
    w.update(90 * SCALE, 62);
    assert_eq!(w.balance(), 10_425 * SCALE as i64);
    assert_eq!(w.wins(), 1);
    assert_eq!(w.losses(), 0);
}

#[test]
fn losing_position_forfeits_the_stake() {
    let mut w = PaperWallet::new();
    w.open_trade(Direction::Up, 100 * SCALE, 5 * SCALE, 0);
    w.update(95 * SCALE, 61);
    assert_eq!(w.balance(), 9_500 * SCALE as i64);
    assert_eq!(w.wins(), 0);
    assert_eq!(w.losses(), 1);
}

#[test]
fn unchanged_price_counts_as_a_loss() {
    let mut w = PaperWallet::new();
    w.open_trade(Direction::Up, 100 * SCALE, 5 * SCALE, 0);
    w.update(100 * SCALE, 61);
    assert_eq!(w.losses(), 1);
    assert_eq!(w.balance(), 9_500 * SCALE as i64);
}

#[test]
fn downward_position_wins_below_entry() {
    let mut w = PaperWallet::new();
    w.open_trade(Direction::Down, 100 * SCALE, SCALE, 10);
    // 1% of 10,000.0 is 100.0; the win pays 85.0.
    w.update(99 * SCALE, 70);
    assert_eq!(w.balance(), 10_085 * SCALE as i64);
    assert_eq!(w.wins(), 1);
}

#[test]
fn settlement_is_per_position() {
    let mut w = PaperWallet::new();
    w.open_trade(Direction::Up, 100 * SCALE, SCALE, 0);
    w.open_trade(Direction::Up, 100 * SCALE, SCALE, 30);
    // At 61 seconds only the first has aged out.
    w.update(105 * SCALE, 61);
    assert_eq!(w.open_count(), 1);
    assert_eq!(w.wins(), 1);
    // At 90 seconds the second settles too, against the new price.
    w.update(95 * SCALE, 90);
    assert_eq!(w.open_count(), 0);
    assert_eq!(w.wins(), 1);
    assert_eq!(w.losses(), 1);
}

#[test]
fn win_rate_is_a_percentage_of_settled_trades() {
    let mut w = PaperWallet::new();
    w.open_trade(Direction::Up, 100 * SCALE, SCALE, 0);
    w.open_trade(Direction::Up, 100 * SCALE, SCALE, 0);
    w.open_trade(Direction::Down, 100 * SCALE, SCALE, 0);
    w.update(105 * SCALE, 61);
    // Two upward wins, one downward loss: 66.666...%, truncated.
    assert_eq!(w.wins(), 2);
    assert_eq!(w.losses(), 1);
    assert_eq!(w.win_rate(), 2 * 100 * SCALE / 3);
}
