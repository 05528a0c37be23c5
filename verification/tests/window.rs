use quantum_engine::analysis::{MarketMicrostructure, WindowError};
use quantum_engine::model::TradeData;

const SCALE: u64 = 100_000;

fn buy_tick(price: u64, volume: u64) -> TradeData {
    TradeData { price, quantity: volume, is_buyer_maker: false }
}

fn sell_tick(price: u64, volume: u64) -> TradeData {
    TradeData { price, quantity: volume, is_buyer_maker: true }
}

#[test]
fn window_starts_empty() {
    let w = MarketMicrostructure::new();
    assert_eq!(w.len(), 0);
    assert_eq!(w.calculate_ofi(), 0);
}

#[test]
fn window_never_exceeds_capacity() {
    let mut w = MarketMicrostructure::new();
    for i in 0..150u64 {
        w.update(&buy_tick(SCALE + i, SCALE));
        assert!(w.len() <= 100);
    }
    assert_eq!(w.len(), 100);
}

#[test]
fn window_evicts_oldest_price() {
    let mut w = MarketMicrostructure::new();
    // One very low price, then 100 higher ones: the low one is evicted.
    w.update(&buy_tick(1 * SCALE, SCALE));
    for _ in 0..100 {
        w.update(&buy_tick(50 * SCALE, SCALE));
    }
    assert_eq!(w.min_max_price(), Ok((50 * SCALE, 50 * SCALE)));
}

#[test]
fn ofi_zero_on_empty_window() {
    let w = MarketMicrostructure::new();
    assert_eq!(w.calculate_ofi(), 0);
}

#[test]
fn ofi_zero_on_all_zero_volumes() {
    let mut w = MarketMicrostructure::new();
    for _ in 0..10 {
        w.update(&buy_tick(10 * SCALE, 0));
        w.update(&sell_tick(10 * SCALE, 0));
    }
    assert_eq!(w.calculate_ofi(), 0);
}

#[test]
fn ofi_balanced_on_alternating_flow() {
    let mut w = MarketMicrostructure::new();
    for _ in 0..50 {
        w.update(&buy_tick(10 * SCALE, SCALE));
        w.update(&sell_tick(10 * SCALE, SCALE));
    }
    assert_eq!(w.len(), 100);
    assert_eq!(w.calculate_ofi(), 0);
}

#[test]
fn ofi_one_on_pure_buying() {
    let mut w = MarketMicrostructure::new();
    for _ in 0..100 {
        w.update(&buy_tick(10 * SCALE, SCALE));
    }
    assert_eq!(w.calculate_ofi(), SCALE as i64);
}

#[test]
fn ofi_minus_one_on_pure_selling() {
    let mut w = MarketMicrostructure::new();
    for _ in 0..100 {
        w.update(&sell_tick(10 * SCALE, SCALE));
    }
    assert_eq!(w.calculate_ofi(), -(SCALE as i64));
}

#[test]
fn ofi_stays_in_unit_range() {
    let mut w = MarketMicrostructure::new();
    for i in 0..100u64 {
        if i % 3 == 0 {
            w.update(&sell_tick(10 * SCALE, 7 * SCALE));
        } else {
            w.update(&buy_tick(10 * SCALE, 2 * SCALE));
        }
        let ofi = w.calculate_ofi();
        assert!(-(SCALE as i64) <= ofi && ofi <= SCALE as i64);
    }
}

#[test]
fn whale_alert_on_one_sided_volume() {
    let mut w = MarketMicrostructure::new();
    // 10 buys of 1.0 against 1 sell of 1.0: imbalance 9/11 > 0.8.
    for _ in 0..10 {
        w.update(&buy_tick(10 * SCALE, SCALE));
    }
    w.update(&sell_tick(10 * SCALE, SCALE));
    assert_eq!(w.whale_alert(), Some("WHALE BUYING".to_owned()));

    let mut w2 = MarketMicrostructure::new();
    for _ in 0..10 {
        w2.update(&sell_tick(10 * SCALE, SCALE));
    }
    w2.update(&buy_tick(10 * SCALE, SCALE));
    assert_eq!(w2.whale_alert(), Some("WHALE SELLING".to_owned()));
}

#[test]
fn whale_alert_none_on_mixed_flow() {
    let mut w = MarketMicrostructure::new();
    // 9 buys against 1 sell: imbalance 8/10 == 0.8 exactly, not beyond it.
    for _ in 0..9 {
        w.update(&buy_tick(10 * SCALE, SCALE));
    }
    w.update(&sell_tick(10 * SCALE, SCALE));
    assert_eq!(w.whale_alert(), None);
}

#[test]
fn min_max_price_requires_history() {
    let w = MarketMicrostructure::new();
    assert_eq!(w.min_max_price(), Err(WindowError::EmptyWindow));
}

#[test]
fn min_max_price_tracks_extrema() {
    let mut w = MarketMicrostructure::new();
    w.update(&buy_tick(7 * SCALE, SCALE));
    w.update(&sell_tick(3 * SCALE, SCALE));
    w.update(&buy_tick(9 * SCALE, SCALE));
    assert_eq!(w.min_max_price(), Ok((3 * SCALE, 9 * SCALE)));
}

#[test]
fn volatility_is_half_the_price_spread() {
    let mut w = MarketMicrostructure::new();
    w.update(&buy_tick(100 * SCALE, SCALE));
    w.update(&buy_tick(150 * SCALE, SCALE));
    assert_eq!(w.volatility(), Ok(25 * SCALE));
    let empty = MarketMicrostructure::new();
    assert_eq!(empty.volatility(), Err(WindowError::EmptyWindow));
}
