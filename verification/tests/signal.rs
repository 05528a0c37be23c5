use quantum_engine::analysis::MarketMicrostructure;
use quantum_engine::model::{
    classify, path_up_indicator, Direction, QuantumSignal, TradeData, CONFIDENCE_MAX,
    CONFIDENCE_MIN,
};

const SCALE: u64 = 100_000;

fn window_with_buying() -> MarketMicrostructure {
    let mut w = MarketMicrostructure::new();
    for _ in 0..100 {
        w.update(&TradeData { price: 100 * SCALE, quantity: SCALE, is_buyer_maker: false });
    }
    w
}

#[test]
fn zero_volatility_is_a_full_confidence_down_call() {
    // Every path stays at the current price, so no path ends above it:
    // zero upward paths fall in the downward branch at 100% confidence.
    let w = window_with_buying();
    let s = QuantumSignal::analyze(&w, 100 * SCALE, 0);
    assert_eq!(s.direction, Direction::Down);
    assert_eq!(s.confidence, CONFIDENCE_MAX);
    // Pure buying flow cannot confirm a downward call.
    assert!(!s.is_whale_confirmed);
}

#[test]
fn analyze_confidence_stays_in_band() {
    let w = window_with_buying();
    for vol in [0u64, SCALE, 10 * SCALE, 100 * SCALE] {
        let s = QuantumSignal::analyze(&w, 100 * SCALE, vol);
        assert!(CONFIDENCE_MIN <= s.confidence && s.confidence <= CONFIDENCE_MAX);
        if s.direction == Direction::Neutral {
            assert!(!s.is_whale_confirmed);
            assert_eq!(s.confidence, CONFIDENCE_MIN);
        }
    }
}

#[test]
fn symmetric_walk_is_overwhelmingly_neutral() {
    // The shocks are uniform on [-1.0, 1.0), so paths end above the start
    // about half the time: with 10,000 paths the upward share stays well
    // inside the 30%-70% neutral band (five standard deviations is about
    // 2.5%). A degenerate shock source would push every path one way and
    // produce a directional call instead.
    let w = window_with_buying();
    for _ in 0..5 {
        let s = QuantumSignal::analyze(&w, 100 * SCALE, 100 * SCALE);
        assert_eq!(s.direction, Direction::Neutral);
        assert_eq!(s.confidence, CONFIDENCE_MIN);
        assert!(!s.is_whale_confirmed);
    }
}

#[test]
fn path_indicator_is_zero_without_volatility() {
    for _ in 0..100 {
        assert_eq!(path_up_indicator(100 * SCALE, 0), 0);
    }
}

#[test]
fn classify_boundaries_are_strict() {
    // Exactly 70% upward paths is still neutral; one more is an up call.
    let neutral = classify(7_000, 50_000);
    assert_eq!(neutral.direction, Direction::Neutral);
    assert_eq!(neutral.confidence, CONFIDENCE_MIN);
    assert!(!neutral.is_whale_confirmed);

    let up = classify(7_001, 50_000);
    assert_eq!(up.direction, Direction::Up);
    assert_eq!(up.confidence, 7_001_000);
    assert!(up.is_whale_confirmed);

    // Exactly 30% is neutral; one fewer is a down call.
    let still_neutral = classify(3_000, -50_000);
    assert_eq!(still_neutral.direction, Direction::Neutral);

    let down = classify(2_999, -50_000);
    assert_eq!(down.direction, Direction::Down);
    assert_eq!(down.confidence, 7_001_000);
    assert!(down.is_whale_confirmed);
}

#[test]
fn whale_confirmation_thresholds_are_strict() {
    // An imbalance of exactly 0.2 does not confirm an up call.
    assert!(!classify(8_000, 20_000).is_whale_confirmed);
    assert!(classify(8_000, 20_001).is_whale_confirmed);
    // Contradicting flow never confirms.
    assert!(!classify(8_000, -90_000).is_whale_confirmed);
    assert!(!classify(2_000, 90_000).is_whale_confirmed);
    assert!(classify(2_000, -20_001).is_whale_confirmed);
}

#[test]
fn zero_upward_paths_classify_downward_at_full_confidence() {
    let s = classify(0, 0);
    assert_eq!(s.direction, Direction::Down);
    assert_eq!(s.confidence, CONFIDENCE_MAX);
    assert!(!s.is_whale_confirmed);
}

#[test]
fn stake_is_the_flat_minimum_below_eighty_percent() {
    for conf in [5_000_000u64, 6_000_000, 7_500_000, 7_999_999] {
        let s = QuantumSignal { confidence: conf, direction: Direction::Up, is_whale_confirmed: true };
        assert_eq!(s.calculate_stake(), 100_000);
    }
}

#[test]
fn stake_is_clamped_kelly_from_eighty_percent() {
    // At 80% confidence one-tenth Kelly is already 5.6% of bankroll, so
    // the whole Kelly band clamps to the 5% cap.
    for conf in [8_000_000u64, 8_500_000, 9_200_000, 10_000_000] {
        let s = QuantumSignal { confidence: conf, direction: Direction::Up, is_whale_confirmed: true };
        let stake = s.calculate_stake();
        assert!(stake >= 100_000 && stake <= 500_000);
        assert_eq!(stake, 500_000);
    }
}
