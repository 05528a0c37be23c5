use quantum_engine::engine::{
    cooldown_active, fallback_tick, in_warning_zone, required_confidence, should_evaluate,
    should_fire, tick_from_price,
};
use quantum_engine::model::{Direction, QuantumSignal};
use quantum_engine::news_filter::{danger_in_events, NewsEvent};

const SCALE: u64 = 100_000;

#[test]
fn required_confidence_follows_the_volatility_regime() {
    assert_eq!(required_confidence(0), 8_800_000);
    assert_eq!(required_confidence(2_000_000 - 1), 8_800_000);
    assert_eq!(required_confidence(2_000_000), 9_000_000);
    assert_eq!(required_confidence(10_000_000), 9_000_000);
    assert_eq!(required_confidence(10_000_001), 9_400_000);
}

#[test]
fn evaluation_needs_history_and_clear_gates() {
    assert!(should_evaluate(20, 20, false, false));
    assert!(!should_evaluate(19, 20, false, false));
    assert!(!should_evaluate(50, 20, true, false));
    assert!(!should_evaluate(50, 20, false, true));
    // A stricter caller may demand more history.
    assert!(!should_evaluate(50, 60, false, false));
    assert!(should_evaluate(60, 60, false, false));
}

#[test]
fn warning_zone_is_half_open() {
    let s = |conf| QuantumSignal {
        confidence: conf,
        direction: Direction::Up,
        is_whale_confirmed: false,
    };
    assert!(!in_warning_zone(&s(7_499_999), 7_500_000, 8_000_000));
    assert!(in_warning_zone(&s(7_500_000), 7_500_000, 8_000_000));
    assert!(in_warning_zone(&s(7_999_999), 7_500_000, 8_000_000));
    assert!(!in_warning_zone(&s(8_000_000), 7_500_000, 8_000_000));
}

#[test]
fn firing_needs_confidence_and_confirmation() {
    let confirmed = QuantumSignal {
        confidence: 9_100_000,
        direction: Direction::Up,
        is_whale_confirmed: true,
    };
    assert!(should_fire(&confirmed, 9_000_000));
    // The threshold is strict.
    assert!(!should_fire(&confirmed, 9_100_000));
    let unconfirmed = QuantumSignal { is_whale_confirmed: false, ..confirmed };
    assert!(!should_fire(&unconfirmed, 9_000_000));
}

#[test]
fn cooldown_runs_for_sixty_seconds_after_a_signal() {
    assert!(!cooldown_active(None, 1_000));
    assert!(cooldown_active(Some(1_000), 1_000));
    assert!(cooldown_active(Some(1_000), 1_059));
    assert!(!cooldown_active(Some(1_000), 1_060));
}

#[test]
fn fetched_prices_become_ticks_with_inferred_flow() {
    let up = tick_from_price(101 * SCALE, 100 * SCALE);
    assert_eq!(up.price, 101 * SCALE);
    assert_eq!(up.quantity, 10_000);
    assert!(!up.is_buyer_maker);
    let down = tick_from_price(99 * SCALE, 100 * SCALE);
    assert!(down.is_buyer_maker);
}

#[test]
fn fallback_ticks_stay_within_the_move_band() {
    let last = 96_500 * SCALE;
    for _ in 0..200 {
        let t = fallback_tick(last);
        assert_eq!(t.quantity, 10_000);
        // The move is at most 0.05% in either direction.
        let low = last - last / 2000;
        let high = last + last / 2000;
        assert!(low <= t.price && t.price <= high);
        assert_eq!(t.is_buyer_maker, t.price < last);
    }
}

fn event(country: &str, impact: &str, date: &str) -> NewsEvent {
    NewsEvent {
        title: "rates decision".to_owned(),
        country: country.to_owned(),
        date: date.to_owned(),
        impact: impact.to_owned(),
    }
}

#[test]
fn high_impact_usd_or_eur_event_today_halts_trading() {
    let today = "01-02-2026".to_owned();
    let events = vec![event("USD", "High", "01-02-2026")];
    assert!(danger_in_events(&events, &today));
    let eur = vec![event("EUR", "High", "01-02-2026")];
    assert!(danger_in_events(&eur, &today));
}

#[test]
fn other_events_do_not_halt_trading() {
    let today = "01-02-2026".to_owned();
    assert!(!danger_in_events(&vec![], &today));
    assert!(!danger_in_events(&vec![event("GBP", "High", "01-02-2026")], &today));
    assert!(!danger_in_events(&vec![event("USD", "Medium", "01-02-2026")], &today));
    assert!(!danger_in_events(&vec![event("USD", "High", "01-03-2026")], &today));
}

#[test]
fn any_dangerous_event_in_the_list_suffices() {
    let today = "01-02-2026".to_owned();
    let events = vec![
        event("JPY", "High", "01-02-2026"),
        event("USD", "Low", "01-02-2026"),
        event("EUR", "High", "01-02-2026"),
    ];
    assert!(danger_in_events(&events, &today));
}
