use quantum_engine::fixed::parse_price;
use quantum_engine::logger::TradeLogger;
use quantum_engine::model::Direction;

const SCALE: u64 = 100_000;

#[test]
fn journal_record_renders_a_full_line() {
    let line = TradeLogger::journal_record(
        "2024-01-01 00:00:00.000",
        Direction::Up,
        9_250_000,          // 92.5%
        9_650_012_345,      // 96500.12345
        true,
    );
    assert_eq!(
        String::from_utf8(line).unwrap(),
        "2024-01-01 00:00:00.000,UP,92.50%,96500.12345,CONFIRMED\n",
    );
}

#[test]
fn journal_record_renders_unconfirmed_and_neutral() {
    let line = TradeLogger::journal_record(
        "t",
        Direction::Neutral,
        5_000_000,   // 50.0%
        1,           // 0.00001
        false,
    );
    assert_eq!(
        String::from_utf8(line).unwrap(),
        "t,NEUTRAL,50.00%,0.00001,UNCONFIRMED\n",
    );
}

#[test]
fn journal_record_renders_down_calls() {
    let line = TradeLogger::journal_record(
        "ts",
        Direction::Down,
        10_000_000,        // 100.0%
        100 * SCALE,       // 100.00000
        true,
    );
    assert_eq!(
        String::from_utf8(line).unwrap(),
        "ts,DOWN,100.00%,100.00000,CONFIRMED\n",
    );
}

#[test]
fn parse_price_reads_plain_integers() {
    assert_eq!(parse_price("123"), Some(123 * SCALE));
    assert_eq!(parse_price("0"), Some(0));
}

#[test]
fn parse_price_reads_decimals() {
    assert_eq!(parse_price("96500.12"), Some(9_650_012_000));
    assert_eq!(parse_price("0.00001"), Some(1));
    assert_eq!(parse_price("1.5"), Some(150_000));
}

#[test]
fn parse_price_truncates_beyond_five_fraction_digits() {
    assert_eq!(parse_price("1.123456789"), Some(112_345));
}

#[test]
fn parse_price_rejects_malformed_text() {
    assert_eq!(parse_price(""), None);
    assert_eq!(parse_price("."), None);
    assert_eq!(parse_price("1."), None);
    assert_eq!(parse_price(".5"), None);
    assert_eq!(parse_price("abc"), None);
    assert_eq!(parse_price("1.2.3"), None);
    assert_eq!(parse_price("12a.5"), None);
    assert_eq!(parse_price("-1.0"), None);
    assert_eq!(parse_price("1.5x"), None);
}

#[test]
fn parse_price_rejects_out_of_range_values() {
    // One hundred million is the top of the price range.
    assert_eq!(parse_price("100000000"), Some(10_000_000_000_000));
    assert_eq!(parse_price("100000001"), None);
    assert_eq!(parse_price("999999999999999999"), None);
}
