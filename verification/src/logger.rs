//! Trade-journal records.
//!
//! Each fired or warned signal is journalled as one comma-separated line:
//! timestamp, direction, confidence with two decimal places and a percent
//! sign, price with five decimal places, and whale status. The library
//! renders the line as bytes with an exact contract; appending it to the
//! journal file is the caller's job.

use vstd::prelude::*;
use vstd::string::StringSliceAdditionalSpecFns;

use crate::fixed::{PRICE_MAX, SCALE};
use crate::model::{Direction, CONFIDENCE_MAX};

verus! {

/// Decimal digits of `n`, most significant first, as ASCII bytes.
pub open spec fn dec_digits(n: nat) -> Seq<u8>
    decreases n,
{
    if n < 10 {
        seq![(48 + n) as u8]
    } else {
        dec_digits(n / 10).push((48 + n % 10) as u8)
    }
}

/// The five fractional digits of a fixed-point value, zero-padded, as
/// ASCII bytes.
pub open spec fn frac5_digits(frac: nat) -> Seq<u8>
    recommends
        frac < SCALE,
{
    seq![
        (48 + frac / 10_000 % 10) as u8,
        (48 + frac / 1_000 % 10) as u8,
        (48 + frac / 100 % 10) as u8,
        (48 + frac / 10 % 10) as u8,
        (48 + frac % 10) as u8,
    ]
}

/// The first two fractional digits of a fixed-point value, zero-padded, as
/// ASCII bytes (the remaining three digits are truncated).
pub open spec fn frac2_digits(frac: nat) -> Seq<u8>
    recommends
        frac < SCALE,
{
    seq![(48 + frac / 10_000 % 10) as u8, (48 + frac / 1_000 % 10) as u8]
}

/// A fixed-point value rendered with five decimal places.
pub open spec fn fixed5_bytes(v: nat) -> Seq<u8> {
    dec_digits(v / (SCALE as nat)) + seq![46u8] + frac5_digits(v % (SCALE as nat))
}

/// A fixed-point value rendered with two decimal places (truncating).
pub open spec fn fixed2_bytes(v: nat) -> Seq<u8> {
    dec_digits(v / (SCALE as nat)) + seq![46u8] + frac2_digits(v % (SCALE as nat))
}

/// A direction's journal text.
pub open spec fn direction_bytes(d: Direction) -> Seq<u8> {
    match d {
        Direction::Up => seq![85u8, 80u8],  // "UP"
        Direction::Down => seq![68u8, 79u8, 87u8, 78u8],  // "DOWN"
        Direction::Neutral => seq![78u8, 69u8, 85u8, 84u8, 82u8, 65u8, 76u8],  // "NEUTRAL"
    }
}

/// The whale-status journal text: `CONFIRMED` or `UNCONFIRMED`.
pub open spec fn whale_bytes(confirmed: bool) -> Seq<u8> {
    if confirmed {
        seq![67u8, 79u8, 78u8, 70u8, 73u8, 82u8, 77u8, 69u8, 68u8]  // "CONFIRMED"
    } else {
        seq![85u8, 78u8, 67u8, 79u8, 78u8, 70u8, 73u8, 82u8, 77u8, 69u8, 68u8]  // "UNCONFIRMED"
    }
}

/// One full journal line:
/// `timestamp,DIRECTION,confidence%,price,WHALE-STATUS\n`.
pub open spec fn journal_line(
    timestamp: Seq<u8>,
    direction: Direction,
    confidence: nat,
    price: nat,
    whale_confirmed: bool,
) -> Seq<u8> {
    timestamp + seq![44u8] + direction_bytes(direction) + seq![44u8] + fixed2_bytes(confidence)
        + seq![37u8, 44u8] + fixed5_bytes(price) + seq![44u8] + whale_bytes(whale_confirmed) + seq![
        10u8,
    ]
}

/// Appends the decimal digits of `n` to `out`.
fn push_decimal(out: &mut Vec<u8>, n: u64)
    ensures
        final(out)@ == old(out)@ + dec_digits(n as nat),
    decreases n,
{
    if n < 10 {
        out.push(48 + n as u8);
        proof {
            assert(out@ =~= old(out)@ + dec_digits(n as nat));
        }
    } else {
        push_decimal(out, n / 10);
        out.push(48 + (n % 10) as u8);
        proof {
            assert(out@ =~= old(out)@ + dec_digits(n as nat));
        }
    }
}

/// Appends `width` zero-padded digits: the five (or first two) fractional
/// digits of a fixed-point value.
fn push_frac(out: &mut Vec<u8>, frac: u64, width: usize)
    requires
        frac < SCALE,
        width == 5 || width == 2,
    ensures
        width == 5 ==> final(out)@ == old(out)@ + frac5_digits(frac as nat),
        width == 2 ==> final(out)@ == old(out)@ + frac2_digits(frac as nat),
{
    out.push(48 + (frac / 10_000 % 10) as u8);
    out.push(48 + (frac / 1_000 % 10) as u8);
    if width == 5 {
        out.push(48 + (frac / 100 % 10) as u8);
        out.push(48 + (frac / 10 % 10) as u8);
        out.push(48 + (frac % 10) as u8);
        proof {
            assert(out@ =~= old(out)@ + frac5_digits(frac as nat));
        }
    } else {
        proof {
            assert(out@ =~= old(out)@ + frac2_digits(frac as nat));
        }
    }
}

/// Appends a byte slice to `out`.
fn push_bytes(out: &mut Vec<u8>, bytes: &[u8])
    ensures
        final(out)@ == old(out)@ + bytes@,
{
    let n = bytes.len();
    let mut i: usize = 0;
    while i < n
        invariant
            n == bytes@.len(),
            0 <= i <= n,
            out@ == old(out)@ + bytes@.take(i as int),
        decreases n - i,
    {
        out.push(bytes[i]);
        proof {
            assert(old(out)@ + bytes@.take(i + 1) =~= (old(out)@ + bytes@.take(i as int)).push(
                bytes@[i as int],
            ));
        }
        i = i + 1;
    }
    proof {
        assert(bytes@.take(n as int) =~= bytes@);
    }
}

/// Appends a direction's journal text to `out`.
fn push_direction(out: &mut Vec<u8>, direction: Direction)
    ensures
        final(out)@ == old(out)@ + direction_bytes(direction),
{
    match direction {
        Direction::Up => {
            out.push(85);
            out.push(80);
        },
        Direction::Down => {
            out.push(68);
            out.push(79);
            out.push(87);
            out.push(78);
        },
        Direction::Neutral => {
            out.push(78);
            out.push(69);
            out.push(85);
            out.push(84);
            out.push(82);
            out.push(65);
            out.push(76);
        },
    }
    proof {
        assert(out@ =~= old(out)@ + direction_bytes(direction));
    }
}

/// Appends the whale-status journal text to `out`.
fn push_whale(out: &mut Vec<u8>, confirmed: bool)
    ensures
        final(out)@ == old(out)@ + whale_bytes(confirmed),
{
    if confirmed {
        out.push(67);
        out.push(79);
        out.push(78);
        out.push(70);
        out.push(73);
        out.push(82);
        out.push(77);
        out.push(69);
        out.push(68);
    } else {
        out.push(85);
        out.push(78);
        out.push(67);
        out.push(79);
        out.push(78);
        out.push(70);
        out.push(73);
        out.push(82);
        out.push(77);
        out.push(69);
        out.push(68);
    }
    proof {
        assert(out@ =~= old(out)@ + whale_bytes(confirmed));
    }
}

/// Writes journal lines for fired or warned signals.
pub struct TradeLogger;

impl TradeLogger {
    /// Renders one journal record: timestamp, direction, confidence as a
    /// percentage with two decimal places, price with five decimal places,
    /// and whale status, comma-separated and newline-terminated.
    ///
    /// The timestamp is whatever clock text the caller supplies; appending
    /// the returned bytes to the journal file is also the caller's job.
    pub fn journal_record(
        timestamp: &str,
        direction: Direction,
        confidence: u64,
        price: u64,
        whale_confirmed: bool,
    ) -> (r: Vec<u8>)
        requires
            confidence <= CONFIDENCE_MAX,
            price <= PRICE_MAX,
        ensures
            r@ == journal_line(
                timestamp.spec_bytes(),
                direction,
                confidence as nat,
                price as nat,
                whale_confirmed,
            ),
    {
        let mut out: Vec<u8> = Vec::new();
        push_bytes(&mut out, timestamp.as_bytes());
        out.push(44);
        let ghost seg1 = out@;
        proof {
            assert(seg1 =~= timestamp.spec_bytes() + seq![44u8]);
        }
        push_direction(&mut out, direction);
        out.push(44);
        let ghost seg2 = out@;
        proof {
            assert(seg2 =~= seg1 + direction_bytes(direction) + seq![44u8]);
        }
        push_decimal(&mut out, confidence / SCALE);
        out.push(46);
        push_frac(&mut out, confidence % SCALE, 2);
        out.push(37);
        out.push(44);
        let ghost seg3 = out@;
        proof {
            assert(seg3 =~= seg2 + fixed2_bytes(confidence as nat) + seq![37u8, 44u8]);
        }
        push_decimal(&mut out, price / SCALE);
        out.push(46);
        push_frac(&mut out, price % SCALE, 5);
        out.push(44);
        let ghost seg4 = out@;
        proof {
            assert(seg4 =~= seg3 + fixed5_bytes(price as nat) + seq![44u8]);
        }
        push_whale(&mut out, whale_confirmed);
        out.push(10);
        proof {
            assert(out@ =~= seg4 + whale_bytes(whale_confirmed) + seq![10u8]);
            assert(out@ =~= journal_line(
                timestamp.spec_bytes(),
                direction,
                confidence as nat,
                price as nat,
                whale_confirmed,
            ));
        }
        out
    }
}


} // verus!
