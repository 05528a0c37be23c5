//! Fixed-point representation of market quantities.
//!
//! Prices, volumes, currency amounts and percentages are all decimal
//! numbers with at most five fractional digits, so the library stores each
//! one as an integer number of hundred-thousandths: the value `1.0` is the
//! integer `100_000`. All arithmetic on these integers is exact and is
//! verified free of overflow under the stated bounds.

use vstd::arithmetic::div_mod::{lemma_div_is_ordered, lemma_div_multiples_vanish};
use vstd::arithmetic::mul::{lemma_mul_inequality, lemma_mul_is_commutative, lemma_mul_nonnegative};
use vstd::prelude::*;
use vstd::string::StringSliceAdditionalSpecFns;

verus! {

/// Number of fixed-point units in `1.0`: five decimal places.
pub const SCALE: u64 = 100_000;

/// Largest price the library accepts, in fixed-point units
/// (one hundred million, as a plain number).
pub const PRICE_MAX: u64 = 10_000_000_000_000;

/// Largest per-tick volume the library accepts, in fixed-point units
/// (one million, as a plain number).
pub const VOLUME_MAX: u64 = 100_000_000_000;

/// An ASCII decimal digit.
pub open spec fn is_ascii_digit(b: u8) -> bool {
    48 <= b <= 57
}

/// Whether every byte of `s` is an ASCII decimal digit.
pub open spec fn all_digits(s: Seq<u8>) -> bool {
    forall|i: int| 0 <= i < s.len() ==> is_ascii_digit(#[trigger] s[i])
}

/// Numeric value of a digit string, most significant digit first.
pub open spec fn digits_value(s: Seq<u8>) -> int
    decreases s.len(),
{
    if s.len() == 0 {
        0
    } else {
        digits_value(s.drop_last()) * 10 + (s.last() - 48)
    }
}

/// Index of the first `.` in `s`, or `s.len()` when there is none.
pub open spec fn first_dot(s: Seq<u8>) -> int
    decreases s.len(),
{
    if s.len() == 0 {
        0
    } else if s[0] == 46 {
        0
    } else {
        1 + first_dot(s.drop_first())
    }
}

/// Fixed-point units contributed by a fraction-digit string: the first
/// five digits scaled into place; digits beyond the fifth are truncated.
pub open spec fn frac_units(s: Seq<u8>) -> int {
    if s.len() >= 5 {
        digits_value(s.take(5))
    } else if s.len() == 4 {
        digits_value(s) * 10
    } else if s.len() == 3 {
        digits_value(s) * 100
    } else if s.len() == 2 {
        digits_value(s) * 1_000
    } else {
        digits_value(s) * 10_000
    }
}

/// The fixed-point value a decimal byte string denotes, or nothing when
/// the string is malformed or out of range.
///
/// A well-formed string is one or more digits, optionally followed by a
/// dot and one or more further digits; its value must not exceed
/// [`PRICE_MAX`]. Fraction digits beyond the fifth are truncated.
pub open spec fn decimal_of(s: Seq<u8>) -> Option<int> {
    let d = first_dot(s);
    if d == s.len() {
        if s.len() > 0 && all_digits(s) && digits_value(s) * SCALE <= PRICE_MAX {
            Some(digits_value(s) * SCALE)
        } else {
            None
        }
    } else {
        let ip = s.take(d);
        let fp = s.skip(d + 1);
        if ip.len() > 0 && fp.len() > 0 && all_digits(ip) && all_digits(fp) && digits_value(ip)
            * SCALE + frac_units(fp) <= PRICE_MAX {
            Some(digits_value(ip) * SCALE + frac_units(fp))
        } else {
            None
        }
    }
}

/// The first dot really is where the scan that found no earlier dot says.
proof fn lemma_first_dot_at(s: Seq<u8>, d: int)
    requires
        0 <= d <= s.len(),
        forall|j: int| 0 <= j < d ==> s[j] != 46,
        d < s.len() ==> s[d] == 46,
    ensures
        first_dot(s) == d,
    decreases s.len(),
{
    if s.len() > 0 && d > 0 {
        lemma_first_dot_at(s.drop_first(), d - 1);
    }
}

/// A digit string's value is non-negative and below ten to its length
/// (stated up to the five digits the parser accumulates).
proof fn lemma_digits_value_bounds(s: Seq<u8>)
    requires
        all_digits(s),
    ensures
        0 <= digits_value(s),
        s.len() == 0 ==> digits_value(s) == 0,
        s.len() <= 1 ==> digits_value(s) < 10,
        s.len() <= 2 ==> digits_value(s) < 100,
        s.len() <= 3 ==> digits_value(s) < 1_000,
        s.len() <= 4 ==> digits_value(s) < 10_000,
        s.len() <= 5 ==> digits_value(s) < 100_000,
    decreases s.len(),
{
    if s.len() > 0 {
        assert(all_digits(s.drop_last())) by {
            assert(forall|i: int|
                0 <= i < s.len() - 1 ==> s.drop_last()[i] == #[trigger] s[i]);
        }
        lemma_digits_value_bounds(s.drop_last());
    }
}

/// Extending a digit string never shrinks its value.
proof fn lemma_digits_prefix_le(s: Seq<u8>, i: int)
    requires
        all_digits(s),
        0 <= i <= s.len(),
    ensures
        digits_value(s.take(i)) <= digits_value(s),
    decreases s.len() - i,
{
    if i < s.len() {
        lemma_digits_prefix_le(s, i + 1);
        assert(s.take(i + 1).drop_last() =~= s.take(i));
        assert(s.take(i + 1).last() == s[i]);
        assert(digits_value(s.take(i + 1)) == digits_value(s.take(i)) * 10 + (s[i] - 48));
        assert(all_digits(s.take(i))) by {
            assert(forall|j: int| 0 <= j < i ==> s.take(i)[j] == #[trigger] s[j]);
        }
        lemma_digits_value_bounds(s.take(i));
        assert(digits_value(s.take(i)) <= digits_value(s.take(i)) * 10 + (s[i] - 48));
    } else {
        assert(s.take(i) =~= s);
    }
}

/// Parses a decimal price string into fixed-point units.
///
/// Accepts one or more digits, optionally followed by a dot and one or
/// more further digits, up to [`PRICE_MAX`]; fraction digits beyond the
/// fifth are truncated. Returns nothing for malformed or out-of-range
/// text: the caller drops such a record and carries on.
pub fn parse_price(s: &str) -> (r: Option<u64>)
    ensures
        r is Some <==> decimal_of(s.spec_bytes()) is Some,
        r is Some ==> r->0 == decimal_of(s.spec_bytes())->0,
{
    let bytes = s.as_bytes();
    let ghost sq = s.spec_bytes();
    let n = bytes.len();

    // Find the first dot.
    let mut d: usize = 0;
    while d < n && bytes[d] != 46
        invariant
            sq == s.spec_bytes(),
            sq == bytes@,
            n == sq.len(),
            0 <= d <= n,
            forall|j: int| 0 <= j < d ==> sq[j] != 46,
        decreases n - d,
    {
        d = d + 1;
    }
    proof {
        lemma_first_dot_at(sq, d as int);
    }
    if d == 0 {
        // Empty string, or a leading dot: no integer part.
        proof {
            assert(sq.take(0).len() == 0);
        }
        return None;
    }

    // Integer part.
    let mut value: u64 = 0;
    let mut i: usize = 0;
    while i < d
        invariant
            sq == s.spec_bytes(),
            sq == bytes@,
            n == sq.len(),
            0 < d <= n,
            first_dot(sq) == d,
            0 <= i <= d,
            value == digits_value(sq.take(i as int)),
            value * SCALE <= PRICE_MAX,
            all_digits(sq.take(i as int)),
        decreases d - i,
    {
        let b = bytes[i];
        if b < 48 || b > 57 {
            proof {
                lemma_not_all_digits(sq, d as int, i as int);
            }
            return None;
        }
        proof {
            assert(sq.take(i + 1).drop_last() =~= sq.take(i as int));
            assert(all_digits(sq.take(i + 1))) by {
                assert(forall|j: int|
                    0 <= j < i + 1 ==> sq.take(i + 1)[j] == #[trigger] sq[j]);
            }
        }
        value = value * 10 + (b - 48) as u64;
        if value > PRICE_MAX / SCALE {
            proof {
                lemma_too_large(sq, d as int, i + 1, value as int);
            }
            return None;
        }
        i = i + 1;
    }
    let ghost ip = sq.take(d as int);

    if d == n {
        // No dot: the integer part is the whole string.
        proof {
            assert(ip =~= sq);
        }
        return Some(value * SCALE);
    }

    // Fraction part, after the dot.
    let flen = n - d - 1;
    let ghost fp = sq.skip(d as int + 1);
    if flen == 0 {
        return None;
    }
    let mut fv: u64 = 0;
    let mut k: usize = 0;
    while k < flen
        invariant
            sq == s.spec_bytes(),
            sq == bytes@,
            n == sq.len(),
            0 < d < n,
            flen == n - d - 1,
            first_dot(sq) == d,
            fp == sq.skip(d as int + 1),
            0 <= k <= flen,
            fv == digits_value(fp.take(if k < 5 { k as int } else { 5 })),
            k == 0 ==> fv == 0,
            k <= 1 ==> fv <= 9,
            k <= 2 ==> fv <= 99,
            k <= 3 ==> fv <= 999,
            k <= 4 ==> fv <= 9_999,
            fv <= 99_999,
            all_digits(fp.take(k as int)),
        decreases flen - k,
    {
        let b = bytes[d + 1 + k];
        proof {
            assert(fp[k as int] == sq[d + 1 + k as int]);
        }
        if b < 48 || b > 57 {
            proof {
                lemma_fraction_not_digits(fp, k as int);
            }
            return None;
        }
        proof {
            assert(fp.take(k + 1).drop_last() =~= fp.take(k as int));
            assert(all_digits(fp.take(k + 1))) by {
                assert(forall|j: int|
                    0 <= j < k + 1 ==> fp.take(k + 1)[j] == #[trigger] fp[j]);
            }
        }
        if k < 5 {
            fv = fv * 10 + (b - 48) as u64;
        }
        k = k + 1;
    }
    proof {
        assert(fp.take(flen as int) =~= fp);
        if flen < 5 {
            assert(fp.take(if (flen as int) < 5 { flen as int } else { 5 }) =~= fp);
        }
    }
    let frac: u64 = if flen >= 5 {
        fv
    } else if flen == 4 {
        fv * 10
    } else if flen == 3 {
        fv * 100
    } else if flen == 2 {
        fv * 1_000
    } else {
        fv * 10_000
    };
    let total = value * SCALE + frac;
    if total > PRICE_MAX {
        return None;
    }
    Some(total)
}

/// A string whose scanned prefix holds a non-digit has no all-digit prefix
/// of any longer length.
proof fn lemma_not_all_digits(s: Seq<u8>, d: int, i: int)
    requires
        0 <= i < d <= s.len(),
        !is_ascii_digit(s[i]),
    ensures
        !all_digits(s.take(d)),
        d == s.len() ==> !all_digits(s),
{
    assert(s.take(d)[i] == s[i]);
}

/// A fraction-digit string contributes a non-negative number of units.
proof fn lemma_frac_units_nonneg(fp: Seq<u8>)
    requires
        all_digits(fp),
    ensures
        frac_units(fp) >= 0,
{
    if fp.len() >= 5 {
        assert(all_digits(fp.take(5))) by {
            assert(forall|j: int| 0 <= j < 5 ==> fp.take(5)[j] == #[trigger] fp[j]);
        }
        lemma_digits_value_bounds(fp.take(5));
    } else {
        lemma_digits_value_bounds(fp);
    }
}

/// Once the accumulated integer part exceeds the price range, the whole
/// string is out of range or malformed.
proof fn lemma_too_large(s: Seq<u8>, d: int, i: int, value: int)
    requires
        0 < i <= d <= s.len(),
        value == digits_value(s.take(i)),
        all_digits(s.take(i)),
        value * SCALE > PRICE_MAX,
    ensures
        all_digits(s.take(d)) ==> digits_value(s.take(d)) * SCALE > PRICE_MAX,
        d == s.len() && all_digits(s) ==> digits_value(s) * SCALE > PRICE_MAX,
        d < s.len() && all_digits(s.take(d)) && all_digits(s.skip(d + 1)) ==> digits_value(
            s.take(d),
        ) * SCALE + frac_units(s.skip(d + 1)) > PRICE_MAX,
{
    if d < s.len() && all_digits(s.skip(d + 1)) {
        lemma_frac_units_nonneg(s.skip(d + 1));
    }
    if all_digits(s.take(d)) {
        assert(s.take(d).take(i) =~= s.take(i));
        lemma_digits_prefix_le(s.take(d), i);
        lemma_mul_inequality(value, digits_value(s.take(d)), SCALE as int);
        lemma_mul_is_commutative(value, SCALE as int);
        lemma_mul_is_commutative(digits_value(s.take(d)), SCALE as int);
        if d == s.len() {
            assert(s.take(d) =~= s);
        }
    } else {
        if d == s.len() {
            assert(s.take(d) =~= s);
        }
    }
}

/// A fraction whose scanned prefix holds a non-digit is not all digits.
proof fn lemma_fraction_not_digits(fp: Seq<u8>, k: int)
    requires
        0 <= k < fp.len(),
        !is_ascii_digit(fp[k]),
    ensures
        !all_digits(fp),
{
}

/// Taking a fraction `num / den` of a non-negative value, with truncating
/// division, never leaves the range `[0, v]`.
pub proof fn lemma_fraction_le(v: int, num: int, den: int)
    requires
        0 <= v,
        0 <= num <= den,
        0 < den,
    ensures
        0 <= v * num / den <= v,
{
    lemma_mul_nonnegative(v, num);
    vstd::arithmetic::div_mod::lemma_div_pos_is_pos(v * num, den);
    lemma_mul_inequality(num, den, v);
    lemma_mul_is_commutative(v, num);
    lemma_mul_is_commutative(den, v);
    lemma_div_is_ordered(v * num, v * den, den);
    lemma_div_multiples_vanish(v, den);
}

} // verus!
