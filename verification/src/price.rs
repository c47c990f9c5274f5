//! Ticker price decoding.
//!
//! The price cache hands prices back as decimal strings — digits with at
//! most one dot and at most eight fractional places.  Decoding one into the
//! fixed-point representation is part of the rate computation, so it is
//! specified over the string's bytes and verified here.

use vstd::prelude::*;
use vstd::string::StringSliceAdditionalSpecFns;
use crate::dec::{pow10, Dec, DEC_DP, DEC_UNIT, MAX_UNITS};

verus! {

/// ASCII digit.
pub open spec fn is_digit(b: u8) -> bool {
    48 <= b <= 57
}

pub open spec fn all_digits(bs: Seq<u8>) -> bool {
    forall|i: int| 0 <= i < bs.len() ==> is_digit(#[trigger] bs[i])
}

/// Value of a run of ASCII digits, most significant first.
pub open spec fn digits_val(bs: Seq<u8>) -> int
    decreases bs.len(),
{
    if bs.len() == 0 {
        0
    } else {
        digits_val(bs.drop_last()) * 10 + (bs.last() - 48)
    }
}

/// First position of `b` at or after `i`.
pub open spec fn find_byte(bs: Seq<u8>, b: u8, i: int) -> Option<int>
    decreases bs.len() - i,
{
    if i < 0 || i >= bs.len() {
        None
    } else if bs[i] == b {
        Some(i)
    } else {
        find_byte(bs, b, i + 1)
    }
}

/// The dot that splits a price string, if any: byte 46.
pub open spec fn dot_pos(bs: Seq<u8>) -> Option<int> {
    find_byte(bs, 46, 0)
}

/// A well-formed price string: digits around at most one dot, at least one
/// character beside the dot, and no more fractional places than the fixed
/// scale carries.
pub open spec fn valid_price_bytes(bs: Seq<u8>) -> bool {
    match dot_pos(bs) {
        None => bs.len() >= 1 && all_digits(bs),
        Some(p) => {
            &&& bs.len() >= 2
            &&& all_digits(bs.subrange(0, p))
            &&& all_digits(bs.subrange(p + 1, bs.len() as int))
            &&& bs.len() - p - 1 <= DEC_DP
        },
    }
}

/// The value of a well-formed price string, in units.
pub open spec fn price_units(bs: Seq<u8>) -> int {
    match dot_pos(bs) {
        None => digits_val(bs) * DEC_UNIT,
        Some(p) => {
            let frac = bs.subrange(p + 1, bs.len() as int);
            digits_val(bs.subrange(0, p)) * DEC_UNIT + digits_val(frac) * pow10(
                (DEC_DP - frac.len()) as nat,
            )
        },
    }
}

proof fn lemma_digits_val_nonneg(bs: Seq<u8>)
    requires
        all_digits(bs),
    ensures
        digits_val(bs) >= 0,
    decreases bs.len(),
{
    if bs.len() > 0 {
        assert(forall|i: int| 0 <= i < bs.len() - 1 ==> is_digit(#[trigger] bs.drop_last()[i]));
        lemma_digits_val_nonneg(bs.drop_last());
        vstd::arithmetic::mul::lemma_mul_nonnegative(digits_val(bs.drop_last()), 10);
    }
}

/// A digit run's value is under 10^length.
proof fn lemma_digits_val_upper(bs: Seq<u8>)
    requires
        all_digits(bs),
    ensures
        digits_val(bs) < pow10(bs.len() as nat),
    decreases bs.len(),
{
    if bs.len() > 0 {
        assert(forall|i: int| 0 <= i < bs.len() - 1 ==> is_digit(#[trigger] bs.drop_last()[i]));
        lemma_digits_val_upper(bs.drop_last());
        let v = digits_val(bs.drop_last());
        assert(v * 10 + 9 < pow10((bs.len() - 1) as nat) * 10) by (nonlinear_arith)
            requires
                v < pow10((bs.len() - 1) as nat),
        ;
        assert(pow10(bs.len() as nat) == 10 * pow10((bs.len() - 1) as nat));
    }
}

/// Extending a digit run never shrinks its value.
proof fn lemma_digits_prefix_le(bs: Seq<u8>, j: int)
    requires
        all_digits(bs),
        0 <= j <= bs.len(),
    ensures
        digits_val(bs.subrange(0, j)) <= digits_val(bs),
    decreases bs.len() - j,
{
    assert(forall|i: int| 0 <= i < j ==> is_digit(#[trigger] bs.subrange(0, j)[i]));
    if j == bs.len() {
        assert(bs.subrange(0, j) =~= bs);
    } else {
        let a = bs.subrange(0, j);
        let b = bs.subrange(0, j + 1);
        assert(b.drop_last() =~= a);
        lemma_digits_val_nonneg(a);
        assert(digits_val(a) <= digits_val(a) * 10 + (b.last() - 48)) by (nonlinear_arith)
            requires
                digits_val(a) >= 0,
                48 <= b.last() <= 57,
        ;
        lemma_digits_prefix_le(bs, j + 1);
    }
}

/// Digits of `bs` in `[from, to)`, capped: the value if it stays at or
/// under `cap` and every byte is a digit.
fn parse_digits(bs: &[u8], from: usize, to: usize, cap: i128) -> (r: Option<i128>)
    requires
        from <= to <= bs@.len(),
        0 < cap <= MAX_UNITS,
    ensures
        r matches Some(v) ==> all_digits(bs@.subrange(from as int, to as int)) && v == digits_val(
            bs@.subrange(from as int, to as int),
        ) && 0 <= v <= cap,
        r is None ==> !(all_digits(bs@.subrange(from as int, to as int)) && digits_val(
            bs@.subrange(from as int, to as int),
        ) <= cap),
{
    let ghost whole = bs@.subrange(from as int, to as int);
    let mut acc: i128 = 0;
    let mut i: usize = from;
    proof {
        assert(bs@.subrange(from as int, from as int) =~= Seq::<u8>::empty());
    }
    while i < to
        invariant
            from <= i <= to <= bs@.len(),
            0 < cap <= MAX_UNITS,
            whole == bs@.subrange(from as int, to as int),
            all_digits(bs@.subrange(from as int, i as int)),
            acc == digits_val(bs@.subrange(from as int, i as int)),
            0 <= acc <= cap,
        decreases to - i,
    {
        let c = bs[i];
        proof {
            assert(bs@.subrange(from as int, i + 1).drop_last() =~= bs@.subrange(
                from as int,
                i as int,
            ));
            assert(bs@.subrange(from as int, i + 1).last() == bs@[i as int]);
        }
        if c < 48 || c > 57 {
            proof {
                assert(whole[i - from] == bs@[i as int]);
            }
            return None;
        }
        let next: i128 = acc * 10 + ((c - 48) as i128);
        if next > cap {
            proof {
                // The value only grows with more digits, so the whole run
                // is over the cap too.
                if all_digits(whole) {
                    lemma_digits_prefix_le(whole, i + 1 - from);
                    assert(bs@.subrange(from as int, i + 1) =~= whole.subrange(0, i + 1 - from));
                }
            }
            return None;
        }
        acc = next;
        i = i + 1;
    }
    proof {
        assert(bs@.subrange(from as int, i as int) =~= whole);
    }
    Some(acc)
}

/// Decode a decimal price string to fixed point.  The result exists exactly
/// when the string is well formed and its value fits the numeric envelope,
/// and is then the exact value.
pub fn parse_price(s: &str) -> (r: Option<Dec>)
    ensures
        r matches Some(d) ==> {
            &&& valid_price_bytes(s.spec_bytes())
            &&& d@ == price_units(s.spec_bytes())
            &&& 0 <= d@ <= MAX_UNITS
        },
        r is None ==> !(valid_price_bytes(s.spec_bytes()) && price_units(s.spec_bytes())
            <= MAX_UNITS),
{
    let bs = s.as_bytes();
    let n = bs.len();
    // First dot, if any.
    let mut i: usize = 0;
    while i < n && bs[i] != 46
        invariant
            i <= n == bs@.len(),
            find_byte(bs@, 46, 0) == find_byte(bs@, 46, i as int),
        decreases n - i,
    {
        i = i + 1;
    }
    let dot: Option<usize> = if i < n {
        Some(i)
    } else {
        None
    };
    match dot {
        None => {
            if n == 0 {
                return None;
            }
            let v = match parse_digits(bs, 0, n, MAX_UNITS) {
                Some(v) => v,
                None => {
                    proof {
                        assert(bs@.subrange(0, n as int) =~= bs@);
                        lemma_whole_over_cap(bs@);
                    }
                    return None;
                },
            };
            proof {
                assert(bs@.subrange(0, n as int) =~= bs@);
                assert(v * DEC_UNIT <= MAX_UNITS * DEC_UNIT && 0 <= v * DEC_UNIT) by (
                nonlinear_arith)
                    requires
                        0 <= v <= MAX_UNITS,
                ;
            }
            let units: i128 = v * DEC_UNIT;
            if units > MAX_UNITS {
                return None;
            }
            Some(Dec::from_units(units))
        },
        Some(p) => {
            if n < 2 {
                return None;
            }
            let frac_len = n - p - 1;
            if frac_len > (DEC_DP as usize) {
                return None;
            }
            let int_val = match parse_digits(bs, 0, p, MAX_UNITS) {
                Some(v) => v,
                None => {
                    proof {
                        lemma_int_part_over_cap(bs@, p as int);
                    }
                    return None;
                },
            };
            let frac_val = match parse_digits(bs, p + 1, n, MAX_UNITS) {
                Some(v) => v,
                None => {
                    proof {
                        lemma_frac_under_cap(bs@, p as int);
                    }
                    return None;
                },
            };
            let scale: i128 = crate::dec::pow10_units(DEC_DP - (frac_len as u32));
            proof {
                assert(int_val * DEC_UNIT <= MAX_UNITS * DEC_UNIT && 0 <= int_val * DEC_UNIT) by (
                nonlinear_arith)
                    requires
                        0 <= int_val <= MAX_UNITS,
                ;
                assert(0 <= frac_val * scale <= MAX_UNITS * DEC_UNIT) by (nonlinear_arith)
                    requires
                        0 <= frac_val <= MAX_UNITS,
                        1 <= scale <= DEC_UNIT,
                ;
            }
            let units: i128 = int_val * DEC_UNIT + frac_val * scale;
            if units > MAX_UNITS {
                return None;
            }
            Some(Dec::from_units(units))
        },
    }
}

/// An over-cap undotted run puts the whole price over the envelope.
proof fn lemma_whole_over_cap(bs: Seq<u8>)
    requires
        dot_pos(bs) is None,
        all_digits(bs) ==> digits_val(bs) > MAX_UNITS,
    ensures
        !(valid_price_bytes(bs) && price_units(bs) <= MAX_UNITS),
{
    if valid_price_bytes(bs) {
        assert(digits_val(bs) * DEC_UNIT > MAX_UNITS) by (nonlinear_arith)
            requires
                digits_val(bs) > MAX_UNITS,
        ;
    }
}

/// An over-cap whole part puts the whole price over the envelope.
proof fn lemma_int_part_over_cap(bs: Seq<u8>, p: int)
    requires
        dot_pos(bs) == Some(p),
        0 <= p < bs.len(),
        all_digits(bs.subrange(0, p)) ==> digits_val(bs.subrange(0, p)) > MAX_UNITS,
    ensures
        !(valid_price_bytes(bs) && price_units(bs) <= MAX_UNITS),
{
    if valid_price_bytes(bs) {
        let frac = bs.subrange(p + 1, bs.len() as int);
        lemma_digits_val_nonneg(frac);
        crate::dec::lemma_pow10_pos((DEC_DP - frac.len()) as nat);
        assert(digits_val(bs.subrange(0, p)) * DEC_UNIT > MAX_UNITS) by (nonlinear_arith)
            requires
                digits_val(bs.subrange(0, p)) > MAX_UNITS,
        ;
        assert(digits_val(frac) * pow10((DEC_DP - frac.len()) as nat) >= 0) by (nonlinear_arith)
            requires
                digits_val(frac) >= 0,
                pow10((DEC_DP - frac.len()) as nat) >= 1,
        ;
    }
}

/// A fractional part of at most eight digits can never be over the cap, so
/// a failed fractional parse means a bad digit.
proof fn lemma_frac_under_cap(bs: Seq<u8>, p: int)
    requires
        dot_pos(bs) == Some(p),
        0 <= p < bs.len(),
        bs.len() - p - 1 <= DEC_DP,
        !(all_digits(bs.subrange(p + 1, bs.len() as int)) && digits_val(
            bs.subrange(p + 1, bs.len() as int),
        ) <= MAX_UNITS),
    ensures
        !valid_price_bytes(bs),
{
    let frac = bs.subrange(p + 1, bs.len() as int);
    if all_digits(frac) {
        lemma_digits_val_upper(frac);
        crate::dec::lemma_pow10_add(frac.len() as nat, (DEC_DP - frac.len()) as nat);
        crate::dec::lemma_pow10_pos((DEC_DP - frac.len()) as nat);
        assert(pow10(frac.len() as nat) <= pow10(DEC_DP as nat)) by (nonlinear_arith)
            requires
                pow10(DEC_DP as nat) == pow10(frac.len() as nat) * pow10(
                    (DEC_DP - frac.len()) as nat,
                ),
                pow10(frac.len() as nat) >= 1,
                pow10((DEC_DP - frac.len()) as nat) >= 1,
        ;
        assert(pow10(DEC_DP as nat) == DEC_UNIT) by {
            reveal_with_fuel(pow10, 9);
        }
    }
}

} // verus!
