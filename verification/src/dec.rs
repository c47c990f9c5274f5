//! Fixed-point decimal arithmetic.
//!
//! Every price, amount, fee and rate in the engine is a `Dec`: an `i128`
//! count of units of 10^-8.  All quotients truncate toward zero, which is the
//! rounding the engine's truncation rules call for.

use vstd::prelude::*;
use vstd::arithmetic::div_mod::{
    lemma_div_denominator, lemma_div_is_ordered, lemma_div_is_ordered_by_denominator,
    lemma_div_multiples_vanish, lemma_div_nonincreasing, lemma_div_pos_is_pos,
    lemma_fundamental_div_mod,
};

verus! {

/// Decimal digits carried by the representation.
pub const DEC_DP: u32 = 8;

/// Units in 1.0, that is 10^DEC_DP.
pub const DEC_UNIT: i128 = 100_000_000;

/// Envelope, in units, within which the engine's inputs must stay so that
/// every intermediate product of two values still fits in `i128`.
pub const MAX_UNITS: i128 = 1_000_000_000_000_000_000;

/// 10^n.
pub open spec fn pow10(n: nat) -> int
    decreases n,
{
    if n == 0 {
        1
    } else {
        10 * pow10((n - 1) as nat)
    }
}

pub proof fn lemma_pow10_pos(n: nat)
    ensures
        pow10(n) >= 1,
    decreases n,
{
    if n > 0 {
        lemma_pow10_pos((n - 1) as nat);
    }
}

/// Division truncating toward zero (spec `/` on `int` is Euclidean, which
/// differs on negative dividends).
pub open spec fn div_tz(a: int, b: int) -> int
    recommends
        b > 0,
{
    if a >= 0 {
        a / b
    } else {
        -((-a) / b)
    }
}

/// Ceiling division of a nonnegative dividend by a positive divisor.
pub open spec fn ceil_div(a: int, b: int) -> int
    recommends
        a >= 0,
        b > 0,
{
    if a % b == 0 {
        a / b
    } else {
        a / b + 1
    }
}

/// `x` (in units) truncated toward zero to `dp` decimal places.
pub open spec fn trunc_to(x: int, dp: nat) -> int
    recommends
        dp <= DEC_DP,
{
    div_tz(x, pow10((DEC_DP - dp) as nat)) * pow10((DEC_DP - dp) as nat)
}

/// Truncation toward zero never grows the magnitude and keeps the sign.
pub proof fn lemma_div_tz_bounds(a: int, b: int)
    requires
        b > 0,
    ensures
        a >= 0 ==> 0 <= div_tz(a, b) <= a,
        a < 0 ==> a <= div_tz(a, b) <= 0,
{
    if a >= 0 {
        lemma_div_pos_is_pos(a, b);
        lemma_div_nonincreasing(a, b);
    } else {
        lemma_div_pos_is_pos(-a, b);
        lemma_div_nonincreasing(-a, b);
    }
}

/// `trunc_to` never grows the magnitude.
pub proof fn lemma_trunc_to_bounds(x: int, dp: nat)
    requires
        dp <= DEC_DP,
    ensures
        x >= 0 ==> 0 <= trunc_to(x, dp) <= x,
        x < 0 ==> x <= trunc_to(x, dp) <= 0,
{
    let p = pow10((DEC_DP - dp) as nat);
    lemma_pow10_pos((DEC_DP - dp) as nat);
    if x >= 0 {
        lemma_fundamental_div_mod(x, p);
        lemma_div_pos_is_pos(x, p);
        vstd::arithmetic::mul::lemma_mul_nonnegative(x / p, p);
        assert(trunc_to(x, dp) == x - x % p);
    } else {
        lemma_fundamental_div_mod(-x, p);
        lemma_div_pos_is_pos(-x, p);
        vstd::arithmetic::mul::lemma_mul_nonnegative((-x) / p, p);
        assert((-x) / p * p == -x - (-x) % p);
        assert(trunc_to(x, dp) == -((-x) / p * p)) by {
            vstd::arithmetic::mul::lemma_mul_unary_negation((-x) / p, p);
        }
    }
}

pub proof fn lemma_pow10_add(a: nat, b: nat)
    ensures
        pow10(a + b) == pow10(a) * pow10(b),
    decreases b,
{
    if b == 0 {
        assert(pow10(a) * 1 == pow10(a)) by (nonlinear_arith);
    } else {
        lemma_pow10_add(a, (b - 1) as nat);
        assert(pow10(a) * (10 * pow10((b - 1) as nat)) == 10 * (pow10(a) * pow10(
        (b - 1) as nat))) by (nonlinear_arith);
    }
}

/// Truncation commutes with negation.
pub proof fn lemma_trunc_to_neg(x: int, dp: nat)
    requires
        dp <= DEC_DP,
    ensures
        trunc_to(-x, dp) == -trunc_to(x, dp),
{
    let p = pow10((DEC_DP - dp) as nat);
    lemma_pow10_pos((DEC_DP - dp) as nat);
    if x == 0 {
        vstd::arithmetic::div_mod::lemma_div_of0(p);
        assert(trunc_to(0, dp) == 0 * p);
        assert(0 * p == 0) by (nonlinear_arith);
        assert(-0 == 0int);
        assert(trunc_to(-x, dp) == trunc_to(0, dp));
    } else {
        assert(div_tz(-x, p) == -div_tz(x, p));
        vstd::arithmetic::mul::lemma_mul_unary_negation(div_tz(x, p), p);
        assert((-div_tz(x, p)) * p == -(div_tz(x, p) * p));
        assert(trunc_to(-x, dp) == div_tz(-x, p) * p);
        assert(trunc_to(x, dp) == div_tz(x, p) * p);
    }
}

proof fn lemma_trunc_trunc_nonneg(x: int, fine: nat, coarse: nat)
    requires
        x >= 0,
        coarse <= fine <= DEC_DP,
    ensures
        trunc_to(trunc_to(x, fine), coarse) == trunc_to(x, coarse),
{
    let pf = pow10((DEC_DP - fine) as nat);
    let m = pow10((fine - coarse) as nat);
    let pc = pow10((DEC_DP - coarse) as nat);
    lemma_pow10_pos((DEC_DP - fine) as nat);
    lemma_pow10_pos((fine - coarse) as nat);
    lemma_pow10_pos((DEC_DP - coarse) as nat);
    lemma_pow10_add((DEC_DP - fine) as nat, (fine - coarse) as nat);
    assert(pc == pf * m);
    let q = x / pf;
    lemma_div_pos_is_pos(x, pf);
    vstd::arithmetic::mul::lemma_mul_nonnegative(q, pf);
    assert(trunc_to(x, fine) == q * pf);
    lemma_div_denominator(q * pf, pf, m);
    assert((q * pf) / pf == q) by {
        lemma_div_multiples_vanish(q, pf);
        vstd::arithmetic::mul::lemma_mul_is_commutative(q, pf);
    }
    lemma_div_denominator(x, pf, m);
    assert((q * pf) / pc == q / m);
    assert(x / pc == q / m);
}

/// Truncating to `fine` places and then to `coarse <= fine` places is
/// truncating to `coarse` directly.
pub proof fn lemma_trunc_trunc(x: int, fine: nat, coarse: nat)
    requires
        coarse <= fine <= DEC_DP,
    ensures
        trunc_to(trunc_to(x, fine), coarse) == trunc_to(x, coarse),
{
    if x >= 0 {
        lemma_trunc_trunc_nonneg(x, fine, coarse);
    } else {
        lemma_trunc_trunc_nonneg(-x, fine, coarse);
        lemma_trunc_to_neg(x, fine);
        lemma_trunc_to_neg(x, coarse);
        lemma_trunc_to_neg(-trunc_to(-x, fine), coarse);
        assert(trunc_to(trunc_to(x, fine), coarse) == trunc_to(-trunc_to(-x, fine), coarse));
    }
}

/// A fixed-point decimal: `units` counts multiples of 10^-8.
#[derive(Clone, Copy, Debug, PartialEq, Eq, Structural)]
pub struct Dec {
    pub units: i128,
}

impl View for Dec {
    type V = int;

    open spec fn view(&self) -> int {
        self.units as int
    }
}

/// Truncating division on raw units, computed through `u128` so that the
/// result is pinned to `div_tz` (machine signed division is not available to
/// the verifier).
pub fn div_units(a: i128, b: i128) -> (r: i128)
    requires
        b > 0,
        a > i128::MIN,
    ensures
        r == div_tz(a as int, b as int),
{
    if a >= 0 {
        let q: u128 = (a as u128) / (b as u128);
        proof {
            lemma_div_nonincreasing(a as int, b as int);
        }
        q as i128
    } else {
        let q: u128 = ((-a) as u128) / (b as u128);
        proof {
            lemma_div_nonincreasing(-a as int, b as int);
        }
        -(q as i128)
    }
}

impl Dec {
    /// Magnitude small enough that any product of two such values fits `i128`.
    pub open spec fn in_range(self) -> bool {
        -MAX_UNITS <= self@ <= MAX_UNITS
    }

    pub fn zero() -> (r: Dec)
        ensures
            r@ == 0,
    {
        Dec { units: 0 }
    }

    pub fn from_units(u: i128) -> (r: Dec)
        ensures
            r@ == u,
    {
        Dec { units: u }
    }

    /// The whole number `n` as a decimal.
    pub fn from_i64(n: i64) -> (r: Dec)
        ensures
            r@ == n * DEC_UNIT,
    {
        proof {
            assert((n as int) * (DEC_UNIT as int) <= i64::MAX * (DEC_UNIT as int) && (n as int) * (
            DEC_UNIT as int) >= i64::MIN * (DEC_UNIT as int)) by (nonlinear_arith)
                requires
                    i64::MIN <= n <= i64::MAX,
            ;
        }
        Dec { units: (n as i128) * DEC_UNIT }
    }

    pub fn add(self, o: Dec) -> (r: Dec)
        requires
            i128::MIN <= self@ + o@ <= i128::MAX,
        ensures
            r@ == self@ + o@,
    {
        Dec { units: self.units + o.units }
    }

    pub fn sub(self, o: Dec) -> (r: Dec)
        requires
            i128::MIN <= self@ - o@ <= i128::MAX,
        ensures
            r@ == self@ - o@,
    {
        Dec { units: self.units - o.units }
    }

    /// Product, truncated toward zero to the fixed scale.
    pub fn mul_trunc(self, o: Dec) -> (r: Dec)
        requires
            i128::MIN < self@ * o@ <= i128::MAX,
        ensures
            r@ == div_tz(self@ * o@, DEC_UNIT as int),
    {
        let p: i128 = self.units * o.units;
        Dec { units: div_units(p, DEC_UNIT) }
    }

    /// Quotient by a positive decimal, truncated toward zero at the fixed
    /// scale.
    pub fn div_trunc(self, o: Dec) -> (r: Dec)
        requires
            o@ > 0,
            i128::MIN < self@ * DEC_UNIT <= i128::MAX,
        ensures
            r@ == div_tz(self@ * DEC_UNIT, o@),
    {
        let n: i128 = self.units * DEC_UNIT;
        Dec { units: div_units(n, o.units) }
    }

    /// The value truncated toward zero to `dp` decimal places.
    pub fn trunc_dp(self, dp: u32) -> (r: Dec)
        requires
            dp <= DEC_DP,
            self@ > i128::MIN,
        ensures
            r@ == trunc_to(self@, dp as nat),
            self@ >= 0 ==> 0 <= r@ <= self@,
            self@ < 0 ==> self@ <= r@ <= 0,
    {
        let p: i128 = pow10_units(DEC_DP - dp);
        let q: i128 = div_units(self.units, p);
        proof {
            lemma_trunc_to_bounds(self@, dp as nat);
            vstd::arithmetic::mul::lemma_mul_is_commutative(q as int, p as int);
        }
        Dec { units: q * p }
    }

    pub fn le(&self, o: &Dec) -> (r: bool)
        ensures
            r == (self@ <= o@),
    {
        self.units <= o.units
    }

    pub fn lt(&self, o: &Dec) -> (r: bool)
        ensures
            r == (self@ < o@),
    {
        self.units < o.units
    }

    pub fn ge(&self, o: &Dec) -> (r: bool)
        ensures
            r == (self@ >= o@),
    {
        self.units >= o.units
    }

    pub fn is_zero(&self) -> (r: bool)
        ensures
            r == (self@ == 0),
    {
        self.units == 0
    }
}

/// 10^n as units, for exponents up to the fixed scale.
pub fn pow10_units(n: u32) -> (r: i128)
    requires
        n <= DEC_DP,
    ensures
        r == pow10(n as nat),
        1 <= r <= DEC_UNIT,
{
    let r: i128 = if n == 0 {
        1
    } else if n == 1 {
        10
    } else if n == 2 {
        100
    } else if n == 3 {
        1_000
    } else if n == 4 {
        10_000
    } else if n == 5 {
        100_000
    } else if n == 6 {
        1_000_000
    } else if n == 7 {
        10_000_000
    } else {
        100_000_000
    };
    proof {
        reveal_with_fuel(pow10, 9);
    }
    r
}

/// Number of whole contracts for the delivery-sell leg:
/// `ceil(amount * price / multiplier) - 1`, computed exactly on units.
/// The deliberate `- 1` keeps the order one contract under the naive
/// ceiling.
pub open spec fn spec_contract_count(amount: int, price: int, cmul: int) -> int
    recommends
        amount >= 0,
        price >= 0,
        cmul >= 1,
{
    ceil_div(amount * price, cmul * DEC_UNIT * DEC_UNIT) - 1
}

pub fn contract_count(amount: Dec, price: Dec, cmul: i64) -> (r: i128)
    requires
        cmul >= 1,
        0 <= amount@ <= MAX_UNITS,
        0 <= price@ <= MAX_UNITS,
    ensures
        r == spec_contract_count(amount@, price@, cmul as int),
        -1 <= r <= 100 * MAX_UNITS,
{
    proof {
        assert(amount@ * price@ <= MAX_UNITS * MAX_UNITS) by (nonlinear_arith)
            requires
                0 <= amount@ <= MAX_UNITS,
                0 <= price@ <= MAX_UNITS,
        ;
        assert(amount@ * price@ >= 0) by (nonlinear_arith)
            requires
                amount@ >= 0,
                price@ >= 0,
        ;
        assert((cmul as int) * (DEC_UNIT as int) * (DEC_UNIT as int) <= i64::MAX * (
        DEC_UNIT as int) * (DEC_UNIT as int)) by (nonlinear_arith)
            requires
                1 <= cmul <= i64::MAX,
        ;
        assert((cmul as int) * (DEC_UNIT as int) * (DEC_UNIT as int) >= DEC_UNIT * DEC_UNIT) by (
        nonlinear_arith)
            requires
                cmul >= 1,
        ;
    }
    let num: i128 = amount.units * price.units;
    let den: i128 = (cmul as i128) * DEC_UNIT * DEC_UNIT;
    let nu: u128 = num as u128;
    let de: u128 = den as u128;
    let q: u128 = nu / de;
    let rem: u128 = nu % de;
    proof {
        lemma_div_nonincreasing(num as int, den as int);
        // ceil(num / den) is at most num / (DEC_UNIT^2) + 1 <= MAX_UNITS.
        lemma_div_is_ordered_by_denominator(num as int, DEC_UNIT * DEC_UNIT, den as int);
        lemma_div_is_ordered(num as int, MAX_UNITS * MAX_UNITS, DEC_UNIT * DEC_UNIT);
        assert(MAX_UNITS * MAX_UNITS == (MAX_UNITS * 100) * ((DEC_UNIT * DEC_UNIT) as int)) by (
        nonlinear_arith);
        lemma_div_multiples_vanish(MAX_UNITS * 100, (DEC_UNIT * DEC_UNIT) as int);
    }
    let c: i128 = if rem == 0 {
        q as i128
    } else {
        (q as i128) + 1
    };
    c - 1
}

} // verus!
