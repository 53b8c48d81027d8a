//! Division of integers that rounds to the nearest whole number, with a tie
//! going away from zero.

use vstd::prelude::*;
use vstd::arithmetic::div_mod::{lemma_fundamental_div_mod, lemma_fundamental_div_mod_converse};

verus! {

/// The magnitude of an integer.
pub open spec fn magnitude(n: int) -> nat {
    if n >= 0 {
        n as nat
    } else {
        (-n) as nat
    }
}

/// `n / d` rounded to the nearest whole number; a quotient that lies exactly
/// halfway between two whole numbers goes to the one farther from zero.
pub open spec fn round_half_away(n: int, d: int) -> int
    recommends
        d > 0,
{
    if n >= 0 {
        (2 * n + d) / (2 * d)
    } else {
        -((2 * (-n) + d) / (2 * d))
    }
}

/// The rounded quotient is the whole number nearest to the exact quotient:
/// `q * d` lies within half of `d` of `n`, the quotient has the sign of `n`,
/// and where `n` lies exactly halfway the quotient is the one farther from
/// zero.
pub proof fn lemma_round_half_away_is_nearest(n: int, d: int)
    requires
        d > 0,
    ensures
        -d <= 2 * (n - round_half_away(n, d) * d) <= d,
        n >= 0 ==> round_half_away(n, d) >= 0,
        n <= 0 ==> round_half_away(n, d) <= 0,
        n >= 0 ==> 2 * (n - round_half_away(n, d) * d) < d,
        n <= 0 ==> 2 * (round_half_away(n, d) * d - n) < d,
{
    let m: int = if n >= 0 { n } else { -n };
    let k = (2 * m + d) / (2 * d);
    let r = (2 * m + d) % (2 * d);
    lemma_fundamental_div_mod(2 * m + d, 2 * d);
    assert((2 * d) * k == 2 * (k * d)) by (nonlinear_arith);
    assert(k >= 0 && (m == 0 ==> k == 0)) by (nonlinear_arith)
        requires
            2 * m + d == (2 * d) * k + r,
            0 <= r < 2 * d,
            m >= 0,
            d > 0,
    ;
    if n >= 0 {
        assert(round_half_away(n, d) == k);
        assert(m == 0 ==> k * d == 0) by (nonlinear_arith)
            requires
                m == 0 ==> k == 0,
        ;
    } else {
        assert(round_half_away(n, d) == -k);
        assert((-k) * d == -(k * d)) by (nonlinear_arith);
    }
}

/// The magnitude of a 64-bit integer; it is at most 2^63.
pub fn magnitude_of(x: i64) -> (m: u128)
    ensures
        m == magnitude(x as int),
        m <= 0x8000_0000_0000_0000,
{
    if x >= 0 {
        x as u128
    } else {
        (-(x + 1)) as u128 + 1
    }
}

/// `n / d` rounded to the nearest whole number, a tie going up.
pub fn round_div(n: u128, d: u128) -> (q: u128)
    requires
        d > 0,
    ensures
        q == round_half_away(n as int, d as int),
{
    let whole: u128 = n / d;
    let rest: u128 = n % d;
    proof {
        lemma_fundamental_div_mod(n as int, d as int);
        assert(d * whole >= whole) by (nonlinear_arith)
            requires
                d >= 1,
                whole >= 0,
        ;
        if rest >= d - rest {
            assert(2 * n + d == (whole + 1) * (2 * d) + (2 * rest - d)) by (nonlinear_arith)
                requires
                    n == d * whole + rest,
            ;
            lemma_fundamental_div_mod_converse(
                2 * n + d,
                2 * d,
                whole + 1,
                2 * rest - d,
            );
        } else {
            assert(2 * n + d == whole * (2 * d) + (2 * rest + d)) by (nonlinear_arith)
                requires
                    n == d * whole + rest,
            ;
            lemma_fundamental_div_mod_converse(2 * n + d, 2 * d, whole as int, 2 * rest + d);
        }
    }
    if rest >= d - rest {
        whole + 1
    } else {
        whole
    }
}

/// A rounded quotient lies between two whole numbers where the exact
/// quotient does: no rounding leaves the range of what was averaged.
pub proof fn lemma_round_half_away_bounded(n: int, d: int, low: int, high: int)
    requires
        d > 0,
        low * d <= n <= high * d,
    ensures
        low <= round_half_away(n, d) <= high,
{
    let q = round_half_away(n, d);
    lemma_round_half_away_is_nearest(n, d);
    assert(q <= high) by (nonlinear_arith)
        requires
            d > 0,
            n <= high * d,
            -d <= 2 * (n - q * d),
    ;
    assert(low <= q) by (nonlinear_arith)
        requires
            d > 0,
            low * d <= n,
            2 * (n - q * d) <= d,
    ;
}

/// `n / d` rounded to the nearest whole number, a tie going away from zero.
pub fn round_div_signed(n: i128, d: u128) -> (q: i128)
    requires
        d > 0,
        n > i128::MIN,
    ensures
        q == round_half_away(n as int, d as int),
{
    proof {
        let m = magnitude(n as int) as int;
        assert(0 * d == 0);
        assert(m * d >= m) by (nonlinear_arith)
            requires
                d >= 1,
                m >= 0,
        ;
        lemma_round_half_away_bounded(m, d as int, 0, m);
    }
    if n >= 0 {
        round_div(n as u128, d) as i128
    } else {
        -(round_div((-n) as u128, d) as i128)
    }
}

} // verus!
