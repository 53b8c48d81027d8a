//! Simple interest on a principal, and the number of days between two dates.

use vstd::prelude::*;
use crate::amounts::{Money, Rate, RATE_SCALE};
use crate::dates::CalendarDate;
use crate::rounding::{
    lemma_round_half_away_bounded,
    lemma_round_half_away_is_nearest,
    magnitude,
    magnitude_of,
    round_div,
    round_half_away,
};

verus! {

/// The number of days by which a year's interest is divided.
pub const DAYS_PER_YEAR: i64 = 365;

/// What the product of a principal in cents, a rate in trillionths and
/// a number of days is divided by to give the interest in cents.
pub open spec fn interest_divisor() -> int {
    DAYS_PER_YEAR * RATE_SCALE
}

/// Simple interest in cents: principal times rate times the days' share of a
/// 365-day year, rounded to the nearest cent, half a cent going away from
/// zero. `principal` is in cents and `rate` in trillionths.
pub open spec fn interest_cents(principal: int, rate: int, days: int) -> int {
    round_half_away(principal * rate * days, interest_divisor())
}

/// Whether the interest can be held as a 64-bit count of cents.
pub open spec fn interest_fits(principal: int, rate: int, days: int) -> bool {
    i64::MIN <= interest_cents(principal, rate, days) <= i64::MAX
}

/// The magnitude of a product is the product of the magnitudes; the product
/// is zero where a factor is, and negative where an odd number of factors is
/// and none is zero.
proof fn lemma_product_magnitude(p: int, r: int, d: int)
    ensures
        magnitude(p * r * d) == magnitude(p) * magnitude(r) * magnitude(d),
        p * r * d < 0 <==> (p != 0 && r != 0 && d != 0 && ((p < 0) != ((r < 0) != (d < 0)))),
        p * r * d == 0 <==> (p == 0 || r == 0 || d == 0),
{
    let a = magnitude(p) as int;
    let b = magnitude(r) as int;
    let c = magnitude(d) as int;
    assert(a * b >= 0 && a * b * c >= 0 && (a > 0 && b > 0 && c > 0 ==> a * b * c > 0))
        by (nonlinear_arith)
        requires
            a >= 0,
            b >= 0,
            c >= 0,
    ;
    assert(a * b * c == 0 <==> (a == 0 || b == 0 || c == 0)) by (nonlinear_arith)
        requires
            a >= 0,
            b >= 0,
            c >= 0,
    ;
    let sign_p: int = if p < 0 { -1 } else { 1 };
    let sign_r: int = if r < 0 { -1 } else { 1 };
    let sign_d: int = if d < 0 { -1 } else { 1 };
    let sign: int = if (p < 0) != ((r < 0) != (d < 0)) { -1 } else { 1 };
    let m = a * b * c;
    assert(sign_p * sign_r == (if (p < 0) != (r < 0) { -1int } else { 1int })) by (nonlinear_arith)
        requires
            sign_p == (if p < 0 { -1int } else { 1int }),
            sign_r == (if r < 0 { -1int } else { 1int }),
    ;
    assert(sign_p * sign_r * sign_d == sign) by (nonlinear_arith)
        requires
            sign_p * sign_r == (if (p < 0) != (r < 0) { -1int } else { 1int }),
            sign_d == (if d < 0 { -1int } else { 1int }),
            sign == (if (p < 0) != ((r < 0) != (d < 0)) { -1int } else { 1int }),
    ;
    assert(p * r * d == (sign_p * sign_r * sign_d) * m) by (nonlinear_arith)
        requires
            p == sign_p * a,
            r == sign_r * b,
            d == sign_d * c,
            m == a * b * c,
    ;
    assert(1 * m == m && (-1) * m == -m);
}

/// The interest, or `None` where it is too large to be held as a 64-bit
/// count of cents.
pub fn try_compute_interest(principal: Money, rate: Rate, days: i64) -> (interest: Option<Money>)
    ensures
        interest is Some <==> interest_fits(principal@, rate@, days as int),
        interest matches Some(amount) ==> amount@ == interest_cents(principal@, rate@, days as int),
{
    let a = magnitude_of(principal.cents);
    let b = magnitude_of(rate.units);
    let c = magnitude_of(days);
    let negative = (principal.cents < 0) != ((rate.units < 0) != (days < 0));
    let ghost n: int = principal@ * rate@ * (days as int);
    let ghost m: int = magnitude(n) as int;
    let ghost nearest: int = round_half_away(m, interest_divisor());
    proof {
        lemma_product_magnitude(principal@, rate@, days as int);
        lemma_round_half_away_is_nearest(m, interest_divisor());
        assert(interest_divisor() == 365_000_000_000_000);
        assert(interest_cents(principal@, rate@, days as int) == (if n >= 0 {
            nearest
        } else {
            -nearest
        }));
        assert(m == (a * b) * c);
        assert(a * b <= 0x8000_0000_0000_0000 * 0x8000_0000_0000_0000) by (nonlinear_arith)
            requires
                a <= 0x8000_0000_0000_0000,
                b <= 0x8000_0000_0000_0000,
        ;
        assert(n < 0 ==> negative);
        assert(negative && n >= 0 ==> m == 0 && nearest == 0);
    }
    let ab: u128 = a * b;
    match ab.checked_mul(c) {
        None => {
            assert(nearest > 0x1_0000_0000_0000_0000) by {
                assert(m > u128::MAX);
                assert(2 * (m - nearest * 365_000_000_000_000) <= 365_000_000_000_000);
            }
            None
        },
        Some(abc) => {
            let q = round_div(abc, DAYS_PER_YEAR as u128 * RATE_SCALE as u128);
            assert(q == nearest);
            if negative {
                if q < 0x8000_0000_0000_0000 {
                    Some(Money { cents: -(q as i64) })
                } else if q == 0x8000_0000_0000_0000 {
                    Some(Money { cents: i64::MIN })
                } else {
                    None
                }
            } else {
                if q <= 0x7fff_ffff_ffff_ffff {
                    Some(Money { cents: q as i64 })
                } else {
                    None
                }
            }
        },
    }
}

/// Simple interest on `principal` at the yearly `rate` over `days` days:
/// principal times rate times `days / 365`, rounded to the nearest cent with
/// half a cent going away from zero. Negative amounts, rates and day counts
/// are taken as they are.
pub fn compute_interest(principal: Money, rate: Rate, days: i64) -> (interest: Money)
    requires
        interest_fits(principal@, rate@, days as int),
    ensures
        interest@ == interest_cents(principal@, rate@, days as int),
{
    try_compute_interest(principal, rate, days).unwrap()
}

/// The number of days from `from_date` to `to_date`: positive where
/// `to_date` is the later one.
pub fn calculate_days_between(from_date: CalendarDate, to_date: CalendarDate) -> (days: i64)
    ensures
        days == to_date@ - from_date@,
{
    to_date.day_number() as i64 - from_date.day_number() as i64
}

/// The interest is the amount in whole cents nearest to the exact product:
/// it differs from `principal * rate * days / 365` by half a cent at most,
/// and has the sign of that product.
pub proof fn lemma_interest_is_nearest_cent(principal: int, rate: int, days: int)
    ensures
        ({
            let exact_times_divisor = principal * rate * days;
            let interest = interest_cents(principal, rate, days);
            &&& -interest_divisor() <= 2 * (exact_times_divisor - interest * interest_divisor())
                <= interest_divisor()
            &&& (exact_times_divisor >= 0 ==> interest >= 0)
            &&& (exact_times_divisor <= 0 ==> interest <= 0)
        }),
{
    lemma_round_half_away_is_nearest(principal * rate * days, interest_divisor());
}

/// Where rate times days is no more than a whole year at a hundred percent,
/// the interest is no more than the principal, whatever the signs. For such
/// a rate and such a time the interest can be held where the principal and
/// its opposite can.
pub proof fn lemma_interest_within_principal(principal: int, rate: int, days: int)
    requires
        -interest_divisor() <= rate * days <= interest_divisor(),
    ensures
        -magnitude(principal) <= interest_cents(principal, rate, days) <= magnitude(principal),
        -i64::MAX <= principal <= i64::MAX ==> interest_fits(principal, rate, days),
{
    let m = magnitude(principal) as int;
    let d = interest_divisor();
    assert(principal * rate * days == principal * (rate * days)) by (nonlinear_arith);
    assert(-m * d <= principal * (rate * days) <= m * d) by (nonlinear_arith)
        requires
            -d <= rate * days <= d,
            -m <= principal <= m,
            m >= 0,
    ;
    assert((-m) * d == -m * d) by (nonlinear_arith);
    lemma_round_half_away_bounded(principal * rate * days, d, -m, m);
}

/// For a principal, a rate and a number of days none of which is negative,
/// the interest is `principal * rate * days / 365` rounded to the cent with
/// half a cent going up: it is the one amount `cents` for which the exact
/// product lies from half a cent below `cents` up to, but not reaching,
/// half a cent above it.
pub proof fn lemma_interest_rounds_half_up(principal: int, rate: int, days: int, cents: int)
    requires
        principal >= 0,
        rate >= 0,
        days >= 0,
    ensures
        interest_cents(principal, rate, days) >= 0,
        cents == interest_cents(principal, rate, days) <==> (2 * cents - 1) * interest_divisor() <= 2
            * (principal * rate * days) < (2 * cents + 1) * interest_divisor(),
{
    let n = principal * rate * days;
    let d = interest_divisor();
    let q = interest_cents(principal, rate, days);
    assert(n >= 0) by (nonlinear_arith)
        requires
            n == principal * rate * days,
            principal >= 0,
            rate >= 0,
            days >= 0,
    ;
    lemma_round_half_away_is_nearest(n, d);
    assert((2 * q - 1) * d == 2 * (q * d) - d && (2 * q + 1) * d == 2 * (q * d) + d)
        by (nonlinear_arith);
    assert((2 * cents - 1) * d <= 2 * n < (2 * cents + 1) * d ==> cents == q) by (nonlinear_arith)
        requires
            d > 0,
            (2 * q - 1) * d <= 2 * n < (2 * q + 1) * d,
    ;
}

} // verus!
