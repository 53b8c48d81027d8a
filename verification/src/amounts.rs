//! Exact amounts: money in whole cents, percentages in ten-billionths of a
//! percent, and rates as decimal fractions in trillionths.

use vstd::prelude::*;

verus! {

/// How many units of a [`Rate`] make the rate 1 (one hundred percent).
pub const RATE_SCALE: i64 = 1_000_000_000_000;

/// How many units of a [`Percent`] make one percent.
pub const PERCENT_SCALE: i64 = 10_000_000_000;

/// An amount of money in whole cents; a debt is negative.
#[derive(Clone, Copy, Debug, PartialEq, Eq, Structural)]
pub struct Money {
    pub cents: i64,
}

/// A percentage, counted in ten-billionths of one percent: 7.5 % is
/// 75 000 000 000.
#[derive(Clone, Copy, Debug, PartialEq, Eq, Structural)]
pub struct Percent {
    pub units: i64,
}

/// A rate as a decimal fraction, counted in trillionths: 0.075 is
/// 75 000 000 000.
#[derive(Clone, Copy, Debug, PartialEq, Eq, Structural)]
pub struct Rate {
    pub units: i64,
}

impl View for Money {
    type V = int;

    /// The number of cents.
    open spec fn view(&self) -> int {
        self.cents as int
    }
}

impl View for Percent {
    type V = int;

    /// The number of ten-billionths of a percent.
    open spec fn view(&self) -> int {
        self.units as int
    }
}

impl View for Rate {
    type V = int;

    /// The number of trillionths.
    open spec fn view(&self) -> int {
        self.units as int
    }
}

impl Money {
    /// The amount of `cents` cents.
    pub fn from_cents(cents: i64) -> (m: Money)
        ensures
            m@ == cents,
    {
        Money { cents }
    }

    /// The sum of two amounts, or `None` where it is beyond the range of a
    /// 64-bit count of cents.
    pub fn checked_add(self, other: Money) -> (sum: Option<Money>)
        ensures
            sum matches Some(m) ==> m@ == self@ + other@,
            sum is Some <==> i64::MIN <= self@ + other@ <= i64::MAX,
    {
        match self.cents.checked_add(other.cents) {
            Some(cents) => Some(Money { cents }),
            None => None,
        }
    }
}

impl Percent {
    /// The percentage of `units` ten-billionths of a percent.
    pub fn from_units(units: i64) -> (p: Percent)
        ensures
            p@ == units,
    {
        Percent { units }
    }

    /// This percentage as a decimal fraction: the hundredth part of its
    /// number. One ten-billionth of a percent is one trillionth, so the
    /// count stays and no digit is lost.
    pub fn as_rate(self) -> (r: Rate)
        ensures
            r@ == self@,
            r@ * PERCENT_SCALE * 100 == self@ * RATE_SCALE,
    {
        Rate { units: self.units }
    }
}

impl Rate {
    /// The rate of `units` trillionths.
    pub fn from_units(units: i64) -> (r: Rate)
        ensures
            r@ == units,
    {
        Rate { units }
    }

    /// This rate on the percentage scale: a hundred times its number.
    pub fn as_percent(self) -> (p: Percent)
        ensures
            p@ == self@,
            p@ * RATE_SCALE == self@ * PERCENT_SCALE * 100,
    {
        Percent { units: self.units }
    }

    /// This rate raised by a percentage, or `None` where the sum is beyond
    /// the range of a 64-bit count.
    pub fn checked_add_percent(self, extra: Percent) -> (sum: Option<Rate>)
        ensures
            sum matches Some(r) ==> r@ == self@ + extra@,
            sum is Some <==> i64::MIN <= self@ + extra@ <= i64::MAX,
    {
        match self.units.checked_add(extra.units) {
            Some(units) => Some(Rate { units }),
            None => None,
        }
    }
}

} // verus!
