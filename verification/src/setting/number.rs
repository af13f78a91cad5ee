//! Fixed-point numbers for numeric settings.

use vstd::prelude::*;

verus! {

/// How many thousandths make one unit.
pub const MILLIS_PER_UNIT: i64 = 1000;

/// A numeric setting value: a signed count of thousandths.
///
/// Font sizes, line heights and the like are small decimal quantities; three
/// decimal places keep every value a user can type while leaving ordering
/// and clamping exact.
#[derive(Clone, Copy, Debug, PartialEq, Eq, Structural)]
pub struct Number {
    /// The count of thousandths.
    pub millis: i64,
}

impl View for Number {
    type V = int;

    /// The number as a mathematical count of thousandths.
    open spec fn view(&self) -> int {
        self.millis as int
    }
}

impl DeepView for Number {
    type V = int;

    open spec fn deep_view(&self) -> int {
        self@
    }
}

/// `value` limited to the closed interval from `min` to `max`.
///
/// Total: where the interval is empty (`min > max`) the lower bound wins for
/// small values and the upper bound for all others.
pub open spec fn clamp(value: int, min: int, max: int) -> int {
    if value < min {
        min
    } else if value > max {
        max
    } else {
        value
    }
}

impl Number {
    /// The whole number `units`, for `units` that a 32-bit integer holds.
    pub open spec fn of(units: int) -> Number {
        Number { millis: (units * MILLIS_PER_UNIT) as i64 }
    }

    /// The number made of `millis` thousandths.
    pub fn from_millis(millis: i64) -> (n: Number)
        ensures
            n@ == millis,
    {
        Number { millis }
    }

    /// The whole number `units`.
    pub fn whole(units: i32) -> (n: Number)
        ensures
            n == Number::of(units as int),
            n@ == units * MILLIS_PER_UNIT,
    {
        let wide: i64 = units as i64;
        Number { millis: wide * MILLIS_PER_UNIT }
    }

    /// The count of thousandths.
    pub fn millis(&self) -> (millis: i64)
        ensures
            millis == self@,
    {
        self.millis
    }

    /// The smallest number.
    pub fn lowest() -> (n: Number)
        ensures
            n@ == i64::MIN,
    {
        Number { millis: i64::MIN }
    }

    /// The largest number.
    pub fn highest() -> (n: Number)
        ensures
            n@ == i64::MAX,
    {
        Number { millis: i64::MAX }
    }

    /// Whether `self` is strictly below `other`.
    pub fn lt(&self, other: &Number) -> (below: bool)
        ensures
            below == (self@ < other@),
    {
        self.millis < other.millis
    }

    /// Whether `self` is at most `other`.
    pub fn le(&self, other: &Number) -> (at_most: bool)
        ensures
            at_most == (self@ <= other@),
    {
        self.millis <= other.millis
    }

    /// `self` limited to the interval from `min` to `max`.
    pub fn clamp(self, min: Number, max: Number) -> (n: Number)
        ensures
            n@ == clamp(self@, min@, max@),
    {
        if self.millis < min.millis {
            min
        } else if self.millis > max.millis {
            max
        } else {
            self
        }
    }
}

} // verus!
