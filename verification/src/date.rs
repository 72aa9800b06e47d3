use vstd::prelude::*;

use crate::calendar::{spec_days_in_month, MAX_YEAR, MIN_YEAR};

verus! {

/// A calendar date as plain values, the shape in which the calendar
/// collaborator hands dates over: a signed year and one-based month and
/// day-of-month numbers.
#[derive(Clone, Copy, Debug, PartialEq, Eq, Structural)]
pub struct Date {
    pub year: i32,
    pub month: u32,
    pub day: u32,
}

impl Date {
    /// A date the calendar collaborator can represent: the year within its
    /// range, the month one of the twelve, and the day one the month has.
    pub open spec fn valid(&self) -> bool {
        &&& MIN_YEAR <= self.year <= MAX_YEAR
        &&& 1 <= self.month <= 12
        &&& 1 <= self.day <= spec_days_in_month(self.year as int, self.month as int)
    }
}

/// Chronological order on dates: by year, then month, then day.
pub open spec fn date_lt(a: Date, b: Date) -> bool {
    ||| a.year < b.year
    ||| (a.year == b.year && a.month < b.month)
    ||| (a.year == b.year && a.month == b.month && a.day < b.day)
}

/// Decides whether `a` falls strictly before `b` on the calendar.
pub fn date_before(a: &Date, b: &Date) -> (r: bool)
    ensures
        r == date_lt(*a, *b),
{
    a.year < b.year || (a.year == b.year && (a.month < b.month || (a.month == b.month
        && a.day < b.day)))
}

} // verus!
