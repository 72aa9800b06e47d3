use vstd::prelude::*;

use crate::calendar::{spec_days_in_month, total_days_in_month};
use crate::date::{date_before, date_lt, Date};
use crate::interval::Interval;

verus! {

/// The later date's day-of-month once a too-small day has borrowed a full
/// month's worth of days from the month before it (from December of the
/// prior year when the later date sits in January).
pub open spec fn day_after_borrow(e: Date, l: Date) -> int {
    if l.day >= e.day {
        l.day as int
    } else if l.month > 1 {
        l.day + spec_days_in_month(l.year as int, l.month - 1)
    } else {
        l.day + spec_days_in_month(l.year - 1, 12)
    }
}

/// The later date's month once the day borrow has taken one from it.
pub open spec fn month_after_borrow(e: Date, l: Date) -> int {
    if l.day >= e.day {
        l.month as int
    } else {
        l.month - 1
    }
}

/// The day magnitude of the difference between `e` and a later date `l`,
/// before the unsigned wrap-around of `wrap_to_u32`.
pub open spec fn interval_days(e: Date, l: Date) -> int {
    day_after_borrow(e, l) - e.day
}

/// The month magnitude, with a month borrowed from the year when the later
/// month falls short of the earlier one.
pub open spec fn interval_months(e: Date, l: Date) -> int {
    if month_after_borrow(e, l) < e.month {
        month_after_borrow(e, l) + 12 - e.month
    } else {
        month_after_borrow(e, l) - e.month
    }
}

/// The year magnitude, one less when the month borrow took a year.
pub open spec fn interval_years(e: Date, l: Date) -> int {
    if month_after_borrow(e, l) < e.month {
        l.year - 1 - e.year
    } else {
        l.year - e.year
    }
}

/// How a difference that dips below zero lands in an unsigned 32-bit field.
/// The day borrow takes the length of the month right before the later date,
/// and that month can be shorter than the earlier date's day-of-month (from
/// January the 31st to March the 1st, say, the borrow brings only
/// February's 28 days), so the day difference can still be negative and the
/// subtraction wraps.
pub open spec fn wrap_to_u32(n: int) -> int {
    if n < 0 {
        n + 0x1_0000_0000
    } else {
        n
    }
}

/// The full result of `get_diff` as a mathematical value: the year, month
/// and day magnitudes between the chronologically earlier and later of the
/// two dates, and whether `end` lay on or after `start`.
pub open spec fn spec_interval(start: Date, end: Date) -> (int, int, int, bool) {
    let e = if date_lt(end, start) {
        end
    } else {
        start
    };
    let l = if date_lt(end, start) {
        start
    } else {
        end
    };
    (
        interval_years(e, l),
        interval_months(e, l),
        wrap_to_u32(interval_days(e, l)),
        !date_lt(end, start),
    )
}

/// Takes two dates and gives the calendar difference between them as an
/// `Interval`, borrowing days and months the way manual long subtraction
/// does.
pub fn get_diff(start: &Date, end: &Date) -> (r: Interval)
    requires
        start.valid(),
        end.valid(),
    ensures
        (r.years as int, r.months as int, r.days as int, r.positive) == spec_interval(
            *start,
            *end,
        ),
{
    let mut positive = true;
    let mut earlier = *start;
    let mut later = *end;
    if date_before(end, start) {
        positive = false;
        earlier = *end;
        later = *start;
    }

    let start_day: u32 = earlier.day;
    let mut end_day: u32 = later.day;
    let start_month: u32 = earlier.month;
    let mut end_month: u32 = later.month;
    let start_year: i32 = earlier.year;
    let mut end_year: i32 = later.year;

    if end_day < start_day {
        // borrow a full month's worth of days from the month before
        if end_month > 1 {
            end_day = end_day + total_days_in_month(end_year, end_month - 1);
        } else {
            // the later date sits in January: borrow from the December before
            end_day = end_day + total_days_in_month(end_year - 1, 12);
        }
        end_month = end_month - 1;
    }
    if end_month < start_month {
        // borrow a year's worth of months
        end_month = end_month + 12;
        end_year = end_year - 1;
    }

    let days: u32 = if end_day >= start_day {
        end_day - start_day
    } else {
        // the borrowed month was shorter than the earlier day-of-month:
        // the subtraction wraps around the unsigned field
        ((0x1_0000_0000u64 + end_day as u64) - start_day as u64) as u32
    };

    Interval { days, months: end_month - start_month, years: (end_year - start_year) as u32, positive }
}

/// The difference between a date and itself is zero years, zero months and
/// zero days, and counts as pointing forward.
pub proof fn lemma_identity(d: Date)
    requires
        d.valid(),
    ensures
        spec_interval(d, d) == (0int, 0int, 0int, true),
{
}

/// Swapping the two dates keeps all three magnitudes and flips the
/// direction flag.
pub proof fn lemma_antisymmetry(a: Date, b: Date)
    requires
        a.valid(),
        b.valid(),
        a != b,
    ensures
        spec_interval(a, b).0 == spec_interval(b, a).0,
        spec_interval(a, b).1 == spec_interval(b, a).1,
        spec_interval(a, b).2 == spec_interval(b, a).2,
        spec_interval(a, b).3 == !spec_interval(b, a).3,
{
}

} // verus!
