use vstd::prelude::*;

verus! {

/// Smallest year the calendar collaborator (chrono's `NaiveDate`) can represent.
pub const MIN_YEAR: i32 = -262143;

/// Largest year the calendar collaborator (chrono's `NaiveDate`) can represent.
pub const MAX_YEAR: i32 = 262142;

/// The proleptic Gregorian leap-year rule: every fourth year, except
/// century years that are not divisible by 400.
pub open spec fn is_leap_year(y: int) -> bool {
    (y % 4 == 0 && y % 100 != 0) || y % 400 == 0
}

/// Length in days of month `m` of year `y` in the proleptic Gregorian
/// calendar.
pub open spec fn spec_days_in_month(y: int, m: int) -> int {
    if m == 2 {
        if is_leap_year(y) {
            29
        } else {
            28
        }
    } else if m == 4 || m == 6 || m == 9 || m == 11 {
        30
    } else {
        31
    }
}

/// Relies on chrono's `NaiveDate::from_ymd_opt` and
/// `NaiveDate::signed_duration_since` (via `TimeDelta::num_days`):
/// `(next_year, next_month)` is required to name the calendar month right
/// after `(year, month)`, so the signed day count from the first of the one
/// month to the first of the other is the length of month `(year, month)` in
/// the proleptic Gregorian calendar that `NaiveDate` implements.
#[verifier::external_body]
fn days_to_next_month_first(year: i32, month: u32, next_year: i32, next_month: u32) -> (r: u32)
    requires
        1 <= month <= 12,
        MIN_YEAR <= year,
        next_year <= MAX_YEAR,
        if month == 12 {
            next_year == year + 1 && next_month == 1
        } else {
            next_year == year && next_month == month + 1
        },
    ensures
        r == spec_days_in_month(year as int, month as int),
{
    let this_first = chrono::NaiveDate::from_ymd_opt(year, month, 1).unwrap();
    let next_first = chrono::NaiveDate::from_ymd_opt(next_year, next_month, 1).unwrap();
    next_first.signed_duration_since(this_first).num_days() as u32
}

/// Gives the number of days in the given month of the given year, with leap
/// years accounted for by the calendar collaborator.
pub fn total_days_in_month(year: i32, month: u32) -> (r: u32)
    requires
        1 <= month <= 12,
        MIN_YEAR <= year <= MAX_YEAR,
        month == 12 ==> year < MAX_YEAR,
    ensures
        r == spec_days_in_month(year as int, month as int),
{
    if month == 12 {
        days_to_next_month_first(year, 12, year + 1, 1)
    } else {
        days_to_next_month_first(year, month, year, month + 1)
    }
}

/// February is 29 days long exactly in leap years, and June is 30 days long
/// in every year.
pub proof fn lemma_month_lengths(y: int)
    ensures
        spec_days_in_month(y, 2) == 29 <==> is_leap_year(y),
        spec_days_in_month(y, 6) == 30,
{
}

} // verus!
