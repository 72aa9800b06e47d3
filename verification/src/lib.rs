//! Calendar difference between two dates, reported as a signed interval of
//! years, months and days rather than a raw day count.

pub mod calendar;
pub mod date;
pub mod diff;
pub mod interval;

pub use calendar::total_days_in_month;
pub use date::Date;
pub use diff::get_diff;
pub use interval::Interval;
