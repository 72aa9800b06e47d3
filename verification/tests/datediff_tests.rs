use datediff::{get_diff, total_days_in_month, Date, Interval};

#[test]
fn validate() {
    assert_eq!(
        get_diff(
            &Date { year: 2020, month: 1, day: 1 },
            &Date { year: 2020, month: 1, day: 1 }
        ),
        Interval { years: 0, months: 0, days: 0, positive: true }
    );

    assert_eq!(
        get_diff(
            &Date { year: 2020, month: 2, day: 5 },
            &Date { year: 2013, month: 1, day: 1 }
        ),
        Interval { years: 7, months: 1, days: 4, positive: false }
    );

    assert_eq!(
        get_diff(
            &Date { year: 2013, month: 2, day: 5 },
            &Date { year: 2020, month: 1, day: 1 }
        ),
        Interval { years: 6, months: 10, days: 27, positive: true }
    );

    assert_eq!(
        get_diff(
            &Date { year: 3040, month: 3, day: 1 },
            &Date { year: 1102, month: 1, day: 5 }
        ),
        Interval { years: 1938, months: 1, days: 25, positive: false }
    );

    // Leap Year
    assert_eq!(total_days_in_month(1752, 2), 29);

    assert_eq!(total_days_in_month(2019, 2), 28);

    assert_eq!(total_days_in_month(3016, 6), 30);
}

#[test]
fn identity_on_any_date() {
    let d = Date { year: 1999, month: 7, day: 31 };
    let r = get_diff(&d, &d);
    assert_eq!(r.years(), 0);
    assert_eq!(r.months(), 0);
    assert_eq!(r.days(), 0);
    assert!(r.positive());
}

#[test]
fn antisymmetry_flips_only_the_flag() {
    let a = Date { year: 2013, month: 2, day: 5 };
    let b = Date { year: 2020, month: 1, day: 1 };
    let forward = get_diff(&a, &b);
    let backward = get_diff(&b, &a);
    assert_eq!(forward.years(), backward.years());
    assert_eq!(forward.months(), backward.months());
    assert_eq!(forward.days(), backward.days());
    assert!(forward.positive());
    assert!(!backward.positive());
}

#[test]
fn leap_year_rule_in_february() {
    assert_eq!(total_days_in_month(2020, 2), 29);
    assert_eq!(total_days_in_month(2000, 2), 29);
    assert_eq!(total_days_in_month(1900, 2), 28);
    assert_eq!(total_days_in_month(2019, 2), 28);
    assert_eq!(total_days_in_month(2021, 6), 30);
    assert_eq!(total_days_in_month(2021, 12), 31);
}

#[test]
fn long_spans_with_borrows() {
    assert_eq!(
        get_diff(
            &Date { year: 1857, month: 1, day: 5 },
            &Date { year: 2020, month: 1, day: 1 }
        ),
        Interval { years: 162, months: 11, days: 27, positive: true }
    );

    assert_eq!(
        get_diff(
            &Date { year: 1947, month: 8, day: 15 },
            &Date { year: 1950, month: 1, day: 26 }
        ),
        Interval { years: 2, months: 5, days: 11, positive: true }
    );
}

#[test]
fn january_day_borrow_crosses_the_year() {
    // the day borrow reaches into the December before, and the month borrow
    // then takes the year back; the two together must not lose a year
    assert_eq!(
        get_diff(
            &Date { year: 2020, month: 1, day: 31 },
            &Date { year: 2021, month: 1, day: 5 }
        ),
        Interval { years: 0, months: 11, days: 5, positive: true }
    );
}

#[test]
fn short_borrowed_month_wraps_the_day_field() {
    // the borrow from February brings only 28 days, fewer than the earlier
    // date's day-of-month, so the unsigned day field wraps
    assert_eq!(
        get_diff(
            &Date { year: 2019, month: 1, day: 31 },
            &Date { year: 2019, month: 3, day: 1 }
        ),
        Interval { years: 0, months: 1, days: u32::MAX - 1, positive: true }
    );
}

#[test]
fn renders_ahead() {
    let r = get_diff(
        &Date { year: 1947, month: 8, day: 15 },
        &Date { year: 1950, month: 1, day: 26 },
    );
    assert_eq!(r.render(), "(2 years 5 months 11 days Ahead)");
}

#[test]
fn renders_behind() {
    let r = get_diff(
        &Date { year: 2020, month: 2, day: 5 },
        &Date { year: 2013, month: 1, day: 1 },
    );
    assert_eq!(r.render(), "(7 years 1 months 4 days Behind)");
}

#[test]
fn renders_zero_interval() {
    let d = Date { year: 2020, month: 1, day: 1 };
    assert_eq!(get_diff(&d, &d).render(), "(0 years 0 months 0 days Ahead)");
}
