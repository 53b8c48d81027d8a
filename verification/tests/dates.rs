use chrono::{Datelike, NaiveDate};
use judgment_interest::calculator::calculate_days_between;
use judgment_interest::dates::{CalendarDate, MAX_DAY, MIN_DAY};

#[test]
fn day_numbers_are_those_of_the_calendar() {
    assert_eq!(CalendarDate::from_ymd(1, 1, 1).unwrap().day_number(), 1);
    assert_eq!(CalendarDate::from_ymd(1970, 1, 1).unwrap().day_number(), 719_163);
    assert_eq!(CalendarDate::from_ymd(0, 12, 31).unwrap().day_number(), 0);
    assert_eq!(CalendarDate::from_ymd(2024, 2, 30), None);
    assert_eq!(CalendarDate::from_ymd(2023, 2, 29), None);
    assert_eq!(CalendarDate::from_ymd(2024, 13, 1), None);
    assert_eq!(CalendarDate::from_ymd(400_000, 1, 1), None);
}

#[test]
fn the_range_is_that_of_the_calendar() {
    assert_eq!(NaiveDate::MIN.num_days_from_ce(), MIN_DAY);
    assert_eq!(NaiveDate::MAX.num_days_from_ce(), MAX_DAY);
    assert_eq!(CalendarDate::from_day_number(MIN_DAY).unwrap().day_number(), MIN_DAY);
    assert_eq!(CalendarDate::from_day_number(MAX_DAY).unwrap().day_number(), MAX_DAY);
    assert_eq!(CalendarDate::from_day_number(MIN_DAY - 1), None);
    assert_eq!(CalendarDate::from_day_number(MAX_DAY + 1), None);
    assert_eq!(
        CalendarDate::from_ymd(-262_143, 1, 1),
        CalendarDate::from_day_number(MIN_DAY)
    );
    assert_eq!(
        CalendarDate::from_ymd(262_142, 12, 31),
        CalendarDate::from_day_number(MAX_DAY)
    );
}

#[test]
fn dates_are_read_from_text() {
    assert_eq!(
        CalendarDate::parse("2024-01-10"),
        Ok(CalendarDate::from_ymd(2024, 1, 10).unwrap())
    );
    assert_eq!(
        CalendarDate::parse("1999-12-31"),
        Ok(CalendarDate::from_ymd(1999, 12, 31).unwrap())
    );
    assert!(CalendarDate::parse("2024-02-30").is_err());
    assert!(CalendarDate::parse("10/01/2024").is_err());
    assert!(CalendarDate::parse("").is_err());
    assert_eq!(
        CalendarDate::parse("not a date"),
        Err("input contains invalid characters".to_string())
    );
}

#[test]
fn dates_are_written_as_text() {
    let date = CalendarDate::from_ymd(2024, 1, 7).unwrap();
    assert_eq!(date.iso_text(), Some("2024-01-07".to_string()));
    let date = CalendarDate::from_ymd(1987, 11, 23).unwrap();
    assert_eq!(date.iso_text(), Some("1987-11-23".to_string()));
}

#[test]
fn weekdays_are_those_of_the_calendar() {
    // 10 January 2024 was a Wednesday.
    assert_eq!(CalendarDate::from_ymd(2024, 1, 10).unwrap().days_from_monday(), 2);
    assert_eq!(CalendarDate::from_ymd(1, 1, 1).unwrap().days_from_monday(), 0);
    let mut n = -800_000;
    while n <= 800_000 {
        let theirs = NaiveDate::from_num_days_from_ce_opt(n).unwrap();
        let ours = CalendarDate::from_day_number(n).unwrap();
        assert_eq!(ours.days_from_monday(), theirs.weekday().num_days_from_monday());
        n += 97;
    }
    for n in [MIN_DAY, MIN_DAY + 1, MIN_DAY + 6, MAX_DAY - 6, MAX_DAY] {
        let theirs = NaiveDate::from_num_days_from_ce_opt(n).unwrap();
        let ours = CalendarDate::from_day_number(n).unwrap();
        assert_eq!(ours.days_from_monday(), theirs.weekday().num_days_from_monday());
    }
}

#[test]
fn distances_are_those_of_the_calendar() {
    let pairs = [
        ((2024, 1, 1), (2024, 12, 31)),
        ((1900, 2, 28), (1900, 3, 1)),
        ((2000, 2, 28), (2000, 3, 1)),
        ((-5, 6, 1), (2024, 6, 1)),
        ((2024, 6, 1), (1614, 1, 1)),
    ];
    for ((y1, m1, d1), (y2, m2, d2)) in pairs {
        let theirs = (NaiveDate::from_ymd_opt(y2, m2, d2).unwrap()
            - NaiveDate::from_ymd_opt(y1, m1, d1).unwrap())
        .num_days();
        let ours = calculate_days_between(
            CalendarDate::from_ymd(y1, m1, d1).unwrap(),
            CalendarDate::from_ymd(y2, m2, d2).unwrap(),
        );
        assert_eq!(ours, theirs);
    }
}
