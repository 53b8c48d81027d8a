use judgment_interest::amounts::{Money, Percent, Rate};
use judgment_interest::calculator::{
    calculate_days_between, compute_interest, try_compute_interest,
};
use judgment_interest::dates::CalendarDate;

#[test]
fn test_compute_interest() {
    // $10,000 at 5% for 365 days
    let principal = Money::from_cents(1_000_000);
    let rate = Rate::from_units(50_000_000_000);
    let days = 365;

    let interest = compute_interest(principal, rate, days);
    assert_eq!(interest, Money::from_cents(50_000));
}

#[test]
fn test_compute_interest_partial_year() {
    // $10,000 at 10% for 180 days
    let principal = Money::from_cents(1_000_000);
    let rate = Rate::from_units(100_000_000_000);
    let days = 180;

    let interest = compute_interest(principal, rate, days);
    // Should be approximately 493.15
    assert!((interest.cents - 49_315).abs() < 1);
}

#[test]
fn test_calculate_days_between() {
    let from_date = CalendarDate::from_ymd(2024, 1, 1).unwrap();
    let to_date = CalendarDate::from_ymd(2024, 12, 31).unwrap();

    let days = calculate_days_between(from_date, to_date);
    assert_eq!(days, 365); // 2024 is a leap year, so 366 - 1
}

#[test]
fn days_between_runs_backwards_too() {
    let earlier = CalendarDate::from_ymd(2023, 12, 31).unwrap();
    let later = CalendarDate::from_ymd(2024, 3, 1).unwrap();
    assert_eq!(calculate_days_between(earlier, later), 61);
    assert_eq!(calculate_days_between(later, earlier), -61);
    assert_eq!(calculate_days_between(later, later), 0);
}

#[test]
fn interest_is_the_rounded_product() {
    // 12,345.67 at 4.6 % over 200 days: 12345.67 * 0.046 * 200 / 365 = 311.1771...
    let interest =
        compute_interest(Money::from_cents(1_234_567), Rate::from_units(46_000_000_000), 200);
    assert_eq!(interest.cents, 31_118);
    // Nothing accrues in no time, on nothing, or at no rate.
    assert_eq!(compute_interest(Money::from_cents(1_234_567), Rate::from_units(46_000_000_000), 0).cents, 0);
    assert_eq!(compute_interest(Money::from_cents(0), Rate::from_units(46_000_000_000), 200).cents, 0);
    assert_eq!(compute_interest(Money::from_cents(1_234_567), Rate::from_units(0), 200).cents, 0);
}

#[test]
fn half_a_cent_goes_away_from_zero() {
    // One cent at 50 % over a year is exactly half a cent.
    let half = Rate::from_units(500_000_000_000);
    assert_eq!(compute_interest(Money::from_cents(1), half, 365).cents, 1);
    assert_eq!(compute_interest(Money::from_cents(-1), half, 365).cents, -1);
    assert_eq!(compute_interest(Money::from_cents(1), half, -365).cents, -1);
    assert_eq!(compute_interest(Money::from_cents(-1), half, -365).cents, 1);
    // Three cents make a cent and a half.
    assert_eq!(compute_interest(Money::from_cents(3), half, 365).cents, 2);
    // Just under half a cent is nothing.
    assert_eq!(compute_interest(Money::from_cents(1), Rate::from_units(499_999_999_999), 365).cents, 0);
}

#[test]
fn negative_inputs_are_taken_as_they_are() {
    let rate = Rate::from_units(50_000_000_000);
    assert_eq!(compute_interest(Money::from_cents(-1_000_000), rate, 365).cents, -50_000);
    assert_eq!(compute_interest(Money::from_cents(1_000_000), rate, -365).cents, -50_000);
    assert_eq!(
        compute_interest(Money::from_cents(1_000_000), Rate::from_units(-50_000_000_000), 365).cents,
        -50_000
    );
}

#[test]
fn interest_too_large_is_refused() {
    let huge = try_compute_interest(
        Money::from_cents(i64::MAX),
        Rate::from_units(i64::MAX),
        i64::MAX,
    );
    assert_eq!(huge, None);
    // 100 % over 365 days is the principal itself, at either end of the range.
    let whole = Rate::from_units(1_000_000_000_000);
    assert_eq!(
        try_compute_interest(Money::from_cents(i64::MAX), whole, 365),
        Some(Money::from_cents(i64::MAX))
    );
    assert_eq!(
        try_compute_interest(Money::from_cents(i64::MIN), whole, 365),
        Some(Money::from_cents(i64::MIN))
    );
    assert_eq!(try_compute_interest(Money::from_cents(i64::MAX), whole, 366), None);
    assert_eq!(try_compute_interest(Money::from_cents(i64::MIN), whole, 366), None);
}

#[test]
fn percent_and_rate_share_their_count() {
    // 7.5 % is 0.075.
    let percent = Percent::from_units(75_000_000_000);
    assert_eq!(percent.as_rate(), Rate::from_units(75_000_000_000));
    assert_eq!(Rate::from_units(75_000_000_000).as_percent(), percent);
    assert_eq!(
        Rate::from_units(50_000_000_000).checked_add_percent(Percent::from_units(30_000_000_000)),
        Some(Rate::from_units(80_000_000_000))
    );
    assert_eq!(Rate::from_units(i64::MAX).checked_add_percent(Percent::from_units(1)), None);
    assert_eq!(
        Money::from_cents(1_000_000).checked_add(Money::from_cents(50_000)),
        Some(Money::from_cents(1_050_000))
    );
    assert_eq!(Money::from_cents(i64::MIN).checked_add(Money::from_cents(-1)), None);
}

#[test]
fn interest_agrees_with_floating_point() {
    // Where floating point is exact enough to tell, it gives the same cents.
    let float_interest = |principal: f64, rate: f64, days: i64| -> f64 {
        let interest = principal * rate * (days as f64 / 365.0);
        (interest * 100.0).round() / 100.0
    };
    let mut seed: u64 = 42;
    let mut next = |bound: u64| -> i64 {
        seed = seed.wrapping_mul(6_364_136_223_846_793_005).wrapping_add(1_442_695_040_888_963_407);
        ((seed >> 20) % bound) as i64
    };
    let mut compared = 0;
    for _ in 0..5000 {
        let cents = next(100_000_000);
        let units = next(200_000_000_000);
        let days = next(4000);
        let exact_scaled = cents as i128 * units as i128 * days as i128;
        let remainder = exact_scaled % 365_000_000_000_000;
        // Leave out what lies within a thousandth of half a cent.
        if (remainder - 182_500_000_000_000).abs() < 365_000_000_000 {
            continue;
        }
        let ours = compute_interest(Money::from_cents(cents), Rate::from_units(units), days);
        let theirs = float_interest(cents as f64 / 100.0, units as f64 / 1_000_000_000_000.0, days);
        assert_eq!(ours.cents, (theirs * 100.0).round() as i64, "{} {} {}", cents, units, days);
        compared += 1;
    }
    assert!(compared > 4900);
}
