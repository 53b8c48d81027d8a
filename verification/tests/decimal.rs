use judgment_interest::amounts::Percent;
use judgment_interest::decimal::{characters, format_percent, parse_percent};

fn units(text: &str) -> Option<i64> {
    parse_percent(text).map(|p| p.units)
}

#[test]
fn decimal_numbers_are_read() {
    assert_eq!(units("4.5"), Some(45_000_000_000));
    assert_eq!(units("4.75"), Some(47_500_000_000));
    assert_eq!(units("10"), Some(100_000_000_000));
    assert_eq!(units("0"), Some(0));
    assert_eq!(units("007"), Some(70_000_000_000));
    assert_eq!(units(".5"), Some(5_000_000_000));
    assert_eq!(units("5."), Some(50_000_000_000));
    assert_eq!(units("-3"), Some(-30_000_000_000));
    assert_eq!(units("+2.25"), Some(22_500_000_000));
    assert_eq!(units("-0"), Some(0));
    assert_eq!(units("0.0000000001"), Some(1));
    assert_eq!(units("1.0123456789"), Some(10_123_456_789));
}

#[test]
fn what_is_no_decimal_number_is_refused() {
    for text in [
        "", ".", "-", "+", "-.", "abc", "4,5", "4.5.6", "1e3", " 4.5", "4.5 ", "--4", "4-", "NaN",
        "inf", "4.5%", "٤",
    ] {
        assert_eq!(parse_percent(text), None, "{:?}", text);
    }
}

#[test]
fn digits_beyond_the_tenth_round() {
    assert_eq!(units("4.12345678904"), Some(41_234_567_890));
    assert_eq!(units("4.12345678905"), Some(41_234_567_891));
    assert_eq!(units("4.123456789049999"), Some(41_234_567_890));
    assert_eq!(units("-4.12345678905"), Some(-41_234_567_891));
    assert_eq!(units("0.99999999995"), Some(10_000_000_000));
    assert_eq!(units("0.00000000004"), Some(0));
    assert_eq!(parse_percent("0.00000000005x"), None);
}

#[test]
fn numbers_out_of_range_are_refused() {
    assert_eq!(units("922337203.6854775807"), Some(i64::MAX));
    assert_eq!(units("922337203.6854775808"), None);
    assert_eq!(units("-922337203.6854775808"), Some(i64::MIN));
    assert_eq!(units("-922337203.6854775809"), None);
    assert_eq!(units("922337203"), Some(9_223_372_030_000_000_000));
    assert_eq!(units("922337204"), None);
    assert_eq!(units("99999999999999999999999999999999999999"), None);
    assert_eq!(units("922337203.68547758074"), Some(i64::MAX));
    assert_eq!(units("922337203.68547758075"), None);
}

#[test]
fn percentages_are_written_short() {
    let text = |units: i64| format_percent(Percent::from_units(units));
    assert_eq!(text(75_000_000_000), "7.5");
    assert_eq!(text(30_000_000_000), "3");
    assert_eq!(text(47_500_000_000), "4.75");
    assert_eq!(text(0), "0");
    assert_eq!(text(1), "0.0000000001");
    assert_eq!(text(-22_500_000_000), "-2.25");
    assert_eq!(text(1_000_000_000_000), "100");
    assert_eq!(text(100_000_100_000), "10.00001");
    assert_eq!(text(-5_000_000_000), "-0.5");
    assert_eq!(text(i64::MAX), "922337203.6854775807");
    assert_eq!(text(i64::MIN), "-922337203.6854775808");
}

#[test]
fn what_is_written_reads_back() {
    let mut samples = vec![
        0,
        1,
        -1,
        9_999_999_999,
        10_000_000_000,
        10_000_000_001,
        i64::MAX,
        i64::MIN,
    ];
    let mut n: i64 = 7;
    for _ in 0..2000 {
        n = n.wrapping_mul(6_364_136_223_846_793_005).wrapping_add(1_442_695_040_888_963_407);
        samples.push(n);
        samples.push(n % 1_000_000_000_000);
    }
    for units in samples {
        let value = Percent::from_units(units);
        assert_eq!(parse_percent(&format_percent(value)), Some(value));
    }
}

#[test]
fn characters_are_those_of_the_text() {
    assert_eq!(characters("4.5"), vec!['4', '.', '5']);
    assert_eq!(characters(""), Vec::<char>::new());
    assert_eq!(characters("é٤"), vec!['é', '٤']);
}

#[test]
fn decimal_numbers_are_read_as_floating_point_reads_them() {
    for text in [
        "0", "4.5", "4.53", "5.25", "0.01", "12", "12.000", "+7.125", "-3.75", "100", ".25", "9.",
        "0.000001", "123456.789012",
    ] {
        let float: f64 = text.parse().unwrap();
        assert_eq!(units(text), Some((float * 10_000_000_000.0).round() as i64), "{}", text);
    }
    // What floating point refuses is refused.
    for text in ["", ".", "-", "+", "4.5.6", "abc", "4,5", " 4.5", "--1"] {
        assert!(text.parse::<f64>().is_err());
        assert_eq!(units(text), None, "{}", text);
    }
}

#[test]
fn percentages_are_written_as_floating_point_writes_them() {
    for units in [
        0,
        75_000_000_000,
        30_000_000_000,
        47_500_000_000,
        52_500_000_000,
        87_500_000_000,
        -22_500_000_000,
        1_000_000_000_000,
    ] {
        let float = units as f64 / 10_000_000_000.0;
        assert_eq!(format_percent(Percent::from_units(units)), format!("{}", float));
    }
}
