use judgment_interest::amounts::Rate;
use judgment_interest::dates::{CalendarDate, MIN_DAY};
use judgment_interest::models::{FredObservation, FredResponse};
use judgment_interest::rate_fetcher::{
    calculate_average_rate, federal_rate_query, get_fallback_federal_rate, get_federal_rate,
    get_preceding_week, observations_url, preceding_week, validate_api_key, validation_url,
    FederalStep, FetchError, HttpStatus, ProbeOutcome, ValidationStep,
};

fn observation(date: &str, value: &str) -> FredObservation {
    FredObservation {
        realtime_start: "2024-01-15".to_string(),
        realtime_end: "2024-01-15".to_string(),
        date: date.to_string(),
        value: value.to_string(),
    }
}

fn observations(values: &[&str]) -> Vec<FredObservation> {
    values.iter().map(|value| observation("2024-01-02", value)).collect()
}

fn response(values: &[&str]) -> FredResponse {
    FredResponse {
        realtime_start: "2024-01-15".to_string(),
        realtime_end: "2024-01-15".to_string(),
        observations: observations(values),
    }
}

#[test]
fn test_get_preceding_week() {
    // Test case: Wednesday Jan 10, 2024
    let judgment_date = CalendarDate::from_ymd(2024, 1, 10).unwrap();
    let (start, end) = get_preceding_week(judgment_date);

    // Should return Monday Jan 1 to Sunday Jan 7
    assert_eq!(start, CalendarDate::from_ymd(2024, 1, 1).unwrap());
    assert_eq!(end, CalendarDate::from_ymd(2024, 1, 7).unwrap());
}

#[test]
fn every_day_of_a_week_has_the_same_preceding_week() {
    let monday = CalendarDate::from_ymd(2024, 1, 1).unwrap();
    let sunday = CalendarDate::from_ymd(2024, 1, 7).unwrap();
    for day in 8..=14 {
        let judgment_date = CalendarDate::from_ymd(2024, 1, day).unwrap();
        assert_eq!(get_preceding_week(judgment_date), (monday, sunday));
        assert_eq!(preceding_week(judgment_date), Some((monday, sunday)));
    }
    let next = CalendarDate::from_ymd(2024, 1, 15).unwrap();
    assert_eq!(
        get_preceding_week(next),
        (
            CalendarDate::from_ymd(2024, 1, 8).unwrap(),
            CalendarDate::from_ymd(2024, 1, 14).unwrap()
        )
    );
    // Across the turn of a year.
    let new_year = CalendarDate::from_ymd(2025, 1, 1).unwrap();
    assert_eq!(
        get_preceding_week(new_year),
        (
            CalendarDate::from_ymd(2024, 12, 23).unwrap(),
            CalendarDate::from_ymd(2024, 12, 29).unwrap()
        )
    );
}

#[test]
fn the_first_days_have_no_preceding_week() {
    // The first day of the calendar is a Thursday; its first Monday comes
    // four days later and begins the first whole week.
    let first = CalendarDate::from_day_number(MIN_DAY).unwrap();
    assert_eq!(first.days_from_monday(), 3);
    assert_eq!(preceding_week(first), None);
    for k in 0..=10 {
        let day = CalendarDate::from_day_number(MIN_DAY + k).unwrap();
        assert_eq!(preceding_week(day), None, "{}", k);
    }
    let first_monday = CalendarDate::from_day_number(MIN_DAY + 4).unwrap();
    let first_sunday = CalendarDate::from_day_number(MIN_DAY + 10).unwrap();
    for k in 11..=17 {
        let day = CalendarDate::from_day_number(MIN_DAY + k).unwrap();
        assert_eq!(preceding_week(day), Some((first_monday, first_sunday)), "{}", k);
    }
}

#[test]
fn average_rate_ignores_the_placeholder() {
    let rate = calculate_average_rate(&observations(&["4.5", ".", "4.7"]));
    assert_eq!(rate, Ok(Rate::from_units(46_000_000_000)));
}

#[test]
fn average_rate_needs_an_observation() {
    assert_eq!(calculate_average_rate(&Vec::new()), Err(FetchError::NoValidObservations));
    assert_eq!(
        calculate_average_rate(&observations(&["."])),
        Err(FetchError::NoValidObservations)
    );
    assert_eq!(
        calculate_average_rate(&observations(&[".", "n/a", ""])),
        Err(FetchError::NoValidObservations)
    );
}

#[test]
fn average_rate_is_the_rounded_mean() {
    assert_eq!(calculate_average_rate(&observations(&["5.25"])), Ok(Rate::from_units(52_500_000_000)));
    // (4.53 + 4.55 + 4.52) / 3 = 4.5333...
    assert_eq!(
        calculate_average_rate(&observations(&["4.53", "4.55", "4.52"])),
        Ok(Rate::from_units(45_333_333_333))
    );
    // (4.53 + 4.55 + 4.54 + 4.55 + 4.53 + 4.54 + 4.56) / 7 = 4.542857142...
    assert_eq!(
        calculate_average_rate(&observations(&[
            "4.53", "4.55", "4.54", "4.55", "4.53", "4.54", "4.56"
        ])),
        Ok(Rate::from_units(45_428_571_429))
    );
    // Half a unit goes away from zero.
    assert_eq!(
        calculate_average_rate(&observations(&["0.0000000001", "0.0000000002"])),
        Ok(Rate::from_units(2))
    );
    assert_eq!(
        calculate_average_rate(&observations(&["-0.0000000001", "-0.0000000002"])),
        Ok(Rate::from_units(-2))
    );
    // What is no number is passed over.
    assert_eq!(
        calculate_average_rate(&observations(&["4.5", "unknown", "4.7", "."])),
        Ok(Rate::from_units(46_000_000_000))
    );
    // The ends of the range average to themselves.
    assert_eq!(
        calculate_average_rate(&observations(&[
            "922337203.6854775807",
            "922337203.6854775807"
        ])),
        Ok(Rate::from_units(i64::MAX))
    );
    assert_eq!(
        calculate_average_rate(&observations(&[
            "-922337203.6854775808",
            "-922337203.6854775808"
        ])),
        Ok(Rate::from_units(i64::MIN))
    );
}

#[test]
fn fallback_rate_is_five_percent() {
    assert_eq!(get_fallback_federal_rate(), Rate::from_units(50_000_000_000));
}

#[test]
fn observations_are_asked_for_by_address() {
    let start = CalendarDate::from_ymd(2024, 1, 1).unwrap();
    let end = CalendarDate::from_ymd(2024, 1, 7).unwrap();
    assert_eq!(
        observations_url("abc123", start, end),
        Some(
            "https://api.stlouisfed.org/fred/series/observations?series_id=DGS1&api_key=abc123&file_type=json&observation_start=2024-01-01&observation_end=2024-01-07"
                .to_string()
        )
    );
    assert_eq!(
        validation_url("abc123"),
        "https://api.stlouisfed.org/fred/series?series_id=DGS1&api_key=abc123&file_type=json"
    );
}

#[test]
fn federal_rate_asks_once_and_averages() {
    let judgment_date = CalendarDate::from_ymd(2024, 1, 10).unwrap();
    let url = "https://api.stlouisfed.org/fred/series/observations?series_id=DGS1&api_key=key&file_type=json&observation_start=2024-01-01&observation_end=2024-01-07";
    assert_eq!(federal_rate_query(judgment_date, "key"), Ok(url.to_string()));
    assert_eq!(
        get_federal_rate(judgment_date, "key", &None),
        FederalStep::Fetch(url.to_string())
    );
    let answer = Some(Ok(response(&["4.5", ".", "4.7"])));
    assert_eq!(
        get_federal_rate(judgment_date, "key", &answer),
        FederalStep::Finished(Ok(Rate::from_units(46_000_000_000)))
    );
}

#[test]
fn federal_rate_reports_each_failure() {
    let judgment_date = CalendarDate::from_ymd(2024, 1, 10).unwrap();
    // No key: nothing is asked, whatever the answer would be.
    assert_eq!(
        get_federal_rate(judgment_date, "", &None),
        FederalStep::Finished(Err(FetchError::ApiKeyMissing))
    );
    assert_eq!(
        get_federal_rate(judgment_date, "", &Some(Ok(response(&["4.5"])))),
        FederalStep::Finished(Err(FetchError::ApiKeyMissing))
    );
    assert_eq!(federal_rate_query(judgment_date, ""), Err(FetchError::ApiKeyMissing));
    for error in [
        FetchError::RequestError("connection refused".to_string()),
        FetchError::ParseError("expected value at line 1 column 1".to_string()),
    ] {
        assert_eq!(
            get_federal_rate(judgment_date, "key", &Some(Err(error.clone()))),
            FederalStep::Finished(Err(error))
        );
    }
    assert_eq!(
        get_federal_rate(judgment_date, "key", &Some(Ok(response(&[".", "."])))),
        FederalStep::Finished(Err(FetchError::NoValidObservations))
    );
    // No week before the first week of the calendar.
    let first = CalendarDate::from_day_number(MIN_DAY).unwrap();
    let no_week =
        FetchError::DateError("the week before the judgment is out of range".to_string());
    assert_eq!(
        get_federal_rate(first, "key", &None),
        FederalStep::Finished(Err(no_week.clone()))
    );
    assert_eq!(federal_rate_query(first, "key"), Err(no_week));
}

#[test]
fn fetch_errors_are_put_in_words() {
    assert_eq!(
        FetchError::RequestError("timed out".to_string()).message(),
        "API request failed: timed out"
    );
    assert_eq!(
        FetchError::ParseError("bad body".to_string()).message(),
        "Failed to parse response: bad body"
    );
    assert_eq!(
        FetchError::DateError("bad date".to_string()).message(),
        "Failed to parse date: bad date"
    );
    assert_eq!(FetchError::NoValidObservations.message(), "No valid observations found");
    assert_eq!(FetchError::ApiKeyMissing.message(), "API key not configured");
}

fn status(code: u16, text: &str) -> HttpStatus {
    HttpStatus { code, text: text.to_string() }
}

#[test]
fn an_empty_key_is_refused_without_asking() {
    assert_eq!(validate_api_key("", &None), ValidationStep::Finished(Ok(false)));
    assert_eq!(
        validate_api_key("", &Some(ProbeOutcome::Response(status(200, "200 OK")))),
        ValidationStep::Finished(Ok(false))
    );
}

#[test]
fn a_key_is_validated_by_asking() {
    assert_eq!(
        validate_api_key("abc123", &None),
        ValidationStep::Probe(
            "https://api.stlouisfed.org/fred/series?series_id=DGS1&api_key=abc123&file_type=json"
                .to_string()
        )
    );
    for (code, text) in [(200, "200 OK"), (204, "204 No Content"), (299, "299 <unknown status code>")]
    {
        assert_eq!(
            validate_api_key("abc123", &Some(ProbeOutcome::Response(status(code, text)))),
            ValidationStep::Finished(Ok(true)),
            "{}",
            code
        );
    }
    for (code, text) in [(400, "400 Bad Request"), (403, "403 Forbidden")] {
        assert_eq!(
            validate_api_key("abc123", &Some(ProbeOutcome::Response(status(code, text)))),
            ValidationStep::Finished(Ok(false)),
            "{}",
            code
        );
    }
}

#[test]
fn an_answer_with_another_status_settles_nothing() {
    for (code, text) in [
        (199, "199 <unknown status code>"),
        (300, "300 Multiple Choices"),
        (401, "401 Unauthorized"),
        (404, "404 Not Found"),
        (429, "429 Too Many Requests"),
        (500, "500 Internal Server Error"),
        (503, "503 Service Unavailable"),
    ] {
        assert_eq!(
            validate_api_key("abc123", &Some(ProbeOutcome::Response(status(code, text)))),
            ValidationStep::Finished(Err(FetchError::RequestError(format!("HTTP error: {}", text)))),
            "{}",
            code
        );
    }
}

#[test]
fn a_failed_question_refuses_or_settles_nothing() {
    let failure = |code: u16, text: &str| {
        Some(ProbeOutcome::Failure {
            status: Some(status(code, text)),
            detail: "HTTP status client error".to_string(),
        })
    };
    assert_eq!(
        validate_api_key("abc123", &failure(400, "400 Bad Request")),
        ValidationStep::Finished(Ok(false))
    );
    assert_eq!(
        validate_api_key("abc123", &failure(403, "403 Forbidden")),
        ValidationStep::Finished(Ok(false))
    );
    assert_eq!(
        validate_api_key("abc123", &failure(500, "500 Internal Server Error")),
        ValidationStep::Finished(Err(FetchError::RequestError(
            "HTTP error: 500 Internal Server Error".to_string()
        )))
    );
    assert_eq!(
        validate_api_key("abc123", &failure(404, "404 Not Found")),
        ValidationStep::Finished(Err(FetchError::RequestError(
            "HTTP error: 404 Not Found".to_string()
        )))
    );
    // A failure never accepts the key, whatever status it carries.
    assert_eq!(
        validate_api_key("abc123", &failure(200, "200 OK")),
        ValidationStep::Finished(Err(FetchError::RequestError("HTTP error: 200 OK".to_string())))
    );
    let unreachable = Some(ProbeOutcome::Failure {
        status: None,
        detail: "error sending request".to_string(),
    });
    assert_eq!(
        validate_api_key("abc123", &unreachable),
        ValidationStep::Finished(Err(FetchError::RequestError(
            "Request failed: error sending request".to_string()
        )))
    );
}
