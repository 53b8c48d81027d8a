//! The federal rate: the 1-year Treasury rate that the rate source
//! publishes, averaged over the week before a judgment.
//!
//! Nothing here talks to the rate source. The functions say which query to
//! send and what to make of the answer.

use vstd::prelude::*;
use crate::amounts::{Percent, Rate};
use crate::dates::{iso_date_text, valid_day_number, weekday_index, CalendarDate};
use crate::decimal::{decimal_units, parse_percent};
use crate::models::{observed_values, FredObservation, FredResponse};
use crate::rounding::{lemma_round_half_away_bounded, round_div_signed, round_half_away};

verus! {

/// Why no federal rate was had.
#[derive(Debug, PartialEq, Eq)]
pub enum FetchError {
    /// The query could not be sent, or no answer came.
    RequestError(String),
    /// The answer could not be read.
    ParseError(String),
    /// A date of the query could not be had.
    DateError(String),
    /// No day of the answer holds a rate.
    NoValidObservations,
    /// There is no key to query with.
    ApiKeyMissing,
}

/// A [`FetchError`] with its texts as sequences of characters.
pub enum FetchErrorView {
    RequestError(Seq<char>),
    ParseError(Seq<char>),
    DateError(Seq<char>),
    NoValidObservations,
    ApiKeyMissing,
}

impl View for FetchError {
    type V = FetchErrorView;

    open spec fn view(&self) -> FetchErrorView {
        match self {
            FetchError::RequestError(why) => FetchErrorView::RequestError(why@),
            FetchError::ParseError(why) => FetchErrorView::ParseError(why@),
            FetchError::DateError(why) => FetchErrorView::DateError(why@),
            FetchError::NoValidObservations => FetchErrorView::NoValidObservations,
            FetchError::ApiKeyMissing => FetchErrorView::ApiKeyMissing,
        }
    }
}

impl FetchErrorView {
    /// The error in words.
    pub open spec fn message(self) -> Seq<char> {
        match self {
            FetchErrorView::RequestError(why) => "API request failed: "@ + why,
            FetchErrorView::ParseError(why) => "Failed to parse response: "@ + why,
            FetchErrorView::DateError(why) => "Failed to parse date: "@ + why,
            FetchErrorView::NoValidObservations => "No valid observations found"@,
            FetchErrorView::ApiKeyMissing => "API key not configured"@,
        }
    }
}

impl Clone for FetchError {
    fn clone(&self) -> (copy: FetchError)
        ensures
            copy@ == self@,
    {
        match self {
            FetchError::RequestError(why) => FetchError::RequestError(why.clone()),
            FetchError::ParseError(why) => FetchError::ParseError(why.clone()),
            FetchError::DateError(why) => FetchError::DateError(why.clone()),
            FetchError::NoValidObservations => FetchError::NoValidObservations,
            FetchError::ApiKeyMissing => FetchError::ApiKeyMissing,
        }
    }
}

impl FetchError {
    /// The error in words.
    pub fn message(&self) -> (text: String)
        ensures
            text@ == self@.message(),
    {
        match self {
            FetchError::RequestError(why) => "API request failed: ".to_owned().concat(
                why.as_str(),
            ),
            FetchError::ParseError(why) => "Failed to parse response: ".to_owned().concat(
                why.as_str(),
            ),
            FetchError::DateError(why) => "Failed to parse date: ".to_owned().concat(why.as_str()),
            FetchError::NoValidObservations => "No valid observations found".to_owned(),
            FetchError::ApiKeyMissing => "API key not configured".to_owned(),
        }
    }
}

/// The day number of the Monday that begins the week before the week of
/// the day numbered `day`.
pub open spec fn preceding_monday(day: int) -> int {
    day - (weekday_index(day) + 7)
}

/// The day number of the Sunday that ends the week before the week of the
/// day numbered `day`.
pub open spec fn preceding_sunday(day: int) -> int {
    preceding_monday(day) + 6
}

/// Whether the week before the week of the day numbered `day` lies within
/// the calendar.
pub open spec fn has_preceding_week(day: int) -> bool {
    valid_day_number(preceding_monday(day))
}

/// The week before the week of `judgment_date`, from its Monday to its
/// Sunday, or `None` where the calendar does not reach back so far.
pub fn preceding_week(judgment_date: CalendarDate) -> (week: Option<(CalendarDate, CalendarDate)>)
    ensures
        week is Some <==> has_preceding_week(judgment_date@),
        week matches Some(w) ==> w.0@ == preceding_monday(judgment_date@) && w.1@
            == preceding_sunday(judgment_date@),
{
    let days_since_monday = judgment_date.days_from_monday();
    let last_monday = judgment_date.day_number() - (days_since_monday as i32 + 7);
    let last_sunday = last_monday + 6;
    match (CalendarDate::from_day_number(last_monday), CalendarDate::from_day_number(last_sunday)) {
        (Some(monday), Some(sunday)) => Some((monday, sunday)),
        _ => None,
    }
}

/// The week before the week of `judgment_date`, from its Monday to its
/// Sunday: the last whole week that was over when the week of the judgment
/// began.
pub fn get_preceding_week(judgment_date: CalendarDate) -> (week: (CalendarDate, CalendarDate))
    requires
        has_preceding_week(judgment_date@),
    ensures
        week.0@ == preceding_monday(judgment_date@),
        week.1@ == preceding_sunday(judgment_date@),
{
    preceding_week(judgment_date).unwrap()
}

/// The preceding week is a week and is the one before: it runs from a
/// Monday to the Sunday six days later, and the day after that Sunday is
/// the Monday of the week that holds the day itself.
pub proof fn lemma_preceding_week_is_the_week_before(day: int)
    ensures
        weekday_index(preceding_monday(day)) == 0,
        weekday_index(preceding_sunday(day)) == 6,
        preceding_sunday(day) == preceding_monday(day) + 6,
        weekday_index(preceding_sunday(day) + 1) == 0,
        preceding_sunday(day) + 1 <= day <= preceding_sunday(day) + 7,
{
}

/// The address that answers with the observations of the 1-year Treasury
/// rate from the day written `start` to the day written `end`.
pub open spec fn observations_url_text(
    api_key: Seq<char>,
    start: Seq<char>,
    end: Seq<char>,
) -> Seq<char> {
    "https://api.stlouisfed.org/fred/series/observations?series_id=DGS1&api_key="@ + api_key
        + "&file_type=json&observation_start="@ + start + "&observation_end="@ + end
}

/// The address to ask for the observations of the 1-year Treasury rate
/// from `start` to `end`, or `None` where the calendar cannot write one of
/// the two dates.
pub fn observations_url(api_key: &str, start: CalendarDate, end: CalendarDate) -> (url: Option<
    String,
>)
    ensures
        url is Some <==> iso_date_text(start@ as i32) is Some && iso_date_text(end@ as i32)
            is Some,
        url matches Some(u) ==> u@ == observations_url_text(
            api_key@,
            iso_date_text(start@ as i32).unwrap(),
            iso_date_text(end@ as i32).unwrap(),
        ),
{
    let first = start.iso_text();
    let last = end.iso_text();
    match (first, last) {
        (Some(first), Some(last)) => {
            let mut url =
                "https://api.stlouisfed.org/fred/series/observations?series_id=DGS1&api_key=".to_owned();
            url.append(api_key);
            url.append("&file_type=json&observation_start=");
            url.append(first.as_str());
            url.append("&observation_end=");
            url.append(last.as_str());
            Some(url)
        },
        _ => None,
    }
}

/// The address that answers whether a key is accepted.
pub open spec fn validation_url_text(api_key: Seq<char>) -> Seq<char> {
    "https://api.stlouisfed.org/fred/series?series_id=DGS1&api_key="@ + api_key
        + "&file_type=json"@
}

/// The address to ask whether `api_key` is accepted.
pub fn validation_url(api_key: &str) -> (url: String)
    ensures
        url@ == validation_url_text(api_key@),
{
    let mut url = "https://api.stlouisfed.org/fred/series?series_id=DGS1&api_key=".to_owned();
    url.append(api_key);
    url.append("&file_type=json");
    url
}

/// The rate to go by where the federal rate cannot be had: 0.05, which is
/// five percent.
pub const FALLBACK_FEDERAL_RATE: i64 = 50_000_000_000;

/// The rate to go by where the federal rate cannot be had.
pub fn get_fallback_federal_rate() -> (rate: Rate)
    ensures
        rate@ == FALLBACK_FEDERAL_RATE,
{
    Rate { units: FALLBACK_FEDERAL_RATE }
}

/// The percentage that an observation's value stands for, in
/// ten-billionths of a percent: none for the single full stop that marks a
/// day without data, and none for a value that is no decimal number.
pub open spec fn observed_percent(value: Seq<char>) -> Option<int> {
    if value == seq!['.'] {
        None
    } else {
        decimal_units(value)
    }
}

/// The percentages among `values`, in order, without the values that stand
/// for none.
pub open spec fn valid_percents(values: Seq<Seq<char>>) -> Seq<int>
    decreases values.len(),
{
    if values.len() == 0 {
        Seq::empty()
    } else {
        match observed_percent(values.last()) {
            Some(percent) => valid_percents(values.drop_last()).push(percent),
            None => valid_percents(values.drop_last()),
        }
    }
}

/// The sum of a run of numbers.
pub open spec fn sum_of(numbers: Seq<int>) -> int
    decreases numbers.len(),
{
    if numbers.len() == 0 {
        0
    } else {
        sum_of(numbers.drop_last()) + numbers.last()
    }
}

/// The mean of the percentages among `values`, as a decimal fraction in
/// trillionths and rounded to the nearest of them, or `None` where no value
/// stands for a percentage. A mean of 4.6 percent is the rate 0.046.
pub open spec fn average_rate(values: Seq<Seq<char>>) -> Option<int> {
    let percents = valid_percents(values);
    if percents.len() == 0 {
        None
    } else {
        Some(round_half_away(sum_of(percents), percents.len() as int))
    }
}

/// There is no average exactly where no value stands for a percentage:
/// one such value is enough for a rate.
pub proof fn lemma_average_needs_one_percentage(values: Seq<Seq<char>>)
    ensures
        average_rate(values) is None <==> (forall|i: int|
            0 <= i < values.len() ==> observed_percent(#[trigger] values[i]) is None),
    decreases values.len(),
{
    if values.len() > 0 {
        let rest = values.drop_last();
        lemma_average_needs_one_percentage(rest);
        assert forall|i: int| 0 <= i < rest.len() implies rest[i] == values[i] by {}
        if observed_percent(values.last()) is None && average_rate(rest) is None {
            assert forall|i: int| 0 <= i < values.len() implies observed_percent(
                #[trigger] values[i],
            ) is None by {
                if i < rest.len() {
                    assert(rest[i] == values[i]);
                }
            }
        }
        if average_rate(rest) is Some {
            let i = choose|i: int| 0 <= i < rest.len() && observed_percent(#[trigger] rest[i]) is Some;
            assert(values[i] == rest[i]);
        }
    }
}

/// The percentage that an observation holds, if it holds one.
fn observation_percent(observation: &FredObservation) -> (percent: Option<Percent>)
    ensures
        percent is Some <==> observed_percent(observation.value@) is Some,
        percent matches Some(p) ==> observed_percent(observation.value@) == Some(p@),
{
    let placeholder = ".".to_owned();
    proof {
        reveal_strlit(".");
        assert(placeholder@ =~= seq!['.']);
    }
    if observation.value == placeholder {
        None
    } else {
        parse_percent(observation.value.as_str())
    }
}

/// The federal rate that a week's observations give: the mean of the
/// percentages they hold, as a decimal fraction. Days without data and
/// values that are no numbers are left out; where nothing is left, the
/// error is [`FetchError::NoValidObservations`].
pub fn calculate_average_rate(observations: &Vec<FredObservation>) -> (rate: Result<
    Rate,
    FetchError,
>)
    ensures
        average_rate(observed_values(observations@)) matches Some(mean) ==> (rate matches Ok(r)
            && r@ == mean),
        average_rate(observed_values(observations@)) is None ==> (rate matches Err(e) && e@
            == FetchErrorView::NoValidObservations),
{
    let ghost values = observed_values(observations@);
    let mut total: i128 = 0;
    let mut count: usize = 0;
    let mut i: usize = 0;
    while i < observations.len()
        invariant
            i <= observations.len(),
            values == observed_values(observations@),
            count <= i,
            count == valid_percents(values.take(i as int)).len(),
            total == sum_of(valid_percents(values.take(i as int))),
            count * i64::MIN <= total <= count * i64::MAX,
        decreases observations.len() - i,
    {
        proof {
            let longer = values.take(i + 1);
            assert(longer.drop_last() =~= values.take(i as int));
            assert(longer.last() == observations@[i as int].value@);
        }
        match observation_percent(&observations[i]) {
            Some(percent) => {
                proof {
                    let kept = valid_percents(values.take(i as int)).push(percent@);
                    assert(kept.drop_last() =~= valid_percents(values.take(i as int)));
                }
                total = total + percent.units as i128;
                count = count + 1;
            },
            None => {},
        }
        i = i + 1;
    }
    assert(values.take(i as int) =~= values);
    if count == 0 {
        Err(FetchError::NoValidObservations)
    } else {
        proof {
            lemma_round_half_away_bounded(total as int, count as int, i64::MIN as int, i64::MAX as int);
        }
        let mean = round_div_signed(total, count as u128);
        Ok(Percent { units: mean as i64 }.as_rate())
    }
}

/// The next thing to do about the federal rate.
#[derive(Debug, PartialEq, Eq)]
pub enum FederalStep {
    /// Ask the rate source at this address, and come back with its answer.
    Fetch(String),
    /// Nothing is left to do: this is the rate, or the reason why there is
    /// none.
    Finished(Result<Rate, FetchError>),
}

/// A [`FederalStep`] with its texts as sequences of characters and its
/// rate as a count.
pub enum FederalStepView {
    Fetch(Seq<char>),
    Finished(Result<int, FetchErrorView>),
}

impl View for FederalStep {
    type V = FederalStepView;

    open spec fn view(&self) -> FederalStepView {
        match self {
            FederalStep::Fetch(url) => FederalStepView::Fetch(url@),
            FederalStep::Finished(Ok(rate)) => FederalStepView::Finished(Ok(rate@)),
            FederalStep::Finished(Err(error)) => FederalStepView::Finished(Err(error@)),
        }
    }
}

/// What the rate source has answered so far: nothing yet, the values of
/// its observations, or the reason why it gave none.
pub open spec fn fetched_values(fetched: Option<Result<FredResponse, FetchError>>) -> Option<
    Result<Seq<Seq<char>>, FetchErrorView>,
> {
    match fetched {
        None => None,
        Some(Ok(response)) => Some(Ok(observed_values(response.observations@))),
        Some(Err(error)) => Some(Err(error@)),
    }
}

/// The words for a week that the calendar does not hold or cannot write.
pub open spec fn no_week_text() -> Seq<char> {
    "the week before the judgment is out of range"@
}

/// The address to ask for the week before the judgment, or the reason why
/// nothing can be asked: there is no key, or the calendar does not hold
/// that week.
pub open spec fn federal_query(day: int, api_key: Seq<char>) -> Result<Seq<char>, FetchErrorView> {
    if api_key.len() == 0 {
        Err(FetchErrorView::ApiKeyMissing)
    } else if !has_preceding_week(day) {
        Err(FetchErrorView::DateError(no_week_text()))
    } else {
        match (
            iso_date_text(preceding_monday(day) as i32),
            iso_date_text(preceding_sunday(day) as i32),
        ) {
            (Some(monday), Some(sunday)) => Ok(observations_url_text(api_key, monday, sunday)),
            _ => Err(FetchErrorView::DateError(no_week_text())),
        }
    }
}

/// The federal rate that the values of a week's observations give.
pub open spec fn federal_rate_of(values: Seq<Seq<char>>) -> Result<int, FetchErrorView> {
    match average_rate(values) {
        Some(mean) => Ok(mean),
        None => Err(FetchErrorView::NoValidObservations),
    }
}

/// The next thing to do about the federal rate for a judgment on the day
/// numbered `day`, given the key and what the rate source has answered so
/// far. Without a key, or without a week to ask for, nothing is asked.
/// Otherwise the rate source is asked once, and its answer decides.
pub open spec fn federal_step(
    day: int,
    api_key: Seq<char>,
    fetched: Option<Result<Seq<Seq<char>>, FetchErrorView>>,
) -> FederalStepView {
    match federal_query(day, api_key) {
        Err(error) => FederalStepView::Finished(Err(error)),
        Ok(url) => match fetched {
            None => FederalStepView::Fetch(url),
            Some(Err(error)) => FederalStepView::Finished(Err(error)),
            Some(Ok(values)) => FederalStepView::Finished(federal_rate_of(values)),
        },
    }
}

/// The address to ask for the week before `judgment_date`, or the reason
/// why nothing can be asked.
pub fn federal_rate_query(judgment_date: CalendarDate, api_key: &str) -> (query: Result<
    String,
    FetchError,
>)
    ensures
        query matches Ok(url) ==> (federal_query(judgment_date@, api_key@) matches Ok(u) && u
            == url@),
        query matches Err(error) ==> (federal_query(judgment_date@, api_key@) matches Err(e)
            && e == error@),
{
    if api_key.is_empty() {
        return Err(FetchError::ApiKeyMissing);
    }
    match preceding_week(judgment_date) {
        None => Err(FetchError::DateError("the week before the judgment is out of range".to_owned())),
        Some((start_date, end_date)) => match observations_url(api_key, start_date, end_date) {
            Some(url) => Ok(url),
            None => Err(
                FetchError::DateError("the week before the judgment is out of range".to_owned()),
            ),
        },
    }
}

/// The federal rate for a judgment of `judgment_date`: the mean of the
/// 1-year Treasury rate over the week before the week of the judgment.
///
/// `fetched` is what the rate source has answered, `None` before it was
/// asked. The result says what to do next: ask the rate source at an
/// address and call again with its answer, or stop with the rate or with
/// the reason why there is none.
pub fn get_federal_rate(
    judgment_date: CalendarDate,
    api_key: &str,
    fetched: &Option<Result<FredResponse, FetchError>>,
) -> (step: FederalStep)
    ensures
        step@ == federal_step(judgment_date@, api_key@, fetched_values(*fetched)),
{
    match federal_rate_query(judgment_date, api_key) {
        Err(error) => FederalStep::Finished(Err(error)),
        Ok(url) => match fetched {
            None => FederalStep::Fetch(url),
            Some(Err(error)) => FederalStep::Finished(Err(error.clone())),
            Some(Ok(response)) => FederalStep::Finished(
                calculate_average_rate(&response.observations),
            ),
        },
    }
}

/// The status of an answer of the rate source.
#[derive(Debug, PartialEq, Eq)]
pub struct HttpStatus {
    /// The status code, such as 404.
    pub code: u16,
    /// The status in words, such as `404 Not Found`.
    pub text: String,
}

/// What came of asking the rate source whether a key is accepted.
#[derive(Debug, PartialEq, Eq)]
pub enum ProbeOutcome {
    /// An answer came, with this status.
    Response(HttpStatus),
    /// No answer was had. `status` is the status that the failure carries,
    /// where it carries one, and `detail` the failure in words.
    Failure { status: Option<HttpStatus>, detail: String },
}

/// A [`ProbeOutcome`] with its texts as sequences of characters.
pub enum ProbeOutcomeView {
    Response { code: int, text: Seq<char> },
    Failure { status: Option<(int, Seq<char>)>, detail: Seq<char> },
}

impl View for ProbeOutcome {
    type V = ProbeOutcomeView;

    open spec fn view(&self) -> ProbeOutcomeView {
        match self {
            ProbeOutcome::Response(status) => ProbeOutcomeView::Response {
                code: status.code as int,
                text: status.text@,
            },
            ProbeOutcome::Failure { status: Some(status), detail } => ProbeOutcomeView::Failure {
                status: Some((status.code as int, status.text@)),
                detail: detail@,
            },
            ProbeOutcome::Failure { status: None, detail } => ProbeOutcomeView::Failure {
                status: None,
                detail: detail@,
            },
        }
    }
}

/// The next thing to do about a key that is to be validated.
#[derive(Debug, PartialEq, Eq)]
pub enum ValidationStep {
    /// Ask the rate source at this address, and come back with what came
    /// of it.
    Probe(String),
    /// Nothing is left to do: the key is accepted or not, or the question
    /// could not be settled.
    Finished(Result<bool, FetchError>),
}

/// A [`ValidationStep`] with its texts as sequences of characters.
pub enum ValidationStepView {
    Probe(Seq<char>),
    Finished(Result<bool, FetchErrorView>),
}

impl View for ValidationStep {
    type V = ValidationStepView;

    open spec fn view(&self) -> ValidationStepView {
        match self {
            ValidationStep::Probe(url) => ValidationStepView::Probe(url@),
            ValidationStep::Finished(Ok(accepted)) => ValidationStepView::Finished(Ok(*accepted)),
            ValidationStep::Finished(Err(error)) => ValidationStepView::Finished(Err(error@)),
        }
    }
}

/// What the rate source has said of a key so far, if it was asked.
pub open spec fn probed(probe: Option<ProbeOutcome>) -> Option<ProbeOutcomeView> {
    match probe {
        None => None,
        Some(outcome) => Some(outcome@),
    }
}

/// Whether a status code reports success: 200 to 299.
pub open spec fn is_success(code: int) -> bool {
    200 <= code < 300
}

/// Whether a status code refuses the key: 400 or 403.
pub open spec fn is_refusal(code: int) -> bool {
    code == 400 || code == 403
}

/// The error for a status that neither accepts nor refuses the key.
pub open spec fn status_error(text: Seq<char>) -> FetchErrorView {
    FetchErrorView::RequestError("HTTP error: "@ + text)
}

/// What the outcome of the question says of the key. An answer accepts the
/// key where its status reports success and refuses it where its status is
/// 400 or 403; an answer with any other status settles nothing and is an
/// error. A failure never accepts the key: it refuses it where it carries
/// the status 400 or 403, and is an error otherwise.
pub open spec fn validation_verdict(outcome: ProbeOutcomeView) -> Result<bool, FetchErrorView> {
    match outcome {
        ProbeOutcomeView::Response { code, text } => if is_success(code) {
            Ok(true)
        } else if is_refusal(code) {
            Ok(false)
        } else {
            Err(status_error(text))
        },
        ProbeOutcomeView::Failure { status: Some((code, text)), detail } => if is_refusal(code) {
            Ok(false)
        } else {
            Err(status_error(text))
        },
        ProbeOutcomeView::Failure { status: None, detail } => Err(
            FetchErrorView::RequestError("Request failed: "@ + detail),
        ),
    }
}

/// The next thing to do about `api_key`, given what the rate source has
/// said of it so far. An empty key is refused without asking.
pub open spec fn validation_step(
    api_key: Seq<char>,
    probe: Option<ProbeOutcomeView>,
) -> ValidationStepView {
    if api_key.len() == 0 {
        ValidationStepView::Finished(Ok(false))
    } else {
        match probe {
            None => ValidationStepView::Probe(validation_url_text(api_key)),
            Some(outcome) => ValidationStepView::Finished(validation_verdict(outcome)),
        }
    }
}

/// Whether a status that came with no acceptance refuses the key, or the
/// error where it does not.
fn refusal_or_error(status: &HttpStatus) -> (verdict: Result<bool, FetchError>)
    ensures
        is_refusal(status.code as int) ==> (verdict matches Ok(accepted) && !accepted),
        !is_refusal(status.code as int) ==> (verdict matches Err(error) && error@ == status_error(
            status.text@,
        )),
{
    if status.code == 400 || status.code == 403 {
        Ok(false)
    } else {
        Err(FetchError::RequestError("HTTP error: ".to_owned().concat(status.text.as_str())))
    }
}

/// Whether the rate source accepts `api_key`.
///
/// `probe` is what came of asking the rate source, `None` before it was
/// asked. The result says what to do next: ask at an address and call
/// again with the outcome, or stop with the verdict or with the reason why
/// there is none.
pub fn validate_api_key(api_key: &str, probe: &Option<ProbeOutcome>) -> (step: ValidationStep)
    ensures
        step@ == validation_step(api_key@, probed(*probe)),
{
    if api_key.is_empty() {
        return ValidationStep::Finished(Ok(false));
    }
    match probe {
        None => ValidationStep::Probe(validation_url(api_key)),
        Some(ProbeOutcome::Response(status)) => {
            if 200 <= status.code && status.code < 300 {
                ValidationStep::Finished(Ok(true))
            } else {
                ValidationStep::Finished(refusal_or_error(status))
            }
        },
        Some(ProbeOutcome::Failure { status: Some(status), detail }) => ValidationStep::Finished(
            refusal_or_error(status),
        ),
        Some(ProbeOutcome::Failure { status: None, detail }) => ValidationStep::Finished(
            Err(FetchError::RequestError("Request failed: ".to_owned().concat(detail.as_str()))),
        ),
    }
}

/// A key that is not empty is accepted exactly where the rate source
/// answered with a status of success, and refused exactly where it answered
/// or failed with the status 400 or 403. Whatever else came of the question
/// is an error and neither of the two. That holds of a failure without a
/// status and of any other status, such as 404 or 500, whether it came as
/// an answer or with a failure.
pub proof fn lemma_verdict_needs_success_or_refusal(api_key: Seq<char>, outcome: ProbeOutcomeView)
    requires
        api_key.len() > 0,
    ensures
        validation_step(api_key, Some(outcome)) == ValidationStepView::Finished(Ok(true)) <==> (
        outcome matches ProbeOutcomeView::Response { code, .. } && is_success(code)),
        validation_step(api_key, Some(outcome)) == ValidationStepView::Finished(Ok(false)) <==> (
        match outcome {
            ProbeOutcomeView::Response { code, .. } => is_refusal(code),
            ProbeOutcomeView::Failure { status: Some((code, _)), .. } => is_refusal(code),
            ProbeOutcomeView::Failure { status: None, .. } => false,
        }),
        validation_step(api_key, Some(outcome)) matches ValidationStepView::Finished(Err(error))
            ==> error is RequestError,
{
}

} // verus!
