//! The operations that the library offers: a calculation, and the key of
//! the rate source as the configuration holds it.
//!
//! Nothing here reads a file, a database or the network. An operation that
//! needs one of them says so in its result and is called again with what was
//! found.

use vstd::prelude::*;
use crate::amounts::{Money, Rate};
use crate::calculator::{calculate_days_between, interest_cents, interest_fits, try_compute_interest};
use crate::dates::{parsed_day, CalendarDate};
use crate::decimal::{format_percent, percent_text};
use crate::models::{
    CalcRequest,
    CalcRequestView,
    CalcResponse,
    CalcResponseView,
    FredResponse,
    StateRate,
    StateRateView,
};
use crate::rate_fetcher::{
    federal_step,
    fetched_values,
    get_fallback_federal_rate,
    get_federal_rate,
    FederalStep,
    FederalStepView,
    FetchError,
    FetchErrorView,
    FALLBACK_FEDERAL_RATE,
};

verus! {

/// What stands under a name in a JSON document.
#[derive(Debug, PartialEq, Eq)]
pub enum JsonMember {
    /// The document holds no object, or the object no member of that name.
    Missing,
    Null,
    Bool(bool),
    Number,
    Text(String),
    Array,
    Object,
}

/// A [`JsonMember`] with its text as a sequence of characters.
pub enum JsonMemberView {
    Missing,
    Null,
    Bool(bool),
    Number,
    Text(Seq<char>),
    Array,
    Object,
}

impl View for JsonMember {
    type V = JsonMemberView;

    open spec fn view(&self) -> JsonMemberView {
        match self {
            JsonMember::Missing => JsonMemberView::Missing,
            JsonMember::Null => JsonMemberView::Null,
            JsonMember::Bool(b) => JsonMemberView::Bool(*b),
            JsonMember::Number => JsonMemberView::Number,
            JsonMember::Text(text) => JsonMemberView::Text(text@),
            JsonMember::Array => JsonMemberView::Array,
            JsonMember::Object => JsonMemberView::Object,
        }
    }
}

/// What serde_json finds under `name` in the JSON document `document`, or
/// the words of its refusal where the document is no JSON.
pub uninterp spec fn json_member(document: Seq<char>, name: Seq<char>) -> Result<JsonMemberView, Seq<char>>;

/// The JSON document that serde_json writes, in its pretty form, for an
/// object with the one member `name`, a text `value`; or the words of its
/// refusal.
pub uninterp spec fn json_object_text(name: Seq<char>, value: Seq<char>) -> Result<Seq<char>, Seq<char>>;

/// What a look into a JSON document gave, with its texts as sequences of
/// characters.
pub open spec fn member_view(found: Result<JsonMember, String>) -> Result<
    JsonMemberView,
    Seq<char>,
> {
    match found {
        Ok(member) => Ok(member@),
        Err(why) => Err(why@),
    }
}

/// A text or a refusal, as sequences of characters.
pub open spec fn text_view(written: Result<String, String>) -> Result<Seq<char>, Seq<char>> {
    match written {
        Ok(text) => Ok(text@),
        Err(why) => Err(why@),
    }
}

/// `serde_json::from_str` to a `serde_json::Value`, then `Value::get` with
/// `name`: which kind of value `get` returns, with the text of a string, or
/// that it returns `None`; and the error's `to_string` where `from_str`
/// fails. The result depends on the two texts alone and is known by the name
/// `json_member`; nothing else is claimed of it.
#[verifier::external_body]
fn read_json_member(document: &str, name: &str) -> (found: Result<JsonMember, String>)
    ensures
        member_view(found) == json_member(document@, name@),
{
    match serde_json::from_str::<serde_json::Value>(document) {
        Err(error) => Err(error.to_string()),
        Ok(value) => Ok(match value.get(name) {
            None => JsonMember::Missing,
            Some(serde_json::Value::Null) => JsonMember::Null,
            Some(serde_json::Value::Bool(b)) => JsonMember::Bool(*b),
            Some(serde_json::Value::Number(_)) => JsonMember::Number,
            Some(serde_json::Value::String(text)) => JsonMember::Text(text.clone()),
            Some(serde_json::Value::Array(_)) => JsonMember::Array,
            Some(serde_json::Value::Object(_)) => JsonMember::Object,
        }),
    }
}

/// `serde_json::to_string_pretty` of a `serde_json::Value::Object` whose
/// `serde_json::Map` holds the one member `name` with the string `value`:
/// the document, or the error's `to_string`. The result depends on the two
/// texts alone and is known by the name `json_object_text`; nothing else is
/// claimed of it.
#[verifier::external_body]
fn write_json_object(name: &str, value: &str) -> (written: Result<String, String>)
    ensures
        text_view(written) == json_object_text(name@, value@),
{
    let mut object = serde_json::Map::new();
    object.insert(name.to_string(), serde_json::Value::String(value.to_string()));
    match serde_json::to_string_pretty(&serde_json::Value::Object(object)) {
        Ok(text) => Ok(text),
        Err(error) => Err(error.to_string()),
    }
}

/// What came of reading the configuration file.
#[derive(Debug, PartialEq, Eq)]
pub enum ConfigRead {
    /// There is no such file.
    Missing,
    /// The file could not be read, for this reason.
    Unreadable(String),
    /// The file holds this text.
    Content(String),
}

/// A [`ConfigRead`] with its texts as sequences of characters.
pub enum ConfigReadView {
    Missing,
    Unreadable(Seq<char>),
    Content(Seq<char>),
}

impl View for ConfigRead {
    type V = ConfigReadView;

    open spec fn view(&self) -> ConfigReadView {
        match self {
            ConfigRead::Missing => ConfigReadView::Missing,
            ConfigRead::Unreadable(why) => ConfigReadView::Unreadable(why@),
            ConfigRead::Content(text) => ConfigReadView::Content(text@),
        }
    }
}

/// The key of the rate source that a configuration holds, or the reason, in
/// words, why it holds none. The key is the text of the member
/// `fred_api_key` of the JSON object that the file holds; a member that is
/// no text is no key.
pub open spec fn configured_key(config: ConfigReadView) -> Result<Seq<char>, Seq<char>> {
    match config {
        ConfigReadView::Missing => Err(
            "API key not configured. Please set it in the settings."@,
        ),
        ConfigReadView::Unreadable(why) => Err("Failed to read config: "@ + why),
        ConfigReadView::Content(text) => match json_member(text, "fred_api_key"@) {
            Ok(JsonMemberView::Text(key)) => Ok(key),
            Ok(_) => Err("API key not found in config"@),
            Err(why) => Err("Failed to parse config: "@ + why),
        },
    }
}

/// The key of the rate source that the configuration holds, or the reason
/// why it holds none.
pub fn get_api_key(config: &ConfigRead) -> (key: Result<String, String>)
    ensures
        text_view(key) == configured_key(config@),
{
    match config {
        ConfigRead::Missing => Err(
            "API key not configured. Please set it in the settings.".to_owned(),
        ),
        ConfigRead::Unreadable(why) => Err("Failed to read config: ".to_owned().concat(why.as_str())),
        ConfigRead::Content(text) => match read_json_member(text.as_str(), "fred_api_key") {
            Ok(JsonMember::Text(key)) => Ok(key),
            Ok(_) => Err("API key not found in config".to_owned()),
            Err(why) => Err("Failed to parse config: ".to_owned().concat(why.as_str())),
        },
    }
}

/// Whether the configuration holds a key that is not empty.
pub fn get_api_key_configured(config: &ConfigRead) -> (configured: bool)
    ensures
        configured <==> (configured_key(config@) matches Ok(key) && key.len() > 0),
{
    match get_api_key(config) {
        Ok(key) => !key.as_str().is_empty(),
        Err(_) => false,
    }
}

/// The text to keep in the configuration file so that it holds `api_key`:
/// a JSON object with the one member `fred_api_key`. An error holds the
/// reason, in words, why there is no such text.
pub open spec fn configuration_text(api_key: Seq<char>) -> Result<Seq<char>, Seq<char>> {
    match json_object_text("fred_api_key"@, api_key) {
        Ok(text) => Ok(text),
        Err(why) => Err("Failed to save API key: "@ + why),
    }
}

/// The text to write to the configuration file so that it holds `api_key`.
pub fn set_api_key(api_key: &str) -> (document: Result<String, String>)
    ensures
        text_view(document) == configuration_text(api_key@),
{
    match write_json_object("fred_api_key", api_key) {
        Ok(text) => Ok(text),
        Err(why) => Err("Failed to save API key: ".to_owned().concat(why.as_str())),
    }
}

/// What the rate store answered when asked for a state's record.
#[derive(Debug, PartialEq, Eq)]
pub enum StoreLookup {
    /// The store holds this record.
    Found(StateRate),
    /// The store holds no record of that name.
    NotFound,
    /// The store could not be asked, for this reason.
    Failed(String),
}

/// A [`StoreLookup`] with its texts as sequences of characters.
pub enum StoreLookupView {
    Found(StateRateView),
    NotFound,
    Failed(Seq<char>),
}

impl View for StoreLookup {
    type V = StoreLookupView;

    open spec fn view(&self) -> StoreLookupView {
        match self {
            StoreLookup::Found(record) => StoreLookupView::Found(record@),
            StoreLookup::NotFound => StoreLookupView::NotFound,
            StoreLookup::Failed(why) => StoreLookupView::Failed(why@),
        }
    }
}

/// What a calculation has been told so far by the rate store, the
/// configuration file and the rate source. Each is `None` until it was
/// asked.
#[derive(Debug, PartialEq, Eq)]
pub struct Answers {
    pub state_rate: Option<StoreLookup>,
    pub config: Option<ConfigRead>,
    pub observations: Option<Result<FredResponse, FetchError>>,
}

/// [`Answers`] with their texts as sequences of characters.
pub struct AnswersView {
    pub state_rate: Option<StoreLookupView>,
    pub config: Option<ConfigReadView>,
    pub observations: Option<Result<Seq<Seq<char>>, FetchErrorView>>,
}

impl View for Answers {
    type V = AnswersView;

    open spec fn view(&self) -> AnswersView {
        AnswersView {
            state_rate: match self.state_rate {
                Some(lookup) => Some(lookup@),
                None => None,
            },
            config: match self.config {
                Some(config) => Some(config@),
                None => None,
            },
            observations: fetched_values(self.observations),
        }
    }
}

impl Answers {
    /// No answer yet.
    pub fn new() -> (answers: Answers)
        ensures
            answers@ == (AnswersView { state_rate: None, config: None, observations: None }),
    {
        Answers { state_rate: None, config: None, observations: None }
    }
}

/// One of the three dates of a request.
#[derive(Clone, Copy, Debug, PartialEq, Eq, Structural)]
pub enum DateField {
    Judgment,
    From,
    To,
}

/// Why a calculation gave no result.
#[derive(Debug, PartialEq, Eq)]
pub enum CalcError {
    /// A date of the request is no date; `reason` says why.
    InvalidDate { field: DateField, reason: String },
    /// Accrual begins after it ends.
    InvalidDateRange,
    /// The rate store holds no record of the state of this name.
    StateNotFound(String),
    /// The rate store could not be asked, for this reason.
    StoreError(String),
    /// The rate, the interest or the total is more than can be held.
    OutOfRange,
}

/// A [`CalcError`] with its texts as sequences of characters.
pub enum CalcErrorView {
    InvalidDate { field: DateField, reason: Seq<char> },
    InvalidDateRange,
    StateNotFound(Seq<char>),
    StoreError(Seq<char>),
    OutOfRange,
}

impl View for CalcError {
    type V = CalcErrorView;

    open spec fn view(&self) -> CalcErrorView {
        match self {
            CalcError::InvalidDate { field, reason } => CalcErrorView::InvalidDate {
                field: *field,
                reason: reason@,
            },
            CalcError::InvalidDateRange => CalcErrorView::InvalidDateRange,
            CalcError::StateNotFound(state) => CalcErrorView::StateNotFound(state@),
            CalcError::StoreError(why) => CalcErrorView::StoreError(why@),
            CalcError::OutOfRange => CalcErrorView::OutOfRange,
        }
    }
}

impl CalcErrorView {
    /// The error in words.
    pub open spec fn message(self) -> Seq<char> {
        match self {
            CalcErrorView::InvalidDate { field: DateField::Judgment, reason } =>
                "Invalid judgment date: "@ + reason,
            CalcErrorView::InvalidDate { field: DateField::From, reason } => "Invalid from date: "@
                + reason,
            CalcErrorView::InvalidDate { field: DateField::To, reason } => "Invalid to date: "@
                + reason,
            CalcErrorView::InvalidDateRange => "From date must be before or equal to end date"@,
            CalcErrorView::StateNotFound(state) => "State '"@ + state + "' not found in database"@,
            CalcErrorView::StoreError(why) => "Database error: "@ + why,
            CalcErrorView::OutOfRange => "Amount out of range"@,
        }
    }
}

impl CalcError {
    /// The error in words.
    pub fn message(&self) -> (text: String)
        ensures
            text@ == self@.message(),
    {
        match self {
            CalcError::InvalidDate { field, reason } => {
                let head = match field {
                    DateField::Judgment => "Invalid judgment date: ",
                    DateField::From => "Invalid from date: ",
                    DateField::To => "Invalid to date: ",
                };
                head.to_owned().concat(reason.as_str())
            },
            CalcError::InvalidDateRange => "From date must be before or equal to end date".to_owned(),
            CalcError::StateNotFound(state) => "State '".to_owned().concat(state.as_str()).concat(
                "' not found in database",
            ),
            CalcError::StoreError(why) => "Database error: ".to_owned().concat(why.as_str()),
            CalcError::OutOfRange => "Amount out of range".to_owned(),
        }
    }
}

/// The next thing to do about a calculation.
#[derive(Debug, PartialEq, Eq)]
pub enum CalcStep {
    /// Ask the rate store for the record of the state of this name.
    LookUpState(String),
    /// Read the configuration file.
    ReadConfig,
    /// Ask the rate source at this address.
    FetchObservations(String),
    /// Nothing is left to do: this is the result, or the reason why there
    /// is none.
    Finished(Result<CalcResponse, CalcError>),
}

/// A [`CalcStep`] with its texts as sequences of characters.
pub enum CalcStepView {
    LookUpState(Seq<char>),
    ReadConfig,
    FetchObservations(Seq<char>),
    Finished(Result<CalcResponseView, CalcErrorView>),
}

impl View for CalcStep {
    type V = CalcStepView;

    open spec fn view(&self) -> CalcStepView {
        match self {
            CalcStep::LookUpState(state) => CalcStepView::LookUpState(state@),
            CalcStep::ReadConfig => CalcStepView::ReadConfig,
            CalcStep::FetchObservations(url) => CalcStepView::FetchObservations(url@),
            CalcStep::Finished(Ok(response)) => CalcStepView::Finished(Ok(response@)),
            CalcStep::Finished(Err(error)) => CalcStepView::Finished(Err(error@)),
        }
    }
}

/// The three dates of a request as day numbers, or the first fault found
/// in them: the dates are read in the order judgment, from, to, and then
/// the beginning of accrual must not lie after its end.
pub open spec fn request_dates(request: CalcRequestView) -> Result<(int, int, int), CalcErrorView> {
    match parsed_day(request.judgment_date) {
        Err(reason) => Err(CalcErrorView::InvalidDate { field: DateField::Judgment, reason }),
        Ok(judgment) => match parsed_day(request.from_date) {
            Err(reason) => Err(CalcErrorView::InvalidDate { field: DateField::From, reason }),
            Ok(from) => match parsed_day(request.to_date) {
                Err(reason) => Err(CalcErrorView::InvalidDate { field: DateField::To, reason }),
                Ok(to) => if from > to {
                    Err(CalcErrorView::InvalidDateRange)
                } else {
                    Ok((judgment, from, to))
                },
            },
        },
    }
}

/// What is known of a rate that the calculation needs.
pub enum Resolution {
    /// Something must be asked first.
    Ask(CalcStepView),
    /// The rate, in trillionths, and where it came from, in words.
    Resolved { rate: int, source: Seq<char> },
    /// There is no rate, for this reason.
    Failed(CalcErrorView),
}

/// The federal rate for a judgment on the day numbered `day`, as far as
/// the answers give it. The key comes from the configuration. Whatever goes
/// wrong on the way to the rate (no configuration, no key, no answer from
/// the rate source, no data in its answer) leaves the fallback of five
/// percent, and the source says which of the two it is.
pub open spec fn federal_resolution(day: int, answers: AnswersView) -> Resolution {
    match answers.config {
        None => Resolution::Ask(CalcStepView::ReadConfig),
        Some(config) => match configured_key(config) {
            Err(_) => Resolution::Resolved {
                rate: FALLBACK_FEDERAL_RATE as int,
                source: "Federal Rate (Cached/Default)"@,
            },
            Ok(key) => match federal_step(day, key, answers.observations) {
                FederalStepView::Fetch(url) => Resolution::Ask(CalcStepView::FetchObservations(url)),
                FederalStepView::Finished(Ok(rate)) => Resolution::Resolved {
                    rate,
                    source: "Federal Rate (1-Year Treasury)"@,
                },
                FederalStepView::Finished(Err(_)) => Resolution::Resolved {
                    rate: FALLBACK_FEDERAL_RATE as int,
                    source: "Federal Rate (Cached/Default)"@,
                },
            },
        },
    }
}

/// Where a fixed rate came from, in words.
pub open spec fn fixed_source(record: StateRateView) -> Seq<char> {
    record.state + " (Fixed: "@ + percent_text(record.rate) + "%)"@
}

/// Where a variable rate came from, in words.
pub open spec fn variable_source(record: StateRateView) -> Seq<char> {
    record.state + " (Variable: Federal + "@ + percent_text(record.plus_percentage) + "%)"@
}

/// The rate of a state's record for a judgment on the day numbered `day`.
/// A fixed rate is the record's percentage as a decimal fraction. A
/// variable rate is the federal rate, or its fallback, raised by the
/// record's added percentage as a decimal fraction.
pub open spec fn state_resolution(record: StateRateView, day: int, answers: AnswersView) -> Resolution {
    if record.is_variable {
        match federal_resolution(day, answers) {
            Resolution::Resolved { rate, source } => if i64::MIN <= rate + record.plus_percentage
                <= i64::MAX {
                Resolution::Resolved {
                    rate: rate + record.plus_percentage,
                    source: variable_source(record),
                }
            } else {
                Resolution::Failed(CalcErrorView::OutOfRange)
            },
            other => other,
        }
    } else {
        Resolution::Resolved { rate: record.rate, source: fixed_source(record) }
    }
}

/// The rate that a request asks for, as far as the answers give it.
pub open spec fn rate_resolution(request: CalcRequestView, day: int, answers: AnswersView) -> Resolution {
    if request.is_federal {
        federal_resolution(day, answers)
    } else {
        match answers.state_rate {
            None => Resolution::Ask(CalcStepView::LookUpState(request.state)),
            Some(StoreLookupView::NotFound) => Resolution::Failed(
                CalcErrorView::StateNotFound(request.state),
            ),
            Some(StoreLookupView::Failed(why)) => Resolution::Failed(CalcErrorView::StoreError(why)),
            Some(StoreLookupView::Found(record)) => state_resolution(record, day, answers),
        }
    }
}

/// The words that every result carries.
pub open spec fn disclaimer_text() -> Seq<char> {
    "This is an estimate only. Please consult legal advice for accurate calculations. Rates may need manual updates."@
}

/// The result for a principal of `amount` cents at `rate` trillionths
/// over `days` days: the rate on the percentage scale, the days, the
/// interest and the total of principal and interest; or
/// [`CalcErrorView::OutOfRange`] where the interest or the total is more
/// than a 64-bit count of cents.
pub open spec fn response_for(amount: int, rate: int, source: Seq<char>, days: int) -> Result<
    CalcResponseView,
    CalcErrorView,
> {
    let interest = interest_cents(amount, rate, days);
    if interest_fits(amount, rate, days) && i64::MIN <= amount + interest <= i64::MAX {
        Ok(
            CalcResponseView {
                rate,
                days,
                interest_amount: interest,
                total_amount: amount + interest,
                rate_source: source,
                disclaimer: disclaimer_text(),
            },
        )
    } else {
        Err(CalcErrorView::OutOfRange)
    }
}

/// The next thing to do about a request, given the answers so far. The
/// dates are checked first, so a request with a bad date or a bad range
/// ends before anything is asked. Then the rate is resolved, which may take
/// the rate store, the configuration and the rate source, each asked once
/// at most. With the rate the result is computed.
pub open spec fn calculation_step(request: CalcRequestView, answers: AnswersView) -> CalcStepView {
    match request_dates(request) {
        Err(error) => CalcStepView::Finished(Err(error)),
        Ok((judgment, from, to)) => match rate_resolution(request, judgment, answers) {
            Resolution::Ask(step) => step,
            Resolution::Failed(error) => CalcStepView::Finished(Err(error)),
            Resolution::Resolved { rate, source } => CalcStepView::Finished(
                response_for(request.amount, rate, source, to - from),
            ),
        },
    }
}

/// What is known of a rate that the calculation needs.
#[derive(Debug, PartialEq, Eq)]
pub enum RateResolution {
    /// Something must be asked first.
    Ask(CalcStep),
    /// The rate and where it came from, in words.
    Resolved { rate: Rate, source: String },
    /// There is no rate, for this reason.
    Failed(CalcError),
}

impl View for RateResolution {
    type V = Resolution;

    open spec fn view(&self) -> Resolution {
        match self {
            RateResolution::Ask(step) => Resolution::Ask(step@),
            RateResolution::Resolved { rate, source } => Resolution::Resolved {
                rate: rate@,
                source: source@,
            },
            RateResolution::Failed(error) => Resolution::Failed(error@),
        }
    }
}

/// Reads one date of a request.
fn read_date(text: &str, field: DateField) -> (date: Result<CalendarDate, CalcError>)
    ensures
        date matches Ok(d) ==> (parsed_day(text@) matches Ok(n) && n == d@),
        date matches Err(error) ==> (parsed_day(text@) matches Err(reason) && error@ == (
            CalcErrorView::InvalidDate { field, reason })),
{
    match CalendarDate::parse(text) {
        Ok(date) => Ok(date),
        Err(reason) => Err(CalcError::InvalidDate { field, reason }),
    }
}

/// Reads the three dates of a request and checks their order.
fn read_dates(request: &CalcRequest) -> (dates: Result<
    (CalendarDate, CalendarDate, CalendarDate),
    CalcError,
>)
    ensures
        dates matches Ok(d) ==> request_dates(request@) == Ok::<(int, int, int), CalcErrorView>(
            (d.0@, d.1@, d.2@),
        ),
        dates matches Err(error) ==> request_dates(request@) == Err::<
            (int, int, int),
            CalcErrorView,
        >(error@),
{
    let judgment_date = match read_date(request.judgment_date.as_str(), DateField::Judgment) {
        Ok(date) => date,
        Err(error) => {
            return Err(error);
        },
    };
    let from_date = match read_date(request.from_date.as_str(), DateField::From) {
        Ok(date) => date,
        Err(error) => {
            return Err(error);
        },
    };
    let to_date = match read_date(request.to_date.as_str(), DateField::To) {
        Ok(date) => date,
        Err(error) => {
            return Err(error);
        },
    };
    if from_date.day_number() > to_date.day_number() {
        return Err(CalcError::InvalidDateRange);
    }
    Ok((judgment_date, from_date, to_date))
}

/// The fallback of the federal rate, with the words that say so.
fn fallback_resolution() -> (resolution: RateResolution)
    ensures
        resolution@ == (Resolution::Resolved {
            rate: FALLBACK_FEDERAL_RATE as int,
            source: "Federal Rate (Cached/Default)"@,
        }),
{
    RateResolution::Resolved {
        rate: get_fallback_federal_rate(),
        source: "Federal Rate (Cached/Default)".to_owned(),
    }
}

/// The federal rate for a judgment of `judgment_date`, as far as the
/// answers give it.
fn resolve_federal(judgment_date: CalendarDate, answers: &Answers) -> (resolution: RateResolution)
    ensures
        resolution@ == federal_resolution(judgment_date@, answers@),
{
    match &answers.config {
        None => RateResolution::Ask(CalcStep::ReadConfig),
        Some(config) => match get_api_key(config) {
            Err(_) => fallback_resolution(),
            Ok(api_key) => match get_federal_rate(
                judgment_date,
                api_key.as_str(),
                &answers.observations,
            ) {
                FederalStep::Fetch(url) => RateResolution::Ask(CalcStep::FetchObservations(url)),
                FederalStep::Finished(Ok(rate)) => RateResolution::Resolved {
                    rate,
                    source: "Federal Rate (1-Year Treasury)".to_owned(),
                },
                FederalStep::Finished(Err(_)) => fallback_resolution(),
            },
        },
    }
}

/// The rate of a state's record for a judgment of `judgment_date`, as far
/// as the answers give it.
fn resolve_state(record: &StateRate, judgment_date: CalendarDate, answers: &Answers) -> (resolution:
    RateResolution)
    ensures
        resolution@ == state_resolution(record@, judgment_date@, answers@),
{
    if record.is_variable {
        match resolve_federal(judgment_date, answers) {
            RateResolution::Resolved { rate, source } => match rate.checked_add_percent(
                record.plus_percentage,
            ) {
                Some(final_rate) => RateResolution::Resolved {
                    rate: final_rate,
                    source: record.state.clone().concat(" (Variable: Federal + ").concat(
                        format_percent(record.plus_percentage).as_str(),
                    ).concat("%)"),
                },
                None => RateResolution::Failed(CalcError::OutOfRange),
            },
            other => other,
        }
    } else {
        RateResolution::Resolved {
            rate: record.rate.as_rate(),
            source: record.state.clone().concat(" (Fixed: ").concat(
                format_percent(record.rate).as_str(),
            ).concat("%)"),
        }
    }
}

/// The rate that a request asks for, for a judgment of `judgment_date`:
/// the federal rate or a state's. The result is the rate as a decimal
/// fraction with the words that say where it came from, or what to ask
/// before it can be given, or the reason why there is none.
pub fn resolve_rate(request: &CalcRequest, judgment_date: CalendarDate, answers: &Answers) -> (resolution:
    RateResolution)
    ensures
        resolution@ == rate_resolution(request@, judgment_date@, answers@),
{
    if request.is_federal {
        resolve_federal(judgment_date, answers)
    } else {
        match &answers.state_rate {
            None => RateResolution::Ask(CalcStep::LookUpState(request.state.clone())),
            Some(StoreLookup::NotFound) => RateResolution::Failed(
                CalcError::StateNotFound(request.state.clone()),
            ),
            Some(StoreLookup::Failed(why)) => RateResolution::Failed(
                CalcError::StoreError(why.clone()),
            ),
            Some(StoreLookup::Found(record)) => resolve_state(record, judgment_date, answers),
        }
    }
}

/// The result for a principal at a rate over a number of days.
fn respond(amount: Money, rate: Rate, source: String, days: i64) -> (response: Result<
    CalcResponse,
    CalcError,
>)
    ensures
        response matches Ok(r) ==> response_for(amount@, rate@, source@, days as int) == Ok::<
            CalcResponseView,
            CalcErrorView,
        >(r@),
        response matches Err(error) ==> response_for(amount@, rate@, source@, days as int) == Err::<
            CalcResponseView,
            CalcErrorView,
        >(error@),
{
    match try_compute_interest(amount, rate, days) {
        None => Err(CalcError::OutOfRange),
        Some(interest_amount) => match amount.checked_add(interest_amount) {
            None => Err(CalcError::OutOfRange),
            Some(total_amount) => Ok(
                CalcResponse {
                    rate: rate.as_percent(),
                    days,
                    interest_amount,
                    total_amount,
                    rate_source: source,
                    disclaimer: "This is an estimate only. Please consult legal advice for accurate calculations. Rates may need manual updates.".to_owned(),
                },
            ),
        },
    }
}

/// Simple interest on a judgment.
///
/// `answers` holds what the rate store, the configuration file and the
/// rate source have answered so far. The result says what to do next: ask
/// one of the three and call again with its answer added, or stop with the
/// result or with the reason why there is none.
///
/// The dates are checked before anything is asked. The federal rate is the
/// rate source's where that can be had and five percent where it cannot;
/// that it could not be had is never an error of the calculation.
pub fn calculate(request: &CalcRequest, answers: &Answers) -> (step: CalcStep)
    ensures
        step@ == calculation_step(request@, answers@),
{
    match read_dates(request) {
        Err(error) => CalcStep::Finished(Err(error)),
        Ok((judgment_date, from_date, to_date)) => match resolve_rate(
            request,
            judgment_date,
            answers,
        ) {
            RateResolution::Ask(step) => step,
            RateResolution::Failed(error) => CalcStep::Finished(Err(error)),
            RateResolution::Resolved { rate, source } => {
                let days = calculate_days_between(from_date, to_date);
                CalcStep::Finished(respond(request.amount, rate, source, days))
            },
        },
    }
}

/// A request whose accrual begins after it ends is refused for that, and
/// before any rate is resolved: whatever the answers hold, nothing is asked
/// and nothing else is reported.
pub proof fn lemma_bad_range_is_refused_first(request: CalcRequestView, answers: AnswersView)
    requires
        parsed_day(request.judgment_date) is Ok,
        parsed_day(request.from_date) is Ok,
        parsed_day(request.to_date) is Ok,
        parsed_day(request.from_date)->Ok_0 > parsed_day(request.to_date)->Ok_0,
    ensures
        calculation_step(request, answers) == CalcStepView::Finished(
            Err(CalcErrorView::InvalidDateRange),
        ),
{
}

/// A request with a date that is no date is refused for the first such
/// date, whatever the answers hold.
pub proof fn lemma_bad_date_is_refused_first(request: CalcRequestView, answers: AnswersView)
    requires
        request_dates(request) is Err,
    ensures
        calculation_step(request, answers) == CalcStepView::Finished(
            Err(request_dates(request)->Err_0),
        ),
{
}

/// A request for a state of which the rate store holds no record fails
/// with [`CalcErrorView::StateNotFound`], which carries the name asked for.
pub proof fn lemma_unknown_state_is_named(request: CalcRequestView, answers: AnswersView)
    requires
        request_dates(request) is Ok,
        !request.is_federal,
        answers.state_rate == Some(StoreLookupView::NotFound),
    ensures
        calculation_step(request, answers) == CalcStepView::Finished(
            Err(CalcErrorView::StateNotFound(request.state)),
        ),
{
}

/// A failure of the rate store is reported as such, apart from a record
/// that is not there.
pub proof fn lemma_store_failure_is_reported(
    request: CalcRequestView,
    answers: AnswersView,
    why: Seq<char>,
)
    requires
        request_dates(request) is Ok,
        !request.is_federal,
        answers.state_rate == Some(StoreLookupView::Failed(why)),
    ensures
        calculation_step(request, answers) == CalcStepView::Finished(
            Err(CalcErrorView::StoreError(why)),
        ),
{
}

/// A fixed rate is the record's percentage as a decimal fraction, and is
/// had without the configuration and without the rate source.
pub proof fn lemma_fixed_rate_is_the_record(
    request: CalcRequestView,
    day: int,
    answers: AnswersView,
    record: StateRateView,
)
    requires
        !request.is_federal,
        answers.state_rate == Some(StoreLookupView::Found(record)),
        !record.is_variable,
    ensures
        rate_resolution(request, day, answers) == (Resolution::Resolved {
            rate: record.rate,
            source: fixed_source(record),
        }),
{
}

/// The federal rate is always had once the configuration was read and the
/// rate source, where there was a key to ask it with, has answered: that
/// the rate source's rate could not be had is never an error, it leaves the
/// fallback of five percent.
pub proof fn lemma_federal_rate_never_fails(day: int, answers: AnswersView)
    requires
        answers.config is Some,
        answers.observations is Some,
    ensures
        federal_resolution(day, answers) is Resolved,
        federal_resolution(day, answers)->source == "Federal Rate (1-Year Treasury)"@
            || (federal_resolution(day, answers)->rate == FALLBACK_FEDERAL_RATE as int && federal_resolution(
            day,
            answers,
        )->source == "Federal Rate (Cached/Default)"@),
{
}

/// A variable rate is the federal rate, or its fallback, raised by the
/// record's added percentage.
pub proof fn lemma_variable_rate_adds_to_federal(
    request: CalcRequestView,
    day: int,
    answers: AnswersView,
    record: StateRateView,
)
    requires
        !request.is_federal,
        answers.state_rate == Some(StoreLookupView::Found(record)),
        record.is_variable,
        federal_resolution(day, answers) is Resolved,
        i64::MIN <= federal_resolution(day, answers)->rate + record.plus_percentage <= i64::MAX,
    ensures
        rate_resolution(request, day, answers) == (Resolution::Resolved {
            rate: federal_resolution(day, answers)->rate + record.plus_percentage,
            source: variable_source(record),
        }),
{
}

/// Nothing is asked twice: a step that asks for an answer is taken only
/// while that answer is missing. So a calculation that is called again with
/// each answer added ends after three questions at most.
pub proof fn lemma_only_missing_answers_are_asked(request: CalcRequestView, answers: AnswersView)
    ensures
        calculation_step(request, answers) is LookUpState ==> answers.state_rate is None,
        calculation_step(request, answers) is ReadConfig ==> answers.config is None,
        calculation_step(request, answers) is FetchObservations ==> answers.observations is None,
        answers.state_rate is Some && answers.config is Some && answers.observations is Some
            ==> calculation_step(request, answers) is Finished,
{
}

/// Whether `more` holds every answer that `fewer` holds, and the same.
pub open spec fn answers_extend(more: AnswersView, fewer: AnswersView) -> bool {
    &&& fewer.state_rate is Some ==> more.state_rate == fewer.state_rate
    &&& fewer.config is Some ==> more.config == fewer.config
    &&& fewer.observations is Some ==> more.observations == fewer.observations
}

/// An answer that was not asked for does not matter: once a calculation has
/// ended, further answers leave its result as it is. So it makes no
/// difference whether the answers are gathered one by one as they are asked
/// for or are all at hand from the start.
pub proof fn lemma_unasked_answers_do_not_matter(
    request: CalcRequestView,
    fewer: AnswersView,
    more: AnswersView,
)
    requires
        answers_extend(more, fewer),
        calculation_step(request, fewer) is Finished,
    ensures
        calculation_step(request, more) == calculation_step(request, fewer),
{
}

/// The days of accrual of a request whose dates are in order.
pub open spec fn accrual_days(request: CalcRequestView) -> int
    recommends
        request_dates(request) is Ok,
{
    request_dates(request)->Ok_0.2 - request_dates(request)->Ok_0.1
}

/// A request for a state with a fixed rate is calculated at the record's
/// percentage as a decimal fraction, and says so: the result holds that
/// percentage as its rate, the interest of the principal at it over the
/// days of accrual, and as its source the state's name followed by
/// ` (Fixed: `, the percentage as it is written, and `%)`. There is a
/// result wherever interest and total can be held. The record's added
/// percentage, the configuration and the rate source play no part: with
/// other ones the calculation is the same.
pub proof fn lemma_fixed_rate_calculation(
    request: CalcRequestView,
    answers: AnswersView,
    record: StateRateView,
    others: AnswersView,
)
    requires
        request_dates(request) is Ok,
        !request.is_federal,
        !record.is_variable,
        answers.state_rate == Some(StoreLookupView::Found(record)),
        others.state_rate matches Some(StoreLookupView::Found(other)) && other == (StateRateView {
            plus_percentage: other.plus_percentage,
            ..record
        }),
    ensures
        calculation_step(request, answers) == CalcStepView::Finished(
            response_for(request.amount, record.rate, fixed_source(record), accrual_days(request)),
        ),
        calculation_step(request, others) == calculation_step(request, answers),
        interest_fits(request.amount, record.rate, accrual_days(request)) && i64::MIN
            <= request.amount + interest_cents(request.amount, record.rate, accrual_days(request))
            <= i64::MAX ==> calculation_step(request, answers) == CalcStepView::Finished(
            Ok(
                CalcResponseView {
                    rate: record.rate,
                    days: accrual_days(request),
                    interest_amount: interest_cents(
                        request.amount,
                        record.rate,
                        accrual_days(request),
                    ),
                    total_amount: request.amount + interest_cents(
                        request.amount,
                        record.rate,
                        accrual_days(request),
                    ),
                    rate_source: record.state + " (Fixed: "@ + percent_text(record.rate) + "%)"@,
                    disclaimer: disclaimer_text(),
                },
            ),
        ),
{
}

/// A request for a state with a variable rate is calculated at the federal
/// rate, or its fallback, raised by the record's added percentage as a
/// decimal fraction, and says so: the result holds the sum as its rate, the
/// interest of the principal at it over the days of accrual, and as its
/// source the state's name followed by ` (Variable: Federal + `, the added
/// percentage as it is written, and `%)`, whether the federal rate was the
/// rate source's or the fallback. There is a result wherever the sum, the
/// interest and the total can be held. The record's fixed percentage plays
/// no part: with another one the calculation is the same.
pub proof fn lemma_variable_rate_calculation(
    request: CalcRequestView,
    answers: AnswersView,
    record: StateRateView,
    other_rate: int,
)
    requires
        request_dates(request) is Ok,
        !request.is_federal,
        record.is_variable,
        answers.state_rate == Some(StoreLookupView::Found(record)),
        federal_resolution(request_dates(request)->Ok_0.0, answers) is Resolved,
    ensures
        ({
            let base = federal_resolution(request_dates(request)->Ok_0.0, answers)->rate;
            let rate = base + record.plus_percentage;
            let days = accrual_days(request);
            let interest = interest_cents(request.amount, rate, days);
            &&& i64::MIN <= rate <= i64::MAX ==> calculation_step(request, answers)
                == CalcStepView::Finished(
                response_for(request.amount, rate, variable_source(record), days),
            )
            &&& i64::MIN <= rate <= i64::MAX && interest_fits(request.amount, rate, days)
                && i64::MIN <= request.amount + interest <= i64::MAX ==> calculation_step(
                request,
                answers,
            ) == CalcStepView::Finished(
                Ok(
                    CalcResponseView {
                        rate,
                        days,
                        interest_amount: interest,
                        total_amount: request.amount + interest,
                        rate_source: record.state + " (Variable: Federal + "@ + percent_text(
                            record.plus_percentage,
                        ) + "%)"@,
                        disclaimer: disclaimer_text(),
                    },
                ),
            )
            &&& calculation_step(
                request,
                AnswersView {
                    state_rate: Some(
                        StoreLookupView::Found(StateRateView { rate: other_rate, ..record }),
                    ),
                    ..answers
                },
            ) == calculation_step(request, answers)
        }),
{
    let day = request_dates(request)->Ok_0.0;
    let others = AnswersView {
        state_rate: Some(StoreLookupView::Found(StateRateView { rate: other_rate, ..record })),
        ..answers
    };
    assert(federal_resolution(day, others) == federal_resolution(day, answers));
}

} // verus!
