//! The records that pass between the rate store, the rate source and the
//! calculation.

use vstd::prelude::*;
use crate::amounts::{Money, Percent};

verus! {

/// The interest rate of one jurisdiction, as the rate store holds it.
#[derive(Debug, PartialEq, Eq)]
pub struct StateRate {
    /// The store's number for the record; 0 before it is stored.
    pub id: i32,
    /// The jurisdiction's name, by which the store finds the record.
    pub state: String,
    /// The fixed yearly rate.
    pub rate: Percent,
    /// Whether the rate follows the federal rate.
    pub is_variable: bool,
    /// What a variable rate adds to the federal rate.
    pub plus_percentage: Percent,
    pub update_frequency: String,
    /// The day of the last change, written as year-month-day.
    pub last_update: String,
    pub notes: String,
}

/// A [`StateRate`] with its texts as sequences of characters and its
/// percentages as counts.
pub struct StateRateView {
    pub id: int,
    pub state: Seq<char>,
    pub rate: int,
    pub is_variable: bool,
    pub plus_percentage: int,
    pub update_frequency: Seq<char>,
    pub last_update: Seq<char>,
    pub notes: Seq<char>,
}

impl View for StateRate {
    type V = StateRateView;

    open spec fn view(&self) -> StateRateView {
        StateRateView {
            id: self.id as int,
            state: self.state@,
            rate: self.rate@,
            is_variable: self.is_variable,
            plus_percentage: self.plus_percentage@,
            update_frequency: self.update_frequency@,
            last_update: self.last_update@,
            notes: self.notes@,
        }
    }
}

impl StateRate {
    /// A record that is not yet stored, last changed on the day written
    /// `last_update`.
    pub fn new(
        state: String,
        rate: Percent,
        is_variable: bool,
        plus_percentage: Percent,
        update_frequency: String,
        notes: String,
        last_update: String,
    ) -> (record: StateRate)
        ensures
            record@ == (StateRateView {
                id: 0,
                state: state@,
                rate: rate@,
                is_variable,
                plus_percentage: plus_percentage@,
                update_frequency: update_frequency@,
                last_update: last_update@,
                notes: notes@,
            }),
    {
        StateRate {
            id: 0,
            state,
            rate,
            is_variable,
            plus_percentage,
            update_frequency,
            last_update,
            notes,
        }
    }
}

impl StateRate {
    /// This record as an update leaves it: changed on the day written
    /// `today`, whatever day it held, and otherwise as it is.
    pub fn stamped(self, today: String) -> (record: StateRate)
        ensures
            record@ == (StateRateView { last_update: today@, ..self@ }),
    {
        StateRate {
            id: self.id,
            state: self.state,
            rate: self.rate,
            is_variable: self.is_variable,
            plus_percentage: self.plus_percentage,
            update_frequency: self.update_frequency,
            last_update: today,
            notes: self.notes,
        }
    }
}

impl Clone for StateRate {
    fn clone(&self) -> (copy: StateRate)
        ensures
            copy@ == self@,
    {
        StateRate {
            id: self.id,
            state: self.state.clone(),
            rate: self.rate,
            is_variable: self.is_variable,
            plus_percentage: self.plus_percentage,
            update_frequency: self.update_frequency.clone(),
            last_update: self.last_update.clone(),
            notes: self.notes.clone(),
        }
    }
}

/// What is asked of a calculation.
#[derive(Debug, PartialEq, Eq)]
pub struct CalcRequest {
    /// The day of the judgment, written as year-month-day.
    pub judgment_date: String,
    /// Whether the federal rate applies rather than a state's.
    pub is_federal: bool,
    /// The state whose rate applies where the federal rate does not.
    pub state: String,
    /// The principal.
    pub amount: Money,
    /// The first day of accrual, written as year-month-day.
    pub from_date: String,
    /// The last day of accrual, written as year-month-day.
    pub to_date: String,
}

/// A [`CalcRequest`] with its texts as sequences of characters.
pub struct CalcRequestView {
    pub judgment_date: Seq<char>,
    pub is_federal: bool,
    pub state: Seq<char>,
    pub amount: int,
    pub from_date: Seq<char>,
    pub to_date: Seq<char>,
}

impl View for CalcRequest {
    type V = CalcRequestView;

    open spec fn view(&self) -> CalcRequestView {
        CalcRequestView {
            judgment_date: self.judgment_date@,
            is_federal: self.is_federal,
            state: self.state@,
            amount: self.amount@,
            from_date: self.from_date@,
            to_date: self.to_date@,
        }
    }
}

/// What a calculation answers.
#[derive(Debug, PartialEq, Eq)]
pub struct CalcResponse {
    /// The yearly rate that was applied, on the percentage scale.
    pub rate: Percent,
    /// The number of days of accrual.
    pub days: i64,
    pub interest_amount: Money,
    /// Principal and interest together.
    pub total_amount: Money,
    /// Where the rate came from, in words.
    pub rate_source: String,
    pub disclaimer: String,
}

/// A [`CalcResponse`] with its texts as sequences of characters.
pub struct CalcResponseView {
    pub rate: int,
    pub days: int,
    pub interest_amount: int,
    pub total_amount: int,
    pub rate_source: Seq<char>,
    pub disclaimer: Seq<char>,
}

impl View for CalcResponse {
    type V = CalcResponseView;

    open spec fn view(&self) -> CalcResponseView {
        CalcResponseView {
            rate: self.rate@,
            days: self.days as int,
            interest_amount: self.interest_amount@,
            total_amount: self.total_amount@,
            rate_source: self.rate_source@,
            disclaimer: self.disclaimer@,
        }
    }
}

/// What the rate source answers to a query for observations.
#[derive(Debug, PartialEq, Eq)]
pub struct FredResponse {
    pub realtime_start: String,
    pub realtime_end: String,
    pub observations: Vec<FredObservation>,
}

/// One day's published rate. `value` is a percentage written as a decimal
/// number, or a single full stop where nothing was published for the day.
#[derive(Debug, PartialEq, Eq)]
pub struct FredObservation {
    pub realtime_start: String,
    pub realtime_end: String,
    pub date: String,
    pub value: String,
}

/// A [`FredObservation`] with its texts as sequences of characters.
pub struct FredObservationView {
    pub realtime_start: Seq<char>,
    pub realtime_end: Seq<char>,
    pub date: Seq<char>,
    pub value: Seq<char>,
}

impl View for FredObservation {
    type V = FredObservationView;

    open spec fn view(&self) -> FredObservationView {
        FredObservationView {
            realtime_start: self.realtime_start@,
            realtime_end: self.realtime_end@,
            date: self.date@,
            value: self.value@,
        }
    }
}

/// The values of a run of observations, in order.
pub open spec fn observed_values(observations: Seq<FredObservation>) -> Seq<Seq<char>> {
    observations.map_values(|o: FredObservation| o.value@)
}

/// A [`FredResponse`] with its texts as sequences of characters.
pub struct FredResponseView {
    pub realtime_start: Seq<char>,
    pub realtime_end: Seq<char>,
    pub observations: Seq<FredObservationView>,
}

impl View for FredResponse {
    type V = FredResponseView;

    open spec fn view(&self) -> FredResponseView {
        FredResponseView {
            realtime_start: self.realtime_start@,
            realtime_end: self.realtime_end@,
            observations: self.observations@.map_values(|o: FredObservation| o@),
        }
    }
}

} // verus!
