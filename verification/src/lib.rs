//! Simple (non-compounding) interest on legal judgments, at the federal
//! rate or at the rate of a state.
//!
//! Amounts of money are whole cents and rates are whole trillionths, so every
//! result is exact: no value in this crate is a floating-point number.
//!
//! The crate reads no file, no database, no network and no clock. Where a
//! function needs what only one of them can give (a state's record from the
//! rate store, the key in the configuration file, the observations of the
//! rate source), its result says what to ask for, and the caller calls it
//! again with the answer. [`commands::calculate`] is the whole of a
//! calculation in that form. The day on which a record is made is an
//! argument.
//!
//! The calendar is chrono's and the configuration's JSON is serde_json's:
//! what they return is known here by name only. What is computed from it
//! (interest, averages, the week before a judgment, which rate applies and
//! why) is proved against the contracts in this crate.

pub mod amounts;
pub mod calculator;
pub mod commands;
pub mod dates;
pub mod decimal;
pub mod models;
pub mod rate_fetcher;
pub mod rounding;
pub mod seed;
