//! The rates that a new rate store is filled with.

use vstd::prelude::*;
use crate::amounts::Percent;
use crate::models::{StateRate, StateRateView};

verus! {

/// One of the rates that a new rate store is filled with.
pub struct BuiltInRate {
    pub state: Seq<char>,
    /// The fixed rate, in ten-billionths of a percent.
    pub rate: int,
    pub is_variable: bool,
    /// What a variable rate adds, in ten-billionths of a percent.
    pub plus_percentage: int,
    pub update_frequency: Seq<char>,
    pub notes: Seq<char>,
}

/// How many rates a new rate store is filled with: the federal rate and
/// the rates of the fifty states and of the District of Columbia.
pub const BUILT_IN_RATES: usize = 52;

/// The rate with the number `index` among those that a new rate store is
/// filled with, in the order in which they are stored.
pub open spec fn built_in_rate(index: int) -> BuiltInRate {
    if index == 0 {
        BuiltInRate {
            state: "Federal"@,
            rate: 0,
            is_variable: true,
            plus_percentage: 0,
            update_frequency: "Weekly"@,
            notes: "Based on 1-year Treasury yield"@,
        }
    } else if index == 1 {
        BuiltInRate {
            state: "Alabama"@,
            rate: 75_000_000_000,
            is_variable: false,
            plus_percentage: 0,
            update_frequency: "Annual"@,
            notes: "7.5% per annum"@,
        }
    } else if index == 2 {
        BuiltInRate {
            state: "Alaska"@,
            rate: 30_000_000_000,
            is_variable: true,
            plus_percentage: 0,
            update_frequency: "Annual"@,
            notes: "Federal rate + 3%"@,
        }
    } else if index == 3 {
        BuiltInRate {
            state: "Arizona"@,
            rate: 100_000_000_000,
            is_variable: false,
            plus_percentage: 0,
            update_frequency: "Annual"@,
            notes: "10% per annum"@,
        }
    } else if index == 4 {
        BuiltInRate {
            state: "Arkansas"@,
            rate: 80_000_000_000,
            is_variable: false,
            plus_percentage: 0,
            update_frequency: "Annual"@,
            notes: "8% per annum"@,
        }
    } else if index == 5 {
        BuiltInRate {
            state: "California"@,
            rate: 100_000_000_000,
            is_variable: false,
            plus_percentage: 0,
            update_frequency: "Annual"@,
            notes: "10% per annum"@,
        }
    } else if index == 6 {
        BuiltInRate {
            state: "Colorado"@,
            rate: 80_000_000_000,
            is_variable: false,
            plus_percentage: 0,
            update_frequency: "Annual"@,
            notes: "8% per annum compounded annually"@,
        }
    } else if index == 7 {
        BuiltInRate {
            state: "Connecticut"@,
            rate: 80_000_000_000,
            is_variable: false,
            plus_percentage: 0,
            update_frequency: "Annual"@,
            notes: "8% per annum"@,
        }
    } else if index == 8 {
        BuiltInRate {
            state: "Delaware"@,
            rate: 0,
            is_variable: true,
            plus_percentage: 50_000_000_000,
            update_frequency: "Annual"@,
            notes: "Federal rate + 5%"@,
        }
    } else if index == 9 {
        BuiltInRate {
            state: "District of Columbia"@,
            rate: 60_000_000_000,
            is_variable: false,
            plus_percentage: 0,
            update_frequency: "Annual"@,
            notes: "6% per annum"@,
        }
    } else if index == 10 {
        BuiltInRate {
            state: "Florida"@,
            rate: 47_500_000_000,
            is_variable: false,
            plus_percentage: 0,
            update_frequency: "Annual"@,
            notes: "4.75% per annum as of 2024"@,
        }
    } else if index == 11 {
        BuiltInRate {
            state: "Georgia"@,
            rate: 70_000_000_000,
            is_variable: false,
            plus_percentage: 0,
            update_frequency: "Annual"@,
            notes: "7% per annum"@,
        }
    } else if index == 12 {
        BuiltInRate {
            state: "Hawaii"@,
            rate: 100_000_000_000,
            is_variable: false,
            plus_percentage: 0,
            update_frequency: "Annual"@,
            notes: "10% per annum"@,
        }
    } else if index == 13 {
        BuiltInRate {
            state: "Idaho"@,
            rate: 120_000_000_000,
            is_variable: false,
            plus_percentage: 0,
            update_frequency: "Annual"@,
            notes: "12% per annum"@,
        }
    } else if index == 14 {
        BuiltInRate {
            state: "Illinois"@,
            rate: 90_000_000_000,
            is_variable: false,
            plus_percentage: 0,
            update_frequency: "Annual"@,
            notes: "9% per annum"@,
        }
    } else if index == 15 {
        BuiltInRate {
            state: "Indiana"@,
            rate: 80_000_000_000,
            is_variable: false,
            plus_percentage: 0,
            update_frequency: "Annual"@,
            notes: "8% per annum"@,
        }
    } else if index == 16 {
        BuiltInRate {
            state: "Iowa"@,
            rate: 50_000_000_000,
            is_variable: true,
            plus_percentage: 20_000_000_000,
            update_frequency: "Annual"@,
            notes: "Federal rate + 2%"@,
        }
    } else if index == 17 {
        BuiltInRate {
            state: "Kansas"@,
            rate: 100_000_000_000,
            is_variable: false,
            plus_percentage: 0,
            update_frequency: "Annual"@,
            notes: "10% per annum"@,
        }
    } else if index == 18 {
        BuiltInRate {
            state: "Kentucky"@,
            rate: 80_000_000_000,
            is_variable: false,
            plus_percentage: 0,
            update_frequency: "Annual"@,
            notes: "8% per annum"@,
        }
    } else if index == 19 {
        BuiltInRate {
            state: "Louisiana"@,
            rate: 35_000_000_000,
            is_variable: false,
            plus_percentage: 0,
            update_frequency: "Annual"@,
            notes: "3.5% per annum"@,
        }
    } else if index == 20 {
        BuiltInRate {
            state: "Maine"@,
            rate: 80_000_000_000,
            is_variable: false,
            plus_percentage: 0,
            update_frequency: "Annual"@,
            notes: "8% per annum"@,
        }
    } else if index == 21 {
        BuiltInRate {
            state: "Maryland"@,
            rate: 100_000_000_000,
            is_variable: false,
            plus_percentage: 0,
            update_frequency: "Annual"@,
            notes: "10% per annum"@,
        }
    } else if index == 22 {
        BuiltInRate {
            state: "Massachusetts"@,
            rate: 120_000_000_000,
            is_variable: false,
            plus_percentage: 0,
            update_frequency: "Annual"@,
            notes: "12% per annum"@,
        }
    } else if index == 23 {
        BuiltInRate {
            state: "Michigan"@,
            rate: 52_500_000_000,
            is_variable: false,
            plus_percentage: 0,
            update_frequency: "Semi-Annual"@,
            notes: "5.25% per annum"@,
        }
    } else if index == 24 {
        BuiltInRate {
            state: "Minnesota"@,
            rate: 100_000_000_000,
            is_variable: false,
            plus_percentage: 0,
            update_frequency: "Annual"@,
            notes: "10% per annum"@,
        }
    } else if index == 25 {
        BuiltInRate {
            state: "Mississippi"@,
            rate: 80_000_000_000,
            is_variable: false,
            plus_percentage: 0,
            update_frequency: "Annual"@,
            notes: "8% per annum"@,
        }
    } else if index == 26 {
        BuiltInRate {
            state: "Missouri"@,
            rate: 90_000_000_000,
            is_variable: false,
            plus_percentage: 0,
            update_frequency: "Annual"@,
            notes: "9% per annum"@,
        }
    } else if index == 27 {
        BuiltInRate {
            state: "Montana"@,
            rate: 100_000_000_000,
            is_variable: false,
            plus_percentage: 0,
            update_frequency: "Annual"@,
            notes: "10% per annum"@,
        }
    } else if index == 28 {
        BuiltInRate {
            state: "Nebraska"@,
            rate: 120_000_000_000,
            is_variable: false,
            plus_percentage: 0,
            update_frequency: "Annual"@,
            notes: "12% per annum"@,
        }
    } else if index == 29 {
        BuiltInRate {
            state: "Nevada"@,
            rate: 52_500_000_000,
            is_variable: false,
            plus_percentage: 0,
            update_frequency: "Annual"@,
            notes: "Prime rate + 2%"@,
        }
    } else if index == 30 {
        BuiltInRate {
            state: "New Hampshire"@,
            rate: 70_000_000_000,
            is_variable: false,
            plus_percentage: 0,
            update_frequency: "Annual"@,
            notes: "7% per annum"@,
        }
    } else if index == 31 {
        BuiltInRate {
            state: "New Jersey"@,
            rate: 87_500_000_000,
            is_variable: false,
            plus_percentage: 0,
            update_frequency: "Annual"@,
            notes: "8.75% per annum"@,
        }
    } else if index == 32 {
        BuiltInRate {
            state: "New Mexico"@,
            rate: 150_000_000_000,
            is_variable: false,
            plus_percentage: 0,
            update_frequency: "Annual"@,
            notes: "15% per annum"@,
        }
    } else if index == 33 {
        BuiltInRate {
            state: "New York"@,
            rate: 90_000_000_000,
            is_variable: false,
            plus_percentage: 0,
            update_frequency: "Annual"@,
            notes: "9% per annum"@,
        }
    } else if index == 34 {
        BuiltInRate {
            state: "North Carolina"@,
            rate: 80_000_000_000,
            is_variable: false,
            plus_percentage: 0,
            update_frequency: "Annual"@,
            notes: "8% per annum"@,
        }
    } else if index == 35 {
        BuiltInRate {
            state: "North Dakota"@,
            rate: 120_000_000_000,
            is_variable: false,
            plus_percentage: 0,
            update_frequency: "Annual"@,
            notes: "12% per annum"@,
        }
    } else if index == 36 {
        BuiltInRate {
            state: "Ohio"@,
            rate: 30_000_000_000,
            is_variable: true,
            plus_percentage: 0,
            update_frequency: "Annual"@,
            notes: "Federal rate + 3%"@,
        }
    } else if index == 37 {
        BuiltInRate {
            state: "Oklahoma"@,
            rate: 45_000_000_000,
            is_variable: true,
            plus_percentage: 40_000_000_000,
            update_frequency: "Annual"@,
            notes: "Prime rate + 4%"@,
        }
    } else if index == 38 {
        BuiltInRate {
            state: "Oregon"@,
            rate: 90_000_000_000,
            is_variable: false,
            plus_percentage: 0,
            update_frequency: "Annual"@,
            notes: "9% per annum"@,
        }
    } else if index == 39 {
        BuiltInRate {
            state: "Pennsylvania"@,
            rate: 60_000_000_000,
            is_variable: false,
            plus_percentage: 0,
            update_frequency: "Annual"@,
            notes: "6% per annum"@,
        }
    } else if index == 40 {
        BuiltInRate {
            state: "Rhode Island"@,
            rate: 120_000_000_000,
            is_variable: false,
            plus_percentage: 0,
            update_frequency: "Annual"@,
            notes: "12% per annum"@,
        }
    } else if index == 41 {
        BuiltInRate {
            state: "South Carolina"@,
            rate: 87_500_000_000,
            is_variable: false,
            plus_percentage: 0,
            update_frequency: "Annual"@,
            notes: "8.75% per annum"@,
        }
    } else if index == 42 {
        BuiltInRate {
            state: "South Dakota"@,
            rate: 100_000_000_000,
            is_variable: false,
            plus_percentage: 0,
            update_frequency: "Annual"@,
            notes: "10% per annum"@,
        }
    } else if index == 43 {
        BuiltInRate {
            state: "Tennessee"@,
            rate: 100_000_000_000,
            is_variable: false,
            plus_percentage: 0,
            update_frequency: "Annual"@,
            notes: "10% per annum"@,
        }
    } else if index == 44 {
        BuiltInRate {
            state: "Texas"@,
            rate: 50_000_000_000,
            is_variable: false,
            plus_percentage: 0,
            update_frequency: "Annual"@,
            notes: "5% per annum if parties agree, 18% otherwise"@,
        }
    } else if index == 45 {
        BuiltInRate {
            state: "Utah"@,
            rate: 20_000_000_000,
            is_variable: true,
            plus_percentage: 0,
            update_frequency: "Annual"@,
            notes: "Federal rate + 2%"@,
        }
    } else if index == 46 {
        BuiltInRate {
            state: "Vermont"@,
            rate: 120_000_000_000,
            is_variable: false,
            plus_percentage: 0,
            update_frequency: "Annual"@,
            notes: "12% per annum"@,
        }
    } else if index == 47 {
        BuiltInRate {
            state: "Virginia"@,
            rate: 60_000_000_000,
            is_variable: false,
            plus_percentage: 0,
            update_frequency: "Annual"@,
            notes: "6% per annum"@,
        }
    } else if index == 48 {
        BuiltInRate {
            state: "Washington"@,
            rate: 120_000_000_000,
            is_variable: false,
            plus_percentage: 0,
            update_frequency: "Annual"@,
            notes: "12% per annum or contract rate"@,
        }
    } else if index == 49 {
        BuiltInRate {
            state: "West Virginia"@,
            rate: 70_000_000_000,
            is_variable: false,
            plus_percentage: 0,
            update_frequency: "Annual"@,
            notes: "7% per annum"@,
        }
    } else if index == 50 {
        BuiltInRate {
            state: "Wisconsin"@,
            rate: 50_000_000_000,
            is_variable: false,
            plus_percentage: 0,
            update_frequency: "Annual"@,
            notes: "5% per annum"@,
        }
    } else {
        BuiltInRate {
            state: "Wyoming"@,
            rate: 100_000_000_000,
            is_variable: false,
            plus_percentage: 0,
            update_frequency: "Annual"@,
            notes: "10% per annum"@,
        }
    }
}

/// Whether `record` is a record that is not yet stored, holds the built-in
/// rate `rate` and was last changed on the day written `today`.
pub open spec fn holds_built_in_rate(
    record: StateRateView,
    rate: BuiltInRate,
    today: Seq<char>,
) -> bool {
    &&& record.id == 0
    &&& record.last_update == today
    &&& record.state == rate.state
    &&& record.rate == rate.rate
    &&& record.is_variable == rate.is_variable
    &&& record.plus_percentage == rate.plus_percentage
    &&& record.update_frequency == rate.update_frequency
    &&& record.notes == rate.notes
}

/// Whether `records` holds the first built-in rates, one record each and in
/// their order, each last changed on the day written `today`.
pub open spec fn holds_built_in_rates(records: Seq<StateRate>, today: Seq<char>) -> bool {
    forall|i: int|
        0 <= i < records.len() ==> holds_built_in_rate(
            #[trigger] records[i]@,
            built_in_rate(i),
            today,
        )
}

/// Adds the record of one more built-in rate.
fn add_built_in_rate(
    records: &mut Vec<StateRate>,
    today: &str,
    state: &str,
    rate: i64,
    is_variable: bool,
    plus_percentage: i64,
    update_frequency: &str,
    notes: &str,
)
    requires
        holds_built_in_rates(old(records)@, today@),
        built_in_rate(old(records)@.len() as int) == (BuiltInRate {
            state: state@,
            rate: rate as int,
            is_variable,
            plus_percentage: plus_percentage as int,
            update_frequency: update_frequency@,
            notes: notes@,
        }),
    ensures
        holds_built_in_rates(final(records)@, today@),
        final(records)@.len() == old(records)@.len() + 1,
{
    let record = StateRate::new(
        state.to_owned(),
        Percent { units: rate },
        is_variable,
        Percent { units: plus_percentage },
        update_frequency.to_owned(),
        notes.to_owned(),
        today.to_owned(),
    );
    records.push(record);
}

/// The records that a new rate store is filled with on the day written
/// `today`: one for each built-in rate, in their order, none of them stored
/// yet and each last changed on that day. No two of them are of the same
/// name.
pub fn seed_initial_data(today: &str) -> (records: Vec<StateRate>)
    ensures
        records@.len() == BUILT_IN_RATES,
        holds_built_in_rates(records@, today@),
        forall|i: int, j: int|
            0 <= i < j < records@.len() ==> (#[trigger] records@[i]).state@ != (
            #[trigger] records@[j]).state@,
{
    let mut records: Vec<StateRate> = Vec::new();
    add_built_in_rate(&mut records, today, "Federal", 0, true, 0, "Weekly", "Based on 1-year Treasury yield");
    add_built_in_rate(&mut records, today, "Alabama", 75_000_000_000, false, 0, "Annual", "7.5% per annum");
    add_built_in_rate(&mut records, today, "Alaska", 30_000_000_000, true, 0, "Annual", "Federal rate + 3%");
    add_built_in_rate(&mut records, today, "Arizona", 100_000_000_000, false, 0, "Annual", "10% per annum");
    add_built_in_rate(&mut records, today, "Arkansas", 80_000_000_000, false, 0, "Annual", "8% per annum");
    add_built_in_rate(&mut records, today, "California", 100_000_000_000, false, 0, "Annual", "10% per annum");
    add_built_in_rate(&mut records, today, "Colorado", 80_000_000_000, false, 0, "Annual", "8% per annum compounded annually");
    add_built_in_rate(&mut records, today, "Connecticut", 80_000_000_000, false, 0, "Annual", "8% per annum");
    add_built_in_rate(&mut records, today, "Delaware", 0, true, 50_000_000_000, "Annual", "Federal rate + 5%");
    add_built_in_rate(&mut records, today, "District of Columbia", 60_000_000_000, false, 0, "Annual", "6% per annum");
    add_built_in_rate(&mut records, today, "Florida", 47_500_000_000, false, 0, "Annual", "4.75% per annum as of 2024");
    add_built_in_rate(&mut records, today, "Georgia", 70_000_000_000, false, 0, "Annual", "7% per annum");
    add_built_in_rate(&mut records, today, "Hawaii", 100_000_000_000, false, 0, "Annual", "10% per annum");
    add_built_in_rate(&mut records, today, "Idaho", 120_000_000_000, false, 0, "Annual", "12% per annum");
    add_built_in_rate(&mut records, today, "Illinois", 90_000_000_000, false, 0, "Annual", "9% per annum");
    add_built_in_rate(&mut records, today, "Indiana", 80_000_000_000, false, 0, "Annual", "8% per annum");
    add_built_in_rate(&mut records, today, "Iowa", 50_000_000_000, true, 20_000_000_000, "Annual", "Federal rate + 2%");
    add_built_in_rate(&mut records, today, "Kansas", 100_000_000_000, false, 0, "Annual", "10% per annum");
    add_built_in_rate(&mut records, today, "Kentucky", 80_000_000_000, false, 0, "Annual", "8% per annum");
    add_built_in_rate(&mut records, today, "Louisiana", 35_000_000_000, false, 0, "Annual", "3.5% per annum");
    add_built_in_rate(&mut records, today, "Maine", 80_000_000_000, false, 0, "Annual", "8% per annum");
    add_built_in_rate(&mut records, today, "Maryland", 100_000_000_000, false, 0, "Annual", "10% per annum");
    add_built_in_rate(&mut records, today, "Massachusetts", 120_000_000_000, false, 0, "Annual", "12% per annum");
    add_built_in_rate(&mut records, today, "Michigan", 52_500_000_000, false, 0, "Semi-Annual", "5.25% per annum");
    add_built_in_rate(&mut records, today, "Minnesota", 100_000_000_000, false, 0, "Annual", "10% per annum");
    add_built_in_rate(&mut records, today, "Mississippi", 80_000_000_000, false, 0, "Annual", "8% per annum");
    add_built_in_rate(&mut records, today, "Missouri", 90_000_000_000, false, 0, "Annual", "9% per annum");
    add_built_in_rate(&mut records, today, "Montana", 100_000_000_000, false, 0, "Annual", "10% per annum");
    add_built_in_rate(&mut records, today, "Nebraska", 120_000_000_000, false, 0, "Annual", "12% per annum");
    add_built_in_rate(&mut records, today, "Nevada", 52_500_000_000, false, 0, "Annual", "Prime rate + 2%");
    add_built_in_rate(&mut records, today, "New Hampshire", 70_000_000_000, false, 0, "Annual", "7% per annum");
    add_built_in_rate(&mut records, today, "New Jersey", 87_500_000_000, false, 0, "Annual", "8.75% per annum");
    add_built_in_rate(&mut records, today, "New Mexico", 150_000_000_000, false, 0, "Annual", "15% per annum");
    add_built_in_rate(&mut records, today, "New York", 90_000_000_000, false, 0, "Annual", "9% per annum");
    add_built_in_rate(&mut records, today, "North Carolina", 80_000_000_000, false, 0, "Annual", "8% per annum");
    add_built_in_rate(&mut records, today, "North Dakota", 120_000_000_000, false, 0, "Annual", "12% per annum");
    add_built_in_rate(&mut records, today, "Ohio", 30_000_000_000, true, 0, "Annual", "Federal rate + 3%");
    add_built_in_rate(&mut records, today, "Oklahoma", 45_000_000_000, true, 40_000_000_000, "Annual", "Prime rate + 4%");
    add_built_in_rate(&mut records, today, "Oregon", 90_000_000_000, false, 0, "Annual", "9% per annum");
    add_built_in_rate(&mut records, today, "Pennsylvania", 60_000_000_000, false, 0, "Annual", "6% per annum");
    add_built_in_rate(&mut records, today, "Rhode Island", 120_000_000_000, false, 0, "Annual", "12% per annum");
    add_built_in_rate(&mut records, today, "South Carolina", 87_500_000_000, false, 0, "Annual", "8.75% per annum");
    add_built_in_rate(&mut records, today, "South Dakota", 100_000_000_000, false, 0, "Annual", "10% per annum");
    add_built_in_rate(&mut records, today, "Tennessee", 100_000_000_000, false, 0, "Annual", "10% per annum");
    add_built_in_rate(&mut records, today, "Texas", 50_000_000_000, false, 0, "Annual", "5% per annum if parties agree, 18% otherwise");
    add_built_in_rate(&mut records, today, "Utah", 20_000_000_000, true, 0, "Annual", "Federal rate + 2%");
    add_built_in_rate(&mut records, today, "Vermont", 120_000_000_000, false, 0, "Annual", "12% per annum");
    add_built_in_rate(&mut records, today, "Virginia", 60_000_000_000, false, 0, "Annual", "6% per annum");
    add_built_in_rate(&mut records, today, "Washington", 120_000_000_000, false, 0, "Annual", "12% per annum or contract rate");
    add_built_in_rate(&mut records, today, "West Virginia", 70_000_000_000, false, 0, "Annual", "7% per annum");
    add_built_in_rate(&mut records, today, "Wisconsin", 50_000_000_000, false, 0, "Annual", "5% per annum");
    add_built_in_rate(&mut records, today, "Wyoming", 100_000_000_000, false, 0, "Annual", "10% per annum");
    proof {
        assert forall|i: int, j: int| 0 <= i < j < records@.len() implies (
        #[trigger] records@[i]).state@ != (#[trigger] records@[j]).state@ by {
            lemma_built_in_names_differ(i, j);
            assert(holds_built_in_rate(records@[i]@, built_in_rate(i), today@));
            assert(holds_built_in_rate(records@[j]@, built_in_rate(j), today@));
        }
    }
    records
}

/// What is enough of a name to tell the built-in names apart: its length,
/// its first three characters and its last.
spec fn name_mark(name: Seq<char>) -> (nat, char, char, char, char) {
    (name.len(), name[0], name[1], name[2], name[name.len() - 1])
}

/// No two built-in rates are of the same name, so the rate store, which
/// holds one record for a name at most, takes them all.
pub proof fn lemma_built_in_names_differ(i: int, j: int)
    requires
        0 <= i < j < BUILT_IN_RATES,
    ensures
        built_in_rate(i).state != built_in_rate(j).state,
{
    reveal_strlit("Federal");
    reveal_strlit("Alabama");
    reveal_strlit("Alaska");
    reveal_strlit("Arizona");
    reveal_strlit("Arkansas");
    reveal_strlit("California");
    reveal_strlit("Colorado");
    reveal_strlit("Connecticut");
    reveal_strlit("Delaware");
    reveal_strlit("District of Columbia");
    reveal_strlit("Florida");
    reveal_strlit("Georgia");
    reveal_strlit("Hawaii");
    reveal_strlit("Idaho");
    reveal_strlit("Illinois");
    reveal_strlit("Indiana");
    reveal_strlit("Iowa");
    reveal_strlit("Kansas");
    reveal_strlit("Kentucky");
    reveal_strlit("Louisiana");
    reveal_strlit("Maine");
    reveal_strlit("Maryland");
    reveal_strlit("Massachusetts");
    reveal_strlit("Michigan");
    reveal_strlit("Minnesota");
    reveal_strlit("Mississippi");
    reveal_strlit("Missouri");
    reveal_strlit("Montana");
    reveal_strlit("Nebraska");
    reveal_strlit("Nevada");
    reveal_strlit("New Hampshire");
    reveal_strlit("New Jersey");
    reveal_strlit("New Mexico");
    reveal_strlit("New York");
    reveal_strlit("North Carolina");
    reveal_strlit("North Dakota");
    reveal_strlit("Ohio");
    reveal_strlit("Oklahoma");
    reveal_strlit("Oregon");
    reveal_strlit("Pennsylvania");
    reveal_strlit("Rhode Island");
    reveal_strlit("South Carolina");
    reveal_strlit("South Dakota");
    reveal_strlit("Tennessee");
    reveal_strlit("Texas");
    reveal_strlit("Utah");
    reveal_strlit("Vermont");
    reveal_strlit("Virginia");
    reveal_strlit("Washington");
    reveal_strlit("West Virginia");
    reveal_strlit("Wisconsin");
    reveal_strlit("Wyoming");
    assert(name_mark(built_in_rate(i).state) != name_mark(built_in_rate(j).state));
}

} // verus!
