use judgment_interest::amounts::Percent;
use judgment_interest::seed::{seed_initial_data, BUILT_IN_RATES};
use std::collections::HashSet;

#[test]
fn a_new_store_holds_the_federal_rate_and_fifty_one_states() {
    let records = seed_initial_data("2024-03-15");
    assert_eq!(records.len(), 52);
    assert_eq!(records.len(), BUILT_IN_RATES);
    assert_eq!(records[0].state, "Federal");
    assert!(records[0].is_variable);
    assert_eq!(records[0].update_frequency, "Weekly");
    assert_eq!(records[0].notes, "Based on 1-year Treasury yield");
    assert_eq!(records[51].state, "Wyoming");
    assert!(records.iter().any(|record| record.state == "District of Columbia"));
}

#[test]
fn no_two_built_in_rates_share_a_name() {
    let records = seed_initial_data("2024-03-15");
    let names: HashSet<&str> = records.iter().map(|record| record.state.as_str()).collect();
    assert_eq!(names.len(), records.len());
}

#[test]
fn built_in_records_are_not_stored_yet_and_dated_as_told() {
    for record in seed_initial_data("2024-03-15") {
        assert_eq!(record.id, 0);
        assert_eq!(record.last_update, "2024-03-15");
        assert!(record.rate.units >= 0 && record.rate.units <= 1_000_000_000_000);
        assert!(record.plus_percentage.units >= 0);
    }
}

#[test]
fn built_in_rates_are_as_listed() {
    let records = seed_initial_data("2024-03-15");
    let find = |name: &str| records.iter().find(|record| record.state == name).unwrap();
    let alabama = find("Alabama");
    assert_eq!(alabama.rate, Percent::from_units(75_000_000_000));
    assert!(!alabama.is_variable);
    assert_eq!(alabama.plus_percentage, Percent::from_units(0));
    assert_eq!(alabama.update_frequency, "Annual");
    assert_eq!(alabama.notes, "7.5% per annum");
    let florida = find("Florida");
    assert_eq!(florida.rate, Percent::from_units(47_500_000_000));
    assert_eq!(florida.notes, "4.75% per annum as of 2024");
    let delaware = find("Delaware");
    assert!(delaware.is_variable);
    assert_eq!(delaware.rate, Percent::from_units(0));
    assert_eq!(delaware.plus_percentage, Percent::from_units(50_000_000_000));
    let oklahoma = find("Oklahoma");
    assert!(oklahoma.is_variable);
    assert_eq!(oklahoma.rate, Percent::from_units(45_000_000_000));
    assert_eq!(oklahoma.plus_percentage, Percent::from_units(40_000_000_000));
    let michigan = find("Michigan");
    assert_eq!(michigan.rate, Percent::from_units(52_500_000_000));
    assert_eq!(michigan.update_frequency, "Semi-Annual");
    let new_mexico = find("New Mexico");
    assert_eq!(new_mexico.rate, Percent::from_units(150_000_000_000));
    assert_eq!(records.iter().filter(|record| record.is_variable).count(), 7);
}
