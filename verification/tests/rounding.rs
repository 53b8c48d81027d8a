use judgment_interest::rounding::{magnitude_of, round_div, round_div_signed};

#[test]
fn magnitudes_reach_two_to_the_sixty_third() {
    assert_eq!(magnitude_of(0), 0);
    assert_eq!(magnitude_of(5), 5);
    assert_eq!(magnitude_of(-5), 5);
    assert_eq!(magnitude_of(i64::MAX), 9_223_372_036_854_775_807);
    assert_eq!(magnitude_of(i64::MIN), 9_223_372_036_854_775_808);
}

#[test]
fn quotients_round_to_the_nearest() {
    assert_eq!(round_div(0, 7), 0);
    assert_eq!(round_div(3, 7), 0);
    assert_eq!(round_div(4, 7), 1);
    assert_eq!(round_div(10, 4), 3);
    assert_eq!(round_div(9, 4), 2);
    assert_eq!(round_div(11, 4), 3);
    assert_eq!(round_div(12, 4), 3);
    assert_eq!(round_div(5, 1), 5);
    assert_eq!(round_div(1, 2), 1);
    assert_eq!(round_div(u128::MAX, 1), u128::MAX);
    assert_eq!(round_div(u128::MAX, u128::MAX), 1);
    assert_eq!(round_div(u128::MAX / 2, u128::MAX), 0);
    assert_eq!(round_div(u128::MAX / 2 + 1, u128::MAX), 1);
    assert_eq!(round_div(u128::MAX, 2), u128::MAX / 2 + 1);
}

#[test]
fn signed_quotients_round_away_from_zero() {
    assert_eq!(round_div_signed(10, 4), 3);
    assert_eq!(round_div_signed(-10, 4), -3);
    assert_eq!(round_div_signed(9, 4), 2);
    assert_eq!(round_div_signed(-9, 4), -2);
    assert_eq!(round_div_signed(-1, 2), -1);
    assert_eq!(round_div_signed(0, 9), 0);
    assert_eq!(round_div_signed(i128::MAX, 1), i128::MAX);
    assert_eq!(round_div_signed(i128::MIN + 1, 1), i128::MIN + 1);
    assert_eq!(round_div_signed(-7, 7), -1);
}
