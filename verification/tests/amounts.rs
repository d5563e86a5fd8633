//! Unit tests of the amount parser: decimal strings in minor currency
//! units, with anything invalid counting as zero.

use ledgerbook::amounts::parse_amount;

fn parse(s: &str) -> i64 {
    parse_amount(&s.to_string())
}

#[test]
fn plain_numbers_parse() {
    assert_eq!(parse("0"), 0);
    assert_eq!(parse("7"), 7);
    assert_eq!(parse("1000"), 1000);
    assert_eq!(parse("0042"), 42);
}

#[test]
fn a_leading_plus_is_accepted() {
    assert_eq!(parse("+7"), 7);
    assert_eq!(parse("+0"), 0);
}

#[test]
fn the_largest_balance_fits() {
    assert_eq!(parse("9223372036854775807"), i64::MAX);
}

#[test]
fn invalid_amounts_count_as_zero() {
    assert_eq!(parse(""), 0);
    assert_eq!(parse("+"), 0);
    assert_eq!(parse("12a"), 0);
    assert_eq!(parse("a12"), 0);
    assert_eq!(parse("1 2"), 0);
    assert_eq!(parse("12.50"), 0);
    // amounts are non-negative, so a sign makes the field invalid
    assert_eq!(parse("-5"), 0);
}

#[test]
fn out_of_range_amounts_count_as_zero() {
    assert_eq!(parse("9223372036854775808"), 0);
    assert_eq!(parse("99999999999999999999"), 0);
}
