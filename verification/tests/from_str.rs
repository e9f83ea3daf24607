use nhs_number::parse_error::ParseError;
use nhs_number::NHSNumber;
use std::str::FromStr;

#[test]
fn test_from_str_with_length_10_without_spaces() {
    let s = String::from("0123456789");
    let actual: NHSNumber = NHSNumber::from_str(&s).unwrap();
    let expect: NHSNumber = NHSNumber::new([0, 1, 2, 3, 4, 5, 6, 7, 8, 9]);
    assert_eq!(actual, expect);
}

#[test]
fn test_from_str_with_length_12_with_spaces() {
    let s = String::from("012 345 6789");
    let actual: NHSNumber = NHSNumber::from_str(&s).unwrap();
    let expect: NHSNumber = NHSNumber::new([0, 1, 2, 3, 4, 5, 6, 7, 8, 9]);
    assert_eq!(actual, expect);
}

#[test]
fn test_from_str_with_wrong_characters() {
    let s = String::from("012-345-6789");
    let result: Result<NHSNumber, ParseError> = NHSNumber::from_str(&s);
    assert!(result.is_err());
}

#[test]
fn test_from_str_with_wrong_leading_space() {
    let s = String::from(" 012 345 6789");
    let result: Result<NHSNumber, ParseError> = NHSNumber::from_str(&s);
    assert!(result.is_err());
}

#[test]
fn test_from_str_with_first_space_without_last_space() {
    let s = String::from("012 3456789");
    let result: Result<NHSNumber, ParseError> = NHSNumber::from_str(&s);
    assert!(result.is_err());
}

#[test]
fn test_from_str_without_first_space_with_last_space() {
    let s = String::from("012345 6789");
    let result: Result<NHSNumber, ParseError> = NHSNumber::from_str(&s);
    assert!(result.is_err());
}

#[test]
fn test_from_str_with_wrong_inner_space() {
    let s = String::from("012  345  6789");
    let result: Result<NHSNumber, ParseError> = NHSNumber::from_str(&s);
    assert!(result.is_err());
}

#[test]
fn test_from_str_with_wrong_trailing_space() {
    let s = String::from("012 345 6789 ");
    let result: Result<NHSNumber, ParseError> = NHSNumber::from_str(&s);
    assert!(result.is_err());
}

#[test]
fn test_from_str_with_wrong_length() {
    let s = String::from("012");
    let result: Result<NHSNumber, ParseError> = NHSNumber::from_str(&s);
    assert!(result.is_err());
}
