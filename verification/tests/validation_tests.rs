//! Tests for the Luhn check and the field and format validators.

use iso8583_core::field::{Field, FieldValue};
use iso8583_core::{ISO8583Error, Validator};

#[test]
fn test_luhn_valid() {
    // Valid test card numbers
    assert!(Validator::validate_pan("4111111111111111")); // Visa
    assert!(Validator::validate_pan("5500000000000004")); // Mastercard
    assert!(Validator::validate_pan("340000000000009")); // Amex
}

#[test]
fn test_luhn_invalid() {
    assert!(!Validator::validate_pan("4111111111111112")); // Wrong check digit
    assert!(!Validator::validate_pan("1234567890123456")); // Invalid
    assert!(!Validator::validate_pan("0000000000000000")); // All zeros
}

#[test]
fn test_luhn_with_spaces() {
    assert!(Validator::validate_pan("4111 1111 1111 1111")); // With spaces
}

#[test]
fn test_pan_length() {
    assert!(!Validator::validate_pan("123")); // Too short
    assert!(!Validator::validate_pan("12345678901234567890")); // Too long
}

#[test]
fn test_validate_date_mmdd() {
    assert!(Validator::validate_date_mmdd("0101")); // Jan 1
    assert!(Validator::validate_date_mmdd("1231")); // Dec 31
    assert!(!Validator::validate_date_mmdd("1301")); // Invalid month
    assert!(!Validator::validate_date_mmdd("0132")); // Invalid day
    assert!(!Validator::validate_date_mmdd("123")); // Wrong length
}

#[test]
fn test_validate_time_hhmmss() {
    assert!(Validator::validate_time_hhmmss("000000")); // Midnight
    assert!(Validator::validate_time_hhmmss("235959")); // One before midnight
    assert!(Validator::validate_time_hhmmss("120000")); // Noon
    assert!(!Validator::validate_time_hhmmss("240000")); // Invalid hour
    assert!(!Validator::validate_time_hhmmss("126000")); // Invalid minute
    assert!(!Validator::validate_time_hhmmss("120060")); // Invalid second
}

#[test]
fn test_validate_currency_code() {
    assert!(Validator::validate_currency_code("840")); // USD
    assert!(Validator::validate_currency_code("566")); // NGN
    assert!(Validator::validate_currency_code("978")); // EUR
    assert!(!Validator::validate_currency_code("USD")); // Not numeric
    assert!(!Validator::validate_currency_code("84")); // Too short
}

#[test]
fn test_validate_field_format() {
    // Numeric field with non-digit content
    let bad = FieldValue::from_string(String::from("12AB56"));
    assert!(Validator::validate_field_format(Field::ProcessingCode, &bad).is_err());

    // Fixed length mismatch
    let short = FieldValue::from_string(String::from("1234"));
    assert_eq!(
        Validator::validate_field_format(Field::ProcessingCode, &short),
        Err(ISO8583Error::FieldLengthMismatch { field: 3, expected: 6, actual: 4 })
    );

    // Correct
    let good = FieldValue::from_string(String::from("123456"));
    assert!(Validator::validate_field_format(Field::ProcessingCode, &good).is_ok());

    // Variable-length field over its maximum
    let long = FieldValue::from_string(String::from("12345678901234567890"));
    assert!(Validator::validate_field_format(Field::PrimaryAccountNumber, &long).is_err());
}

#[test]
fn test_validate_field_value() {
    let good_pan = FieldValue::from_string(String::from("4111111111111111"));
    assert!(Validator::validate_field_value(Field::PrimaryAccountNumber, &good_pan).is_ok());

    let bad_pan = FieldValue::from_string(String::from("4111111111111112"));
    assert_eq!(
        Validator::validate_field_value(Field::PrimaryAccountNumber, &bad_pan),
        Err(ISO8583Error::LuhnCheckFailed)
    );

    let zero_amount = FieldValue::from_string(String::from("000000000000"));
    assert!(Validator::validate_field_value(Field::TransactionAmount, &zero_amount).is_err());

    let amount = FieldValue::from_string(String::from("000000000100"));
    assert!(Validator::validate_field_value(Field::TransactionAmount, &amount).is_ok());

    let code = FieldValue::from_string(String::from("00"));
    assert!(Validator::validate_field_value(Field::ResponseCode, &code).is_ok());
    let bad_code = FieldValue::from_string(String::from("000"));
    assert!(Validator::validate_field_value(Field::ResponseCode, &bad_code).is_err());
}

#[test]
fn test_luhn_check_direct() {
    assert!(Validator::luhn_check("4111111111111111"));
    assert!(!Validator::luhn_check("4111111111111112"));
    assert!(!Validator::luhn_check("41x1"));
}
