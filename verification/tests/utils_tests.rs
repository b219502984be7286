//! Tests for display helpers, date and time rendering, and trace numbers.

use iso8583_core::utils::{
    currency_name, currency_symbol, format_amount, format_expiration_date, generate_auth_id,
    generate_local_date, generate_local_time, generate_rrn, generate_stan,
    generate_transmission_datetime, mask_pan, parse_expiration_date, parse_transmission_datetime,
    validate_track2,
};

#[test]
fn test_mask_pan() {
    assert_eq!(mask_pan("4111111111111111"), "411111****1111");
    assert_eq!(mask_pan("5500000000000004"), "550000****0004");
    assert_eq!(mask_pan("123"), "***"); // Too short
}

#[test]
fn test_format_amount() {
    assert_eq!(format_amount("000000010000", "$"), "$100.00");
    assert_eq!(format_amount("000000020050", "\u{20a6}"), "\u{20a6}200.50");
    assert_eq!(format_amount("000000000001", "$"), "$0.01");
}

#[test]
fn test_datetime_generation() {
    let dt = generate_transmission_datetime();
    assert_eq!(dt.len(), 10);

    let time = generate_local_time();
    assert_eq!(time.len(), 6);

    let date = generate_local_date();
    assert_eq!(date.len(), 4);
}

#[test]
fn test_parse_transmission_datetime() {
    let result = parse_transmission_datetime("0115120530");
    assert!(result.is_ok());
    let (month, day, hour, minute, second) = result.unwrap();
    assert_eq!(month, 1);
    assert_eq!(day, 15);
    assert_eq!(hour, 12);
    assert_eq!(minute, 5);
    assert_eq!(second, 30);
}

#[test]
fn test_expiration_date() {
    assert_eq!(format_expiration_date(2025, 12), "2512");

    let result = parse_expiration_date("2512");
    assert!(result.is_ok());
    let (year, month) = result.unwrap();
    assert_eq!(year, 25);
    assert_eq!(month, 12);
}

#[test]
fn test_stan_generation() {
    let mut counter: u32 = 1;
    let stan1 = generate_stan(&mut counter);
    let stan2 = generate_stan(&mut counter);
    assert_eq!(stan1.len(), 6);
    assert_eq!(stan2.len(), 6);
    assert_ne!(stan1, stan2); // Should be different
    assert_eq!(stan1, "000001");
    assert_eq!(stan2, "000002");
}

#[test]
fn test_currency_functions() {
    assert_eq!(currency_symbol("840"), "$");
    assert_eq!(currency_symbol("566"), "\u{20a6}");
    assert_eq!(currency_name("840"), "US Dollar");
    assert_eq!(currency_name("566"), "Nigerian Naira");
}

#[test]
fn test_track2_validation() {
    assert!(validate_track2("4111111111111111=25121011234567890"));
    assert!(validate_track2("5500000000000004=2512"));
    assert!(!validate_track2("4111111111111111")); // No separator
    assert!(!validate_track2("123=25")); // PAN too short
}

#[test]
fn test_auth_id_generation() {
    let auth_id = generate_auth_id();
    assert_eq!(auth_id.len(), 6);
    assert!(auth_id.chars().all(|c| c.is_ascii_hexdigit()));
}

#[test]
fn test_rrn_generation() {
    let mut counter: u32 = 7;
    let rrn = generate_rrn(&mut counter);
    assert_eq!(rrn.len(), 12);
    assert!(rrn.chars().all(|c| c.is_ascii_digit()));
    assert_eq!(&rrn[6..], "000007");
}

#[test]
fn test_datetime_in_range() {
    let dt = generate_transmission_datetime();
    let parsed = parse_transmission_datetime(&dt);
    assert!(parsed.is_ok());

    let date = generate_local_date();
    assert!(iso8583_core::Validator::validate_date_mmdd(&date));
    let time = generate_local_time();
    assert!(iso8583_core::Validator::validate_time_hhmmss(&time));
}
