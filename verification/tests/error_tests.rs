//! Tests for error values and their descriptions.

use iso8583_core::encoding::encode_bcd;
use iso8583_core::{
    Bitmap, Field, ISO8583Error, MessageClass, MessageFunction, MessageOrigin, MessageType,
};

#[test]
fn test_error_display() {
    let err = ISO8583Error::InvalidMTI("9999".to_string());
    assert_eq!(err.message(), "Invalid MTI: 9999");

    let err = ISO8583Error::FieldNotPresent(2);
    assert_eq!(err.message(), "Field 2 not present in message");

    let err = ISO8583Error::invalid_field_value(4, "Amount cannot be negative");
    assert_eq!(err.message(), "Invalid value for field 4: Amount cannot be negative");
}

#[test]
fn test_error_equality() {
    let err1 = ISO8583Error::InvalidMTI("0100".to_string());
    let err2 = ISO8583Error::InvalidMTI("0100".to_string());
    let err3 = ISO8583Error::InvalidMTI("0200".to_string());

    assert_eq!(err1, err2);
    assert_ne!(err1, err3);
}

#[test]
fn test_error_constructors() {
    assert_eq!(
        ISO8583Error::message_too_short(12, 4),
        ISO8583Error::MessageTooShort { expected: 12, actual: 4 }
    );
    assert_eq!(
        ISO8583Error::field_length_mismatch(3, 6, 4),
        ISO8583Error::FieldLengthMismatch { field: 3, expected: 6, actual: 4 }
    );
    let custom = ISO8583Error::custom("anything");
    assert_eq!(custom.message(), "Custom error: anything");
}

#[test]
fn test_error_variant_inputs() {
    // Each reachable error variant from an input that triggers it.
    match MessageType::from_str("abcd") {
        Err(ISO8583Error::InvalidMTI(_)) => {}
        other => panic!("unexpected: {:?}", other),
    }
    assert_eq!(Field::from_number(0), Err(ISO8583Error::InvalidFieldNumber(0)));
    match Bitmap::from_bytes(&[0u8; 4]) {
        Err(ISO8583Error::InvalidBitmap(_)) => {}
        other => panic!("unexpected: {:?}", other),
    }
    match Bitmap::from_hex("zz") {
        Err(ISO8583Error::InvalidBitmap(_)) => {}
        other => panic!("unexpected: {:?}", other),
    }
    match encode_bcd("1x") {
        Err(ISO8583Error::EncodingError(_)) => {}
        other => panic!("unexpected: {:?}", other),
    }
    match MessageClass::from_digit(10) {
        Err(ISO8583Error::InvalidMessageClass(_)) => {}
        other => panic!("unexpected: {:?}", other),
    }
    match MessageFunction::from_digit(10) {
        Err(ISO8583Error::InvalidMessageFunction(_)) => {}
        other => panic!("unexpected: {:?}", other),
    }
    match MessageOrigin::from_digit(10) {
        Err(ISO8583Error::InvalidMessageOrigin(_)) => {}
        other => panic!("unexpected: {:?}", other),
    }
    match iso8583_core::utils::parse_transmission_datetime("9915120000") {
        Err(ISO8583Error::InvalidDateTime { field: 7, .. }) => {}
        other => panic!("unexpected: {:?}", other),
    }
}
