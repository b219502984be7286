//! Tests for the message type itself: creation, field access, mutation,
//! and the builder's required-field rule.

use iso8583_core::field::{Field, FieldValue};
use iso8583_core::{ISO8583Message, MessageType};

#[test]
fn test_message_creation() {
    let msg = ISO8583Message::new(MessageType::authorization_request());
    assert_eq!(msg.mti, MessageType::authorization_request());
    assert_eq!(msg.get_field_numbers().len(), 0);
}

#[test]
fn test_set_and_get_field() {
    let mut msg = ISO8583Message::new(MessageType::authorization_request());

    msg.set_field(
        Field::PrimaryAccountNumber,
        FieldValue::from_string(String::from("4111111111111111")),
    )
    .unwrap();

    assert!(msg.has_field(Field::PrimaryAccountNumber));
    let value = msg.get_field(Field::PrimaryAccountNumber).unwrap();
    assert_eq!(value.as_string(), Some("4111111111111111"));
}

#[test]
fn test_remove_field() {
    let mut msg = ISO8583Message::new(MessageType::authorization_request());

    msg.set_field(
        Field::PrimaryAccountNumber,
        FieldValue::from_string(String::from("4111111111111111")),
    )
    .unwrap();

    assert!(msg.has_field(Field::PrimaryAccountNumber));

    msg.remove_field(Field::PrimaryAccountNumber).unwrap();

    assert!(!msg.has_field(Field::PrimaryAccountNumber));
}

#[test]
fn test_builder() {
    let msg = ISO8583Message::builder()
        .mti(MessageType::financial_request())
        .field(Field::ProcessingCode, "000000")
        .field(Field::SystemTraceAuditNumber, "123456")
        .field(Field::LocalTransactionTime, "120000")
        .field(Field::LocalTransactionDate, "0101");

    // build() fails because required fields are missing for a financial
    // request: account number and amount.
    assert!(msg.build().is_err());
}

#[test]
fn test_bitmap() {
    let mut bitmap = iso8583_core::Bitmap::new();
    bitmap.set(2).unwrap();
    assert!(bitmap.is_set(2));
}

#[test]
fn test_message_roundtrip() {
    let message = ISO8583Message::builder()
        .mti(MessageType::authorization_request())
        .field(Field::PrimaryAccountNumber, "4111111111111111")
        .field(Field::ProcessingCode, "000000")
        .field(Field::TransactionAmount, "000000010000")
        .field(Field::SystemTraceAuditNumber, "123456")
        .field(Field::LocalTransactionTime, "120000")
        .field(Field::LocalTransactionDate, "0115")
        .build()
        .unwrap();

    let bytes = message.to_bytes();
    let parsed = ISO8583Message::from_bytes(&bytes).unwrap();

    assert_eq!(parsed.mti, MessageType::authorization_request());
}

#[test]
fn test_indicator_fields_rejected() {
    let mut msg = ISO8583Message::new(MessageType::authorization_request());
    assert!(msg.set_field(Field::SecondaryBitmap, FieldValue::from_binary(vec![0u8; 8])).is_err());
    assert!(msg.set_field(Field::TertiaryBitmap, FieldValue::from_binary(vec![0u8; 8])).is_err());
}

#[test]
fn test_binary_field_builder() {
    let message = ISO8583Message::builder()
        .mti(MessageType::authorization_request())
        .field(Field::PrimaryAccountNumber, "4111111111111111")
        .field(Field::ProcessingCode, "000000")
        .field(Field::TransactionAmount, "000000010000")
        .field(Field::SystemTraceAuditNumber, "123456")
        .field(Field::LocalTransactionTime, "120000")
        .field(Field::LocalTransactionDate, "0115")
        .binary_field(Field::PersonalIdentificationNumberData, vec![9, 8, 7, 6, 5, 4, 3, 2])
        .build()
        .unwrap();

    let bytes = message.to_bytes();
    let parsed = ISO8583Message::from_bytes(&bytes).unwrap();
    assert_eq!(
        parsed.get_field(Field::PersonalIdentificationNumberData).unwrap().as_binary(),
        Some(&[9u8, 8, 7, 6, 5, 4, 3, 2][..])
    );
}

#[test]
fn test_invalid_mti_error_kind() {
    let result = ISO8583Message::from_bytes(b"01x012345678");
    match result {
        Err(iso8583_core::ISO8583Error::InvalidMTI(_)) => {}
        other => panic!("unexpected result: {:?}", other),
    }
}
