//! Scenario tests from the protocol description: the authorization request
//! round trip, the missing-field rule, the truncated buffer, the secondary
//! bitmap, and the length-prefix bounds.

use iso8583_core::{Field, ISO8583Error, ISO8583Message, MessageType};

#[test]
fn test_authorization_request_scenario() {
    let message = ISO8583Message::builder()
        .mti(MessageType::from_str("0100").unwrap())
        .field(Field::PrimaryAccountNumber, "4111111111111111")
        .field(Field::ProcessingCode, "010000")
        .field(Field::TransactionAmount, "000000020000")
        .field(Field::SystemTraceAuditNumber, "123456")
        .field(Field::LocalTransactionTime, "150000")
        .field(Field::LocalTransactionDate, "0115")
        .build()
        .unwrap();

    let bytes = message.to_bytes();
    let parsed = ISO8583Message::from_bytes(&bytes).unwrap();

    assert_eq!(parsed.mti.to_string(), "0100");
    assert_eq!(
        parsed.get_field(Field::PrimaryAccountNumber).unwrap().as_string(),
        Some("4111111111111111")
    );
    assert_eq!(parsed.get_field(Field::ProcessingCode).unwrap().as_string(), Some("010000"));
    assert_eq!(
        parsed.get_field(Field::TransactionAmount).unwrap().as_string(),
        Some("000000020000")
    );
    assert_eq!(
        parsed.get_field(Field::SystemTraceAuditNumber).unwrap().as_string(),
        Some("123456")
    );
    assert_eq!(
        parsed.get_field(Field::LocalTransactionTime).unwrap().as_string(),
        Some("150000")
    );
    assert_eq!(parsed.get_field(Field::LocalTransactionDate).unwrap().as_string(), Some("0115"));
}

#[test]
fn test_missing_required_field_scenario() {
    // Omit the transaction amount from an authorization request
    let result = ISO8583Message::builder()
        .mti(MessageType::from_str("0100").unwrap())
        .field(Field::PrimaryAccountNumber, "4111111111111111")
        .field(Field::ProcessingCode, "010000")
        .field(Field::SystemTraceAuditNumber, "123456")
        .field(Field::LocalTransactionTime, "150000")
        .field(Field::LocalTransactionDate, "0115")
        .build();

    assert_eq!(result.unwrap_err(), ISO8583Error::MissingRequiredField(4));
}

#[test]
fn test_truncated_buffer_scenario() {
    let result = ISO8583Message::from_bytes(&[0u8; 4]);
    assert_eq!(
        result.unwrap_err(),
        ISO8583Error::MessageTooShort { expected: 12, actual: 4 }
    );
}

#[test]
fn test_secondary_bitmap_scenario() {
    let mut message = ISO8583Message::new(MessageType::from_str("0800").unwrap());
    message
        .set_field(
            Field::NetworkManagementInformationCode,
            iso8583_core::FieldValue::from_string(String::from("001")),
        )
        .unwrap();

    // Field 70 forces the secondary block: the bitmap serializes to 16 bytes
    assert_eq!(message.bitmap().to_bytes().len(), 16);

    let bytes = message.to_bytes();
    let parsed = ISO8583Message::from_bytes(&bytes).unwrap();

    assert!(parsed.has_field(Field::NetworkManagementInformationCode));
    assert!(parsed.bitmap().is_set(70));
    assert!(parsed.bitmap().is_set(1));
    assert!(!parsed.bitmap().is_set(65));
}

#[test]
fn test_llvar_length_exceeds_maximum() {
    // MTI + primary bitmap with field 2 set, then an LLVAR prefix declaring
    // ninety-nine digits: above the nineteen-digit maximum of the account
    // number field, so parsing must fail.
    let mut bytes: Vec<u8> = Vec::new();
    bytes.extend_from_slice(b"0100");
    bytes.extend_from_slice(&[0x40, 0, 0, 0, 0, 0, 0, 0]);
    bytes.extend_from_slice(b"99");
    bytes.extend_from_slice(&[0x30u8; 99]);
    assert!(ISO8583Message::from_bytes(&bytes).is_err());
}

#[test]
fn test_llvar_length_exceeds_buffer() {
    // An in-range declared length with fewer value bytes remaining.
    let mut bytes: Vec<u8> = Vec::new();
    bytes.extend_from_slice(b"0100");
    bytes.extend_from_slice(&[0x40, 0, 0, 0, 0, 0, 0, 0]);
    bytes.extend_from_slice(b"16");
    bytes.extend_from_slice(b"41111111"); // only eight of sixteen bytes
    assert!(ISO8583Message::from_bytes(&bytes).is_err());
}

#[test]
fn test_llvar_in_range_parses() {
    let mut bytes: Vec<u8> = Vec::new();
    bytes.extend_from_slice(b"0100");
    bytes.extend_from_slice(&[0x40, 0, 0, 0, 0, 0, 0, 0]);
    bytes.extend_from_slice(b"16");
    bytes.extend_from_slice(b"4111111111111111");
    let parsed = ISO8583Message::from_bytes(&bytes).unwrap();
    assert_eq!(
        parsed.get_field(Field::PrimaryAccountNumber).unwrap().as_string(),
        Some("4111111111111111")
    );
}

#[test]
fn test_unknown_field_rejected() {
    // A tertiary-range presence bit has no field definition: hard error.
    let mut bytes: Vec<u8> = Vec::new();
    bytes.extend_from_slice(b"0100");
    // primary: bit 1 set (secondary present)
    bytes.extend_from_slice(&[0x80, 0, 0, 0, 0, 0, 0, 0]);
    // secondary: bit 65 set (tertiary present)
    bytes.extend_from_slice(&[0x80, 0, 0, 0, 0, 0, 0, 0]);
    // tertiary: field 130 present
    bytes.extend_from_slice(&[0x40, 0, 0, 0, 0, 0, 0, 0]);
    assert!(ISO8583Message::from_bytes(&bytes).is_err());
}

#[test]
fn test_missing_secondary_block_rejected() {
    // Primary announces a secondary block that is not there.
    let mut bytes: Vec<u8> = Vec::new();
    bytes.extend_from_slice(b"0800");
    bytes.extend_from_slice(&[0x80, 0, 0, 0, 0, 0, 0, 0]);
    assert!(ISO8583Message::from_bytes(&bytes).is_err());
}

#[test]
fn test_fixed_field_padding() {
    // A short numeric value in a fixed field is zero-padded on the left at
    // serialization time.
    let mut message = ISO8583Message::new(MessageType::from_str("0100").unwrap());
    message
        .set_field(
            Field::ProcessingCode,
            iso8583_core::FieldValue::from_string(String::from("12")),
        )
        .unwrap();
    let bytes = message.to_bytes();
    let parsed = ISO8583Message::from_bytes(&bytes).unwrap();
    assert_eq!(parsed.get_field(Field::ProcessingCode).unwrap().as_string(), Some("000012"));
}

#[test]
fn test_binary_field_round_trip() {
    let mut message = ISO8583Message::new(MessageType::from_str("0100").unwrap());
    message
        .set_field(
            Field::PersonalIdentificationNumberData,
            iso8583_core::FieldValue::from_binary(vec![1, 2, 3, 4, 5, 6, 7, 8]),
        )
        .unwrap();
    let bytes = message.to_bytes();
    let parsed = ISO8583Message::from_bytes(&bytes).unwrap();
    assert_eq!(
        parsed.get_field(Field::PersonalIdentificationNumberData).unwrap().as_binary(),
        Some(&[1u8, 2, 3, 4, 5, 6, 7, 8][..])
    );
}

#[test]
fn test_invalid_text_field_rejected() {
    // A text-typed field holding a byte that is not valid UTF-8 fails to
    // parse.
    let mut bytes: Vec<u8> = Vec::new();
    bytes.extend_from_slice(b"0100");
    // primary: field 3 present
    bytes.extend_from_slice(&[0x20, 0, 0, 0, 0, 0, 0, 0]);
    bytes.extend_from_slice(&[0x30, 0x30, 0xFF, 0x30, 0x30, 0x30]);
    assert!(ISO8583Message::from_bytes(&bytes).is_err());
}

#[test]
fn test_utf8_text_field_accepted() {
    // A text-typed field may carry any valid UTF-8, not just ASCII: here a
    // two-byte character inside a variable-length field.
    let mut bytes: Vec<u8> = Vec::new();
    bytes.extend_from_slice(b"0100");
    // primary: field 44 present
    bytes.extend_from_slice(&[0, 0, 0, 0, 0, 0x10, 0, 0]);
    bytes.extend_from_slice(b"03");
    bytes.extend_from_slice("\u{e9}A".as_bytes());
    let parsed = ISO8583Message::from_bytes(&bytes).unwrap();
    assert_eq!(
        parsed.get_field(Field::AdditionalResponseData).unwrap().as_string(),
        Some("\u{e9}A")
    );
}

#[test]
fn test_utf8_text_round_trip() {
    // A non-ASCII text value survives the serialize/parse round trip.
    let mut message = ISO8583Message::new(MessageType::from_str("0100").unwrap());
    message
        .set_field(
            Field::Track1Data,
            iso8583_core::FieldValue::from_string(String::from("CAF\u{c9} 42")),
        )
        .unwrap();
    let bytes = message.to_bytes();
    let parsed = ISO8583Message::from_bytes(&bytes).unwrap();
    assert_eq!(parsed.get_field(Field::Track1Data).unwrap().as_string(), Some("CAF\u{c9} 42"));
}
