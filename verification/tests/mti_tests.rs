//! Tests for the message type indicator.

use iso8583_core::{MessageClass, MessageFunction, MessageOrigin, MessageType};

#[test]
fn test_mti_parsing() {
    let mti = MessageType::from_str("0100").unwrap();
    assert_eq!(mti.version, 0);
    assert_eq!(mti.class, MessageClass::Authorization);
    assert_eq!(mti.function, MessageFunction::Request);
    assert_eq!(mti.origin, MessageOrigin::Acquirer);
    assert_eq!(mti.to_string(), "0100");
}

#[test]
fn test_mti_constants() {
    assert_eq!(MessageType::authorization_request().to_string(), "0100");
    assert_eq!(MessageType::authorization_response().to_string(), "0110");
    assert_eq!(MessageType::financial_request().to_string(), "0200");
    assert_eq!(MessageType::financial_response().to_string(), "0210");
    assert_eq!(MessageType::reversal_request().to_string(), "0400");
    assert_eq!(MessageType::network_management_request().to_string(), "0800");
}

#[test]
fn test_mti_predicates() {
    let request = MessageType::authorization_request();
    assert!(request.is_request());
    assert!(!request.is_response());
    assert!(!request.is_advice());

    let response = MessageType::authorization_response();
    assert!(!response.is_request());
    assert!(response.is_response());
    assert!(!response.is_advice());

    let advice = MessageType::authorization_advice();
    assert!(!advice.is_request());
    assert!(!advice.is_response());
    assert!(advice.is_advice());
}

#[test]
fn test_to_response() {
    let request = MessageType::authorization_request();
    let response = request.to_response().unwrap();
    assert_eq!(response, MessageType::authorization_response());

    // Cannot convert response to response
    let err = response.to_response();
    assert!(err.is_err());
}

#[test]
fn test_invalid_mti() {
    assert!(MessageType::from_str("123").is_err()); // Too short
    assert!(MessageType::from_str("12345").is_err()); // Too long
    assert!(MessageType::from_str("abcd").is_err()); // Invalid chars
}

#[test]
fn test_mti_from_bytes() {
    let mti = MessageType::from_bytes(b"0210abc").unwrap();
    assert_eq!(mti.to_string(), "0210");
    assert!(MessageType::from_bytes(b"02").is_err());
    assert!(MessageType::from_bytes(b"02x0").is_err());
}
