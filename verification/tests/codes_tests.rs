//! Tests for processing and response codes.

use iso8583_core::{ProcessingCode, ResponseCategory, ResponseCode};

#[test]
fn test_processing_codes() {
    assert_eq!(ProcessingCode::purchase().to_string(), "000000");
    assert_eq!(ProcessingCode::withdrawal_checking().to_string(), "010000");
    assert_eq!(ProcessingCode::balance_inquiry_savings().to_string(), "311000");
}

#[test]
fn processing_code_test_from_string() {
    let code = ProcessingCode::from_str("000000").unwrap();
    assert_eq!(code, ProcessingCode::purchase());

    let code = ProcessingCode::from_str("010000").unwrap();
    assert_eq!(code, ProcessingCode::withdrawal_checking());
}

#[test]
fn test_descriptions() {
    assert_eq!(ProcessingCode::purchase().description(), "Purchase");
    assert_eq!(
        ProcessingCode::withdrawal_savings().description(),
        "Cash Withdrawal from Savings"
    );
    assert_eq!(
        ProcessingCode::balance_inquiry_checking().description(),
        "Balance Inquiry"
    );
}

#[test]
fn test_predicates() {
    assert!(ProcessingCode::balance_inquiry_checking().is_inquiry());
    assert!(ProcessingCode::withdrawal_checking().is_cash());
    assert!(!ProcessingCode::purchase().is_cash());
}

#[test]
fn test_response_codes() {
    assert!(ResponseCode::approved().is_approved());
    assert!(!ResponseCode::do_not_honor().is_approved());
    assert!(ResponseCode::insufficient_funds().is_declined());
    assert!(ResponseCode::refer_to_issuer().is_referral());
    assert!(ResponseCode::issuer_unavailable().is_system_error());
}

#[test]
fn test_card_retention() {
    assert!(ResponseCode::lost_card().should_retain_card());
    assert!(ResponseCode::stolen_card().should_retain_card());
    assert!(!ResponseCode::insufficient_funds().should_retain_card());
}

#[test]
fn test_response_categories() {
    assert_eq!(ResponseCode::approved().category(), ResponseCategory::Approved);
    assert_eq!(
        ResponseCode::insufficient_funds().category(),
        ResponseCategory::InsufficientFunds
    );
    assert_eq!(ResponseCode::incorrect_pin().category(), ResponseCategory::PINError);
}

#[test]
fn response_code_test_from_string() {
    let code = "00".parse::<ResponseCode>().unwrap();
    assert_eq!(code, ResponseCode::approved());

    let code = "51".parse::<ResponseCode>().unwrap();
    assert_eq!(code, ResponseCode::insufficient_funds());
}

#[test]
fn test_to_string() {
    assert_eq!(ResponseCode::approved().to_string(), "00");
    assert_eq!(ResponseCode::insufficient_funds().to_string(), "51");
}

#[test]
fn test_response_description() {
    assert_eq!(ResponseCode::approved().description(), "Approved or completed successfully");
    assert_eq!(ResponseCode::insufficient_funds().description(), "Insufficient funds");
}

#[test]
fn test_invalid_processing_code() {
    assert!(ProcessingCode::from_str("00000").is_none());
    assert!(ProcessingCode::from_str("9900AA").is_none());
    assert!(ProcessingCode::from_str("990000").is_none());
}
