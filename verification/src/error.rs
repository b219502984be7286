//! Error values for message processing. Every boundary operation returns one
//! of these instead of panicking; the structured variants carry the numbers
//! that the codec's contracts speak about.

use vstd::prelude::*;
use crate::ascii::{chars_of_bytes, dec_digits, dec_string};

verus! {

/// Errors that can occur while building, parsing, serializing, or
/// validating a message.
#[derive(Debug, Clone, PartialEq, Eq)]
pub enum ISO8583Error {
    /// Invalid message type indicator
    InvalidMTI(String),
    /// Invalid field number
    InvalidFieldNumber(u8),
    /// Field not present in message
    FieldNotPresent(u8),
    /// Invalid field value
    InvalidFieldValue { field: u8, reason: String },
    /// Field length mismatch
    FieldLengthMismatch { field: u8, expected: usize, actual: usize },
    /// Invalid bitmap
    InvalidBitmap(String),
    /// Invalid encoding
    InvalidEncoding(String),
    /// Message too short
    MessageTooShort { expected: usize, actual: usize },
    /// Invalid primary account number
    InvalidPAN(String),
    /// Luhn check failed
    LuhnCheckFailed,
    /// Invalid amount
    InvalidAmount(String),
    /// Invalid date or time
    InvalidDateTime { field: u8, reason: String },
    /// Missing required field
    MissingRequiredField(u8),
    /// Parse error
    ParseError(String),
    /// Encoding error
    EncodingError(String),
    /// Validation error
    ValidationError(String),
    /// Builder error
    BuilderError(String),
    /// Invalid message class
    InvalidMessageClass(String),
    /// Invalid message function
    InvalidMessageFunction(String),
    /// Invalid message origin
    InvalidMessageOrigin(String),
    /// Custom error
    Custom(String),
}

impl ISO8583Error {
    /// Create a custom error.
    pub fn custom(msg: &str) -> (r: Self)
        ensures
            r matches ISO8583Error::Custom(m) && m@ == msg@,
    {
        ISO8583Error::Custom(String::from_str(msg))
    }

    /// Create an invalid field value error.
    pub fn invalid_field_value(field: u8, reason: &str) -> (r: Self)
        ensures
            r matches ISO8583Error::InvalidFieldValue { field: f, reason: m } && f == field && m@
                == reason@,
    {
        ISO8583Error::InvalidFieldValue { field, reason: String::from_str(reason) }
    }

    /// Create a field length mismatch error.
    pub fn field_length_mismatch(field: u8, expected: usize, actual: usize) -> (r: Self)
        ensures
            r == (ISO8583Error::FieldLengthMismatch { field, expected, actual }),
    {
        ISO8583Error::FieldLengthMismatch { field, expected, actual }
    }

    /// Create a message too short error.
    pub fn message_too_short(expected: usize, actual: usize) -> (r: Self)
        ensures
            r == (ISO8583Error::MessageTooShort { expected, actual }),
    {
        ISO8583Error::MessageTooShort { expected, actual }
    }

    /// Create an invalid date/time error.
    pub fn invalid_datetime(field: u8, reason: &str) -> (r: Self)
        ensures
            r matches ISO8583Error::InvalidDateTime { field: f, reason: m } && f == field && m@
                == reason@,
    {
        ISO8583Error::InvalidDateTime { field, reason: String::from_str(reason) }
    }

    /// Human-readable description of the error.
    pub fn message(&self) -> (r: String)
        ensures
            r@ == spec_error_text(*self),
    {
        match self {
            ISO8583Error::InvalidMTI(s) => {
                String::from_str("Invalid MTI: ").concat(s.as_str())
            },
            ISO8583Error::InvalidFieldNumber(n) => {
                String::from_str("Invalid field number: ").concat(dec_string(*n as u64).as_str())
            },
            ISO8583Error::FieldNotPresent(n) => {
                let mut out = String::from_str("Field ");
                out.append(dec_string(*n as u64).as_str());
                out.append(" not present in message");
                out
            },
            ISO8583Error::InvalidFieldValue { field, reason } => {
                let mut out = String::from_str("Invalid value for field ");
                out.append(dec_string(*field as u64).as_str());
                out.append(": ");
                out.append(reason.as_str());
                out
            },
            ISO8583Error::FieldLengthMismatch { field, expected, actual } => {
                let mut out = String::from_str("Field ");
                out.append(dec_string(*field as u64).as_str());
                out.append(" length mismatch: expected ");
                out.append(dec_string(*expected as u64).as_str());
                out.append(", got ");
                out.append(dec_string(*actual as u64).as_str());
                out
            },
            ISO8583Error::InvalidBitmap(s) => {
                String::from_str("Invalid bitmap: ").concat(s.as_str())
            },
            ISO8583Error::InvalidEncoding(s) => {
                String::from_str("Invalid encoding: ").concat(s.as_str())
            },
            ISO8583Error::MessageTooShort { expected, actual } => {
                let mut out = String::from_str("Message too short: expected at least ");
                out.append(dec_string(*expected as u64).as_str());
                out.append(" bytes, got ");
                out.append(dec_string(*actual as u64).as_str());
                out
            },
            ISO8583Error::InvalidPAN(s) => {
                String::from_str("Invalid PAN: ").concat(s.as_str())
            },
            ISO8583Error::LuhnCheckFailed => {
                String::from_str("Luhn check failed for PAN")
            },
            ISO8583Error::InvalidAmount(s) => {
                String::from_str("Invalid amount: ").concat(s.as_str())
            },
            ISO8583Error::InvalidDateTime { field, reason } => {
                let mut out = String::from_str("Invalid date/time in field ");
                out.append(dec_string(*field as u64).as_str());
                out.append(": ");
                out.append(reason.as_str());
                out
            },
            ISO8583Error::MissingRequiredField(n) => {
                String::from_str("Missing required field: ").concat(dec_string(*n as u64).as_str())
            },
            ISO8583Error::ParseError(s) => {
                String::from_str("Parse error: ").concat(s.as_str())
            },
            ISO8583Error::EncodingError(s) => {
                String::from_str("Encoding error: ").concat(s.as_str())
            },
            ISO8583Error::ValidationError(s) => {
                String::from_str("Validation error: ").concat(s.as_str())
            },
            ISO8583Error::BuilderError(s) => {
                String::from_str("Builder error: ").concat(s.as_str())
            },
            ISO8583Error::InvalidMessageClass(s) => {
                String::from_str("Invalid message class: ").concat(s.as_str())
            },
            ISO8583Error::InvalidMessageFunction(s) => {
                String::from_str("Invalid message function: ").concat(s.as_str())
            },
            ISO8583Error::InvalidMessageOrigin(s) => {
                String::from_str("Invalid message origin: ").concat(s.as_str())
            },
            ISO8583Error::Custom(s) => {
                String::from_str("Custom error: ").concat(s.as_str())
            },
        }
    }
}

/// The display text of an error value.
pub open spec fn spec_error_text(e: ISO8583Error) -> Seq<char> {
    match e {
        ISO8583Error::InvalidMTI(s) => "Invalid MTI: "@ + s@,
        ISO8583Error::InvalidFieldNumber(n) => "Invalid field number: "@ + chars_of_bytes(
            dec_digits(n as nat),
        ),
        ISO8583Error::FieldNotPresent(n) => "Field "@ + chars_of_bytes(dec_digits(n as nat))
            + " not present in message"@,
        ISO8583Error::InvalidFieldValue { field, reason } => "Invalid value for field "@
            + chars_of_bytes(dec_digits(field as nat)) + ": "@ + reason@,
        ISO8583Error::FieldLengthMismatch { field, expected, actual } => "Field "@
            + chars_of_bytes(dec_digits(field as nat)) + " length mismatch: expected "@
            + chars_of_bytes(dec_digits(expected as nat)) + ", got "@ + chars_of_bytes(
            dec_digits(actual as nat),
        ),
        ISO8583Error::InvalidBitmap(s) => "Invalid bitmap: "@ + s@,
        ISO8583Error::InvalidEncoding(s) => "Invalid encoding: "@ + s@,
        ISO8583Error::MessageTooShort { expected, actual } => "Message too short: expected at least "@
            + chars_of_bytes(dec_digits(expected as nat)) + " bytes, got "@ + chars_of_bytes(
            dec_digits(actual as nat),
        ),
        ISO8583Error::InvalidPAN(s) => "Invalid PAN: "@ + s@,
        ISO8583Error::LuhnCheckFailed => "Luhn check failed for PAN"@,
        ISO8583Error::InvalidAmount(s) => "Invalid amount: "@ + s@,
        ISO8583Error::InvalidDateTime { field, reason } => "Invalid date/time in field "@
            + chars_of_bytes(dec_digits(field as nat)) + ": "@ + reason@,
        ISO8583Error::MissingRequiredField(n) => "Missing required field: "@ + chars_of_bytes(
            dec_digits(n as nat),
        ),
        ISO8583Error::ParseError(s) => "Parse error: "@ + s@,
        ISO8583Error::EncodingError(s) => "Encoding error: "@ + s@,
        ISO8583Error::ValidationError(s) => "Validation error: "@ + s@,
        ISO8583Error::BuilderError(s) => "Builder error: "@ + s@,
        ISO8583Error::InvalidMessageClass(s) => "Invalid message class: "@ + s@,
        ISO8583Error::InvalidMessageFunction(s) => "Invalid message function: "@ + s@,
        ISO8583Error::InvalidMessageOrigin(s) => "Invalid message origin: "@ + s@,
        ISO8583Error::Custom(s) => "Custom error: "@ + s@,
    }
}

} // verus!
