//! Tests for field identifiers, values, definitions, the specification
//! table, and the typed field wrappers.

use iso8583_core::field::{Field, FieldType, FieldValue};
use iso8583_core::fields::{Field11Stan, Field2Pan, Field4Amount};
use iso8583_core::{DataType, Iso1987, IsoSpec, LengthType};

#[test]
fn test_field_from_number() {
    let field = Field::from_number(2).unwrap();
    assert_eq!(field, Field::PrimaryAccountNumber);
    assert_eq!(field.number(), 2);
}

#[test]
fn test_field_definition() {
    let field = Field::PrimaryAccountNumber;
    let def = field.definition();
    assert_eq!(def.number, 2);
    assert_eq!(def.name, "Primary Account Number");
    assert_eq!(def.field_type, FieldType::Numeric);
}

#[test]
fn test_field_value() {
    let value = FieldValue::from_string(String::from("4111111111111111"));
    assert_eq!(value.as_string(), Some("4111111111111111"));
    assert_eq!(value.to_string_lossy(), "4111111111111111");
}

#[test]
fn test_invalid_field_number() {
    assert!(Field::from_number(0).is_err());
    assert!(Field::from_number(129).is_err());
}

#[test]
fn test_field_number() {
    assert_eq!(Field2Pan::<&str>::number(), 2);
    assert_eq!(Field4Amount::number(), 4);
    assert_eq!(Field11Stan::number(), 11);
}

#[test]
fn test_numeric_field_creation() {
    let amount = "000000010000".parse::<Field4Amount>().unwrap();
    assert_eq!(amount.to_u64().unwrap(), 10000);
}

#[test]
fn test_numeric_field_validation() {
    // Wrong length
    assert!("123".parse::<Field4Amount>().is_err());

    // Non-numeric
    assert!("00000001000A".parse::<Field4Amount>().is_err());
}

#[test]
fn test_field_wrapper() {
    let pan = Field2Pan::new("4111111111111111");
    assert_eq!(pan.value(), &"4111111111111111");
    assert_eq!(pan.into_value(), "4111111111111111");
}

#[test]
fn test_spec_lookup() {
    let field2 = Iso1987::get_field(2).unwrap();
    assert_eq!(field2.data_type, DataType::Numeric);
    assert_eq!(field2.length_type, LengthType::Llvar);
}

#[test]
fn test_field_lookup() {
    let field2 = Iso1987::get_field(2).unwrap();
    assert_eq!(field2.data_type, DataType::Numeric);
    assert_eq!(field2.length_type, LengthType::Llvar);
    assert_eq!(field2.max_len, 19);

    let field4 = Iso1987::get_field(4).unwrap();
    assert_eq!(field4.data_type, DataType::Numeric);
    assert_eq!(field4.length_type, LengthType::Fixed);
    assert_eq!(field4.max_len, 12);
}

#[test]
fn test_invalid_field() {
    assert!(Iso1987::get_field(0).is_none());
    assert!(Iso1987::get_field(200).is_none());
}

#[test]
fn test_zero_overhead() {
    assert_eq!(core::mem::size_of::<iso8583_core::FieldDefinition>(), 4);
    assert_eq!(core::mem::size_of::<DataType>(), 1);
    assert_eq!(core::mem::size_of::<LengthType>(), 1);
}

#[test]
fn test_binary_field_value() {
    let value = FieldValue::from_binary(vec![0x41, 0x42]);
    assert_eq!(value.as_binary(), Some(&[0x41u8, 0x42u8][..]));
    assert_eq!(value.as_string(), None);
    // Lenient text decoding of plain ASCII keeps the characters.
    assert_eq!(value.to_string_lossy(), "AB");
}

#[test]
fn test_field_all() {
    let all = Field::all();
    assert_eq!(all.len(), 126);
    assert_eq!(all[0].number(), 2);
    assert!(all.iter().all(|f| f.number() != 1 && f.number() != 65));
}
