//! The ISO 8583:1987 field specification table: for each field number its
//! data type, length-encoding kind, and maximum length. This registry is the
//! single source of truth for every parse and serialize operation.

use vstd::prelude::*;

verus! {

/// Data type of a field's contents.
#[derive(Debug, Clone, Copy, PartialEq, Eq, Structural)]
pub enum DataType {
    /// Decimal digits only
    Numeric,
    /// Alphabetic characters only
    Alpha,
    /// Letters and digits
    Alphanumeric,
    /// Letters, digits, and special characters
    AlphanumericSpecial,
    /// Raw binary data
    Binary,
    /// Track 2 magnetic stripe format
    Track2,
    /// Track 3 magnetic stripe format
    Track3,
}

/// How a field's length is encoded on the wire.
#[derive(Debug, Clone, Copy, PartialEq, Eq, Structural)]
pub enum LengthType {
    /// Fixed length, no indicator
    Fixed,
    /// Two-digit decimal length indicator
    Llvar,
    /// Three-digit decimal length indicator
    Lllvar,
}

/// A field definition: data type, length encoding, and maximum (or exact)
/// length in bytes.
#[derive(Debug, Clone, Copy, PartialEq, Eq, Structural)]
pub struct FieldDefinition {
    /// Data type of the field
    pub data_type: DataType,
    /// Length encoding kind
    pub length_type: LengthType,
    /// Maximum length in bytes; the exact length for fixed fields
    pub max_len: u16,
}

impl FieldDefinition {
    /// Create a field definition.
    pub fn new(data_type: DataType, length_type: LengthType, max_len: u16) -> (r: Self)
        ensures
            r == (FieldDefinition { data_type, length_type, max_len }),
    {
        FieldDefinition { data_type, length_type, max_len }
    }

    /// A fixed-length field.
    pub fn fixed(data_type: DataType, len: u16) -> (r: Self)
        ensures
            r == (FieldDefinition { data_type, length_type: LengthType::Fixed, max_len: len }),
    {
        FieldDefinition { data_type, length_type: LengthType::Fixed, max_len: len }
    }

    /// A field with a two-digit length indicator.
    pub fn llvar(data_type: DataType, max_len: u16) -> (r: Self)
        ensures
            r == (FieldDefinition { data_type, length_type: LengthType::Llvar, max_len }),
    {
        FieldDefinition { data_type, length_type: LengthType::Llvar, max_len }
    }

    /// A field with a three-digit length indicator.
    pub fn lllvar(data_type: DataType, max_len: u16) -> (r: Self)
        ensures
            r == (FieldDefinition { data_type, length_type: LengthType::Lllvar, max_len }),
    {
        FieldDefinition { data_type, length_type: LengthType::Lllvar, max_len }
    }
}


/// The ISO 8583:1987 definition of each field number; none for numbers the
/// standard does not define (zero, and anything above 128).
pub open spec fn spec_iso1987_field(n: u8) -> Option<FieldDefinition> {
    match n {
        1u8 => Some(FieldDefinition { data_type: DataType::Binary, length_type: LengthType::Fixed, max_len: 8 }),
        2u8 => Some(FieldDefinition { data_type: DataType::Numeric, length_type: LengthType::Llvar, max_len: 19 }),
        3u8 => Some(FieldDefinition { data_type: DataType::Numeric, length_type: LengthType::Fixed, max_len: 6 }),
        4u8 => Some(FieldDefinition { data_type: DataType::Numeric, length_type: LengthType::Fixed, max_len: 12 }),
        5u8 => Some(FieldDefinition { data_type: DataType::Numeric, length_type: LengthType::Fixed, max_len: 12 }),
        6u8 => Some(FieldDefinition { data_type: DataType::Numeric, length_type: LengthType::Fixed, max_len: 12 }),
        7u8 => Some(FieldDefinition { data_type: DataType::Numeric, length_type: LengthType::Fixed, max_len: 10 }),
        8u8 => Some(FieldDefinition { data_type: DataType::Numeric, length_type: LengthType::Fixed, max_len: 8 }),
        9u8 => Some(FieldDefinition { data_type: DataType::Numeric, length_type: LengthType::Fixed, max_len: 8 }),
        10u8 => Some(FieldDefinition { data_type: DataType::Numeric, length_type: LengthType::Fixed, max_len: 8 }),
        11u8 => Some(FieldDefinition { data_type: DataType::Numeric, length_type: LengthType::Fixed, max_len: 6 }),
        12u8 => Some(FieldDefinition { data_type: DataType::Numeric, length_type: LengthType::Fixed, max_len: 6 }),
        13u8 => Some(FieldDefinition { data_type: DataType::Numeric, length_type: LengthType::Fixed, max_len: 4 }),
        14u8 => Some(FieldDefinition { data_type: DataType::Numeric, length_type: LengthType::Fixed, max_len: 4 }),
        15u8 => Some(FieldDefinition { data_type: DataType::Numeric, length_type: LengthType::Fixed, max_len: 4 }),
        16u8 => Some(FieldDefinition { data_type: DataType::Numeric, length_type: LengthType::Fixed, max_len: 4 }),
        17u8 => Some(FieldDefinition { data_type: DataType::Numeric, length_type: LengthType::Fixed, max_len: 4 }),
        18u8 => Some(FieldDefinition { data_type: DataType::Numeric, length_type: LengthType::Fixed, max_len: 4 }),
        19u8 => Some(FieldDefinition { data_type: DataType::Numeric, length_type: LengthType::Fixed, max_len: 3 }),
        20u8 => Some(FieldDefinition { data_type: DataType::Numeric, length_type: LengthType::Fixed, max_len: 3 }),
        21u8 => Some(FieldDefinition { data_type: DataType::Numeric, length_type: LengthType::Fixed, max_len: 3 }),
        22u8 => Some(FieldDefinition { data_type: DataType::Numeric, length_type: LengthType::Fixed, max_len: 3 }),
        23u8 => Some(FieldDefinition { data_type: DataType::Numeric, length_type: LengthType::Fixed, max_len: 3 }),
        24u8 => Some(FieldDefinition { data_type: DataType::Numeric, length_type: LengthType::Fixed, max_len: 3 }),
        25u8 => Some(FieldDefinition { data_type: DataType::Numeric, length_type: LengthType::Fixed, max_len: 2 }),
        26u8 => Some(FieldDefinition { data_type: DataType::Numeric, length_type: LengthType::Fixed, max_len: 2 }),
        27u8 => Some(FieldDefinition { data_type: DataType::Numeric, length_type: LengthType::Fixed, max_len: 1 }),
        28u8 => Some(FieldDefinition { data_type: DataType::Numeric, length_type: LengthType::Fixed, max_len: 9 }),
        29u8 => Some(FieldDefinition { data_type: DataType::Numeric, length_type: LengthType::Fixed, max_len: 9 }),
        30u8 => Some(FieldDefinition { data_type: DataType::Numeric, length_type: LengthType::Fixed, max_len: 9 }),
        31u8 => Some(FieldDefinition { data_type: DataType::Numeric, length_type: LengthType::Fixed, max_len: 9 }),
        32u8 => Some(FieldDefinition { data_type: DataType::Numeric, length_type: LengthType::Llvar, max_len: 11 }),
        33u8 => Some(FieldDefinition { data_type: DataType::Numeric, length_type: LengthType::Llvar, max_len: 11 }),
        34u8 => Some(FieldDefinition { data_type: DataType::Numeric, length_type: LengthType::Llvar, max_len: 28 }),
        35u8 => Some(FieldDefinition { data_type: DataType::Track2, length_type: LengthType::Llvar, max_len: 37 }),
        36u8 => Some(FieldDefinition { data_type: DataType::Track3, length_type: LengthType::Lllvar, max_len: 104 }),
        37u8 => Some(FieldDefinition { data_type: DataType::Alphanumeric, length_type: LengthType::Fixed, max_len: 12 }),
        38u8 => Some(FieldDefinition { data_type: DataType::Alphanumeric, length_type: LengthType::Fixed, max_len: 6 }),
        39u8 => Some(FieldDefinition { data_type: DataType::Alphanumeric, length_type: LengthType::Fixed, max_len: 2 }),
        40u8 => Some(FieldDefinition { data_type: DataType::Alphanumeric, length_type: LengthType::Fixed, max_len: 3 }),
        41u8 => Some(FieldDefinition { data_type: DataType::AlphanumericSpecial, length_type: LengthType::Fixed, max_len: 8 }),
        42u8 => Some(FieldDefinition { data_type: DataType::AlphanumericSpecial, length_type: LengthType::Fixed, max_len: 15 }),
        43u8 => Some(FieldDefinition { data_type: DataType::AlphanumericSpecial, length_type: LengthType::Fixed, max_len: 40 }),
        44u8 => Some(FieldDefinition { data_type: DataType::AlphanumericSpecial, length_type: LengthType::Llvar, max_len: 25 }),
        45u8 => Some(FieldDefinition { data_type: DataType::AlphanumericSpecial, length_type: LengthType::Llvar, max_len: 76 }),
        46u8 => Some(FieldDefinition { data_type: DataType::AlphanumericSpecial, length_type: LengthType::Lllvar, max_len: 999 }),
        47u8 => Some(FieldDefinition { data_type: DataType::AlphanumericSpecial, length_type: LengthType::Lllvar, max_len: 999 }),
        48u8 => Some(FieldDefinition { data_type: DataType::AlphanumericSpecial, length_type: LengthType::Lllvar, max_len: 999 }),
        49u8 => Some(FieldDefinition { data_type: DataType::Alphanumeric, length_type: LengthType::Fixed, max_len: 3 }),
        50u8 => Some(FieldDefinition { data_type: DataType::Alphanumeric, length_type: LengthType::Fixed, max_len: 3 }),
        51u8 => Some(FieldDefinition { data_type: DataType::Alphanumeric, length_type: LengthType::Fixed, max_len: 3 }),
        52u8 => Some(FieldDefinition { data_type: DataType::Binary, length_type: LengthType::Fixed, max_len: 8 }),
        53u8 => Some(FieldDefinition { data_type: DataType::Numeric, length_type: LengthType::Fixed, max_len: 16 }),
        54u8 => Some(FieldDefinition { data_type: DataType::AlphanumericSpecial, length_type: LengthType::Lllvar, max_len: 120 }),
        55u8 => Some(FieldDefinition { data_type: DataType::AlphanumericSpecial, length_type: LengthType::Lllvar, max_len: 999 }),
        56u8 => Some(FieldDefinition { data_type: DataType::AlphanumericSpecial, length_type: LengthType::Lllvar, max_len: 999 }),
        57u8 => Some(FieldDefinition { data_type: DataType::AlphanumericSpecial, length_type: LengthType::Lllvar, max_len: 999 }),
        58u8 => Some(FieldDefinition { data_type: DataType::AlphanumericSpecial, length_type: LengthType::Lllvar, max_len: 999 }),
        59u8 => Some(FieldDefinition { data_type: DataType::AlphanumericSpecial, length_type: LengthType::Lllvar, max_len: 999 }),
        60u8 => Some(FieldDefinition { data_type: DataType::AlphanumericSpecial, length_type: LengthType::Lllvar, max_len: 999 }),
        61u8 => Some(FieldDefinition { data_type: DataType::AlphanumericSpecial, length_type: LengthType::Lllvar, max_len: 999 }),
        62u8 => Some(FieldDefinition { data_type: DataType::AlphanumericSpecial, length_type: LengthType::Lllvar, max_len: 999 }),
        63u8 => Some(FieldDefinition { data_type: DataType::AlphanumericSpecial, length_type: LengthType::Lllvar, max_len: 999 }),
        64u8 => Some(FieldDefinition { data_type: DataType::Binary, length_type: LengthType::Fixed, max_len: 8 }),
        65u8 => Some(FieldDefinition { data_type: DataType::Binary, length_type: LengthType::Fixed, max_len: 8 }),
        66u8 => Some(FieldDefinition { data_type: DataType::Numeric, length_type: LengthType::Fixed, max_len: 1 }),
        67u8 => Some(FieldDefinition { data_type: DataType::Numeric, length_type: LengthType::Fixed, max_len: 2 }),
        68u8 => Some(FieldDefinition { data_type: DataType::Numeric, length_type: LengthType::Fixed, max_len: 3 }),
        69u8 => Some(FieldDefinition { data_type: DataType::Numeric, length_type: LengthType::Fixed, max_len: 3 }),
        70u8 => Some(FieldDefinition { data_type: DataType::Numeric, length_type: LengthType::Fixed, max_len: 3 }),
        71u8 => Some(FieldDefinition { data_type: DataType::Numeric, length_type: LengthType::Fixed, max_len: 4 }),
        72u8 => Some(FieldDefinition { data_type: DataType::Numeric, length_type: LengthType::Fixed, max_len: 4 }),
        73u8 => Some(FieldDefinition { data_type: DataType::Numeric, length_type: LengthType::Fixed, max_len: 6 }),
        74u8 => Some(FieldDefinition { data_type: DataType::Numeric, length_type: LengthType::Fixed, max_len: 10 }),
        75u8 => Some(FieldDefinition { data_type: DataType::Numeric, length_type: LengthType::Fixed, max_len: 10 }),
        76u8 => Some(FieldDefinition { data_type: DataType::Numeric, length_type: LengthType::Fixed, max_len: 10 }),
        77u8 => Some(FieldDefinition { data_type: DataType::Numeric, length_type: LengthType::Fixed, max_len: 10 }),
        78u8 => Some(FieldDefinition { data_type: DataType::Numeric, length_type: LengthType::Fixed, max_len: 10 }),
        79u8 => Some(FieldDefinition { data_type: DataType::Numeric, length_type: LengthType::Fixed, max_len: 10 }),
        80u8 => Some(FieldDefinition { data_type: DataType::Numeric, length_type: LengthType::Fixed, max_len: 10 }),
        81u8 => Some(FieldDefinition { data_type: DataType::Numeric, length_type: LengthType::Fixed, max_len: 10 }),
        82u8 => Some(FieldDefinition { data_type: DataType::Numeric, length_type: LengthType::Fixed, max_len: 12 }),
        83u8 => Some(FieldDefinition { data_type: DataType::Numeric, length_type: LengthType::Fixed, max_len: 12 }),
        84u8 => Some(FieldDefinition { data_type: DataType::Numeric, length_type: LengthType::Fixed, max_len: 12 }),
        85u8 => Some(FieldDefinition { data_type: DataType::Numeric, length_type: LengthType::Fixed, max_len: 12 }),
        86u8 => Some(FieldDefinition { data_type: DataType::Numeric, length_type: LengthType::Fixed, max_len: 16 }),
        87u8 => Some(FieldDefinition { data_type: DataType::Numeric, length_type: LengthType::Fixed, max_len: 16 }),
        88u8 => Some(FieldDefinition { data_type: DataType::Numeric, length_type: LengthType::Fixed, max_len: 16 }),
        89u8 => Some(FieldDefinition { data_type: DataType::Numeric, length_type: LengthType::Fixed, max_len: 16 }),
        90u8 => Some(FieldDefinition { data_type: DataType::Numeric, length_type: LengthType::Fixed, max_len: 42 }),
        91u8 => Some(FieldDefinition { data_type: DataType::Alphanumeric, length_type: LengthType::Fixed, max_len: 1 }),
        92u8 => Some(FieldDefinition { data_type: DataType::Alphanumeric, length_type: LengthType::Fixed, max_len: 2 }),
        93u8 => Some(FieldDefinition { data_type: DataType::Alphanumeric, length_type: LengthType::Fixed, max_len: 5 }),
        94u8 => Some(FieldDefinition { data_type: DataType::Alphanumeric, length_type: LengthType::Fixed, max_len: 7 }),
        95u8 => Some(FieldDefinition { data_type: DataType::Alphanumeric, length_type: LengthType::Fixed, max_len: 42 }),
        96u8 => Some(FieldDefinition { data_type: DataType::Binary, length_type: LengthType::Fixed, max_len: 8 }),
        97u8 => Some(FieldDefinition { data_type: DataType::Numeric, length_type: LengthType::Fixed, max_len: 16 }),
        98u8 => Some(FieldDefinition { data_type: DataType::AlphanumericSpecial, length_type: LengthType::Fixed, max_len: 25 }),
        99u8 => Some(FieldDefinition { data_type: DataType::Numeric, length_type: LengthType::Llvar, max_len: 11 }),
        100u8 => Some(FieldDefinition { data_type: DataType::Numeric, length_type: LengthType::Llvar, max_len: 11 }),
        101u8 => Some(FieldDefinition { data_type: DataType::AlphanumericSpecial, length_type: LengthType::Llvar, max_len: 17 }),
        102u8 => Some(FieldDefinition { data_type: DataType::AlphanumericSpecial, length_type: LengthType::Llvar, max_len: 28 }),
        103u8 => Some(FieldDefinition { data_type: DataType::AlphanumericSpecial, length_type: LengthType::Llvar, max_len: 28 }),
        104u8 => Some(FieldDefinition { data_type: DataType::AlphanumericSpecial, length_type: LengthType::Lllvar, max_len: 100 }),
        105u8 => Some(FieldDefinition { data_type: DataType::AlphanumericSpecial, length_type: LengthType::Lllvar, max_len: 999 }),
        106u8 => Some(FieldDefinition { data_type: DataType::AlphanumericSpecial, length_type: LengthType::Lllvar, max_len: 999 }),
        107u8 => Some(FieldDefinition { data_type: DataType::AlphanumericSpecial, length_type: LengthType::Lllvar, max_len: 999 }),
        108u8 => Some(FieldDefinition { data_type: DataType::AlphanumericSpecial, length_type: LengthType::Lllvar, max_len: 999 }),
        109u8 => Some(FieldDefinition { data_type: DataType::AlphanumericSpecial, length_type: LengthType::Lllvar, max_len: 999 }),
        110u8 => Some(FieldDefinition { data_type: DataType::AlphanumericSpecial, length_type: LengthType::Lllvar, max_len: 999 }),
        111u8 => Some(FieldDefinition { data_type: DataType::AlphanumericSpecial, length_type: LengthType::Lllvar, max_len: 999 }),
        112u8 => Some(FieldDefinition { data_type: DataType::AlphanumericSpecial, length_type: LengthType::Lllvar, max_len: 999 }),
        113u8 => Some(FieldDefinition { data_type: DataType::AlphanumericSpecial, length_type: LengthType::Lllvar, max_len: 999 }),
        114u8 => Some(FieldDefinition { data_type: DataType::AlphanumericSpecial, length_type: LengthType::Lllvar, max_len: 999 }),
        115u8 => Some(FieldDefinition { data_type: DataType::AlphanumericSpecial, length_type: LengthType::Lllvar, max_len: 999 }),
        116u8 => Some(FieldDefinition { data_type: DataType::AlphanumericSpecial, length_type: LengthType::Lllvar, max_len: 999 }),
        117u8 => Some(FieldDefinition { data_type: DataType::AlphanumericSpecial, length_type: LengthType::Lllvar, max_len: 999 }),
        118u8 => Some(FieldDefinition { data_type: DataType::AlphanumericSpecial, length_type: LengthType::Lllvar, max_len: 999 }),
        119u8 => Some(FieldDefinition { data_type: DataType::AlphanumericSpecial, length_type: LengthType::Lllvar, max_len: 999 }),
        120u8 => Some(FieldDefinition { data_type: DataType::AlphanumericSpecial, length_type: LengthType::Lllvar, max_len: 999 }),
        121u8 => Some(FieldDefinition { data_type: DataType::AlphanumericSpecial, length_type: LengthType::Lllvar, max_len: 999 }),
        122u8 => Some(FieldDefinition { data_type: DataType::AlphanumericSpecial, length_type: LengthType::Lllvar, max_len: 999 }),
        123u8 => Some(FieldDefinition { data_type: DataType::AlphanumericSpecial, length_type: LengthType::Lllvar, max_len: 999 }),
        124u8 => Some(FieldDefinition { data_type: DataType::AlphanumericSpecial, length_type: LengthType::Lllvar, max_len: 255 }),
        125u8 => Some(FieldDefinition { data_type: DataType::AlphanumericSpecial, length_type: LengthType::Lllvar, max_len: 50 }),
        126u8 => Some(FieldDefinition { data_type: DataType::AlphanumericSpecial, length_type: LengthType::Lllvar, max_len: 6 }),
        127u8 => Some(FieldDefinition { data_type: DataType::AlphanumericSpecial, length_type: LengthType::Lllvar, max_len: 999 }),
        128u8 => Some(FieldDefinition { data_type: DataType::Binary, length_type: LengthType::Fixed, max_len: 8 }),
        _ => None,
    }
}

/// Look up the ISO 8583:1987 definition of a field number.
pub fn iso1987_field(number: u8) -> (r: Option<FieldDefinition>)
    returns
        spec_iso1987_field(number),
{
    match number {
        1u8 => Some(FieldDefinition { data_type: DataType::Binary, length_type: LengthType::Fixed, max_len: 8 }),
        2u8 => Some(FieldDefinition { data_type: DataType::Numeric, length_type: LengthType::Llvar, max_len: 19 }),
        3u8 => Some(FieldDefinition { data_type: DataType::Numeric, length_type: LengthType::Fixed, max_len: 6 }),
        4u8 => Some(FieldDefinition { data_type: DataType::Numeric, length_type: LengthType::Fixed, max_len: 12 }),
        5u8 => Some(FieldDefinition { data_type: DataType::Numeric, length_type: LengthType::Fixed, max_len: 12 }),
        6u8 => Some(FieldDefinition { data_type: DataType::Numeric, length_type: LengthType::Fixed, max_len: 12 }),
        7u8 => Some(FieldDefinition { data_type: DataType::Numeric, length_type: LengthType::Fixed, max_len: 10 }),
        8u8 => Some(FieldDefinition { data_type: DataType::Numeric, length_type: LengthType::Fixed, max_len: 8 }),
        9u8 => Some(FieldDefinition { data_type: DataType::Numeric, length_type: LengthType::Fixed, max_len: 8 }),
        10u8 => Some(FieldDefinition { data_type: DataType::Numeric, length_type: LengthType::Fixed, max_len: 8 }),
        11u8 => Some(FieldDefinition { data_type: DataType::Numeric, length_type: LengthType::Fixed, max_len: 6 }),
        12u8 => Some(FieldDefinition { data_type: DataType::Numeric, length_type: LengthType::Fixed, max_len: 6 }),
        13u8 => Some(FieldDefinition { data_type: DataType::Numeric, length_type: LengthType::Fixed, max_len: 4 }),
        14u8 => Some(FieldDefinition { data_type: DataType::Numeric, length_type: LengthType::Fixed, max_len: 4 }),
        15u8 => Some(FieldDefinition { data_type: DataType::Numeric, length_type: LengthType::Fixed, max_len: 4 }),
        16u8 => Some(FieldDefinition { data_type: DataType::Numeric, length_type: LengthType::Fixed, max_len: 4 }),
        17u8 => Some(FieldDefinition { data_type: DataType::Numeric, length_type: LengthType::Fixed, max_len: 4 }),
        18u8 => Some(FieldDefinition { data_type: DataType::Numeric, length_type: LengthType::Fixed, max_len: 4 }),
        19u8 => Some(FieldDefinition { data_type: DataType::Numeric, length_type: LengthType::Fixed, max_len: 3 }),
        20u8 => Some(FieldDefinition { data_type: DataType::Numeric, length_type: LengthType::Fixed, max_len: 3 }),
        21u8 => Some(FieldDefinition { data_type: DataType::Numeric, length_type: LengthType::Fixed, max_len: 3 }),
        22u8 => Some(FieldDefinition { data_type: DataType::Numeric, length_type: LengthType::Fixed, max_len: 3 }),
        23u8 => Some(FieldDefinition { data_type: DataType::Numeric, length_type: LengthType::Fixed, max_len: 3 }),
        24u8 => Some(FieldDefinition { data_type: DataType::Numeric, length_type: LengthType::Fixed, max_len: 3 }),
        25u8 => Some(FieldDefinition { data_type: DataType::Numeric, length_type: LengthType::Fixed, max_len: 2 }),
        26u8 => Some(FieldDefinition { data_type: DataType::Numeric, length_type: LengthType::Fixed, max_len: 2 }),
        27u8 => Some(FieldDefinition { data_type: DataType::Numeric, length_type: LengthType::Fixed, max_len: 1 }),
        28u8 => Some(FieldDefinition { data_type: DataType::Numeric, length_type: LengthType::Fixed, max_len: 9 }),
        29u8 => Some(FieldDefinition { data_type: DataType::Numeric, length_type: LengthType::Fixed, max_len: 9 }),
        30u8 => Some(FieldDefinition { data_type: DataType::Numeric, length_type: LengthType::Fixed, max_len: 9 }),
        31u8 => Some(FieldDefinition { data_type: DataType::Numeric, length_type: LengthType::Fixed, max_len: 9 }),
        32u8 => Some(FieldDefinition { data_type: DataType::Numeric, length_type: LengthType::Llvar, max_len: 11 }),
        33u8 => Some(FieldDefinition { data_type: DataType::Numeric, length_type: LengthType::Llvar, max_len: 11 }),
        34u8 => Some(FieldDefinition { data_type: DataType::Numeric, length_type: LengthType::Llvar, max_len: 28 }),
        35u8 => Some(FieldDefinition { data_type: DataType::Track2, length_type: LengthType::Llvar, max_len: 37 }),
        36u8 => Some(FieldDefinition { data_type: DataType::Track3, length_type: LengthType::Lllvar, max_len: 104 }),
        37u8 => Some(FieldDefinition { data_type: DataType::Alphanumeric, length_type: LengthType::Fixed, max_len: 12 }),
        38u8 => Some(FieldDefinition { data_type: DataType::Alphanumeric, length_type: LengthType::Fixed, max_len: 6 }),
        39u8 => Some(FieldDefinition { data_type: DataType::Alphanumeric, length_type: LengthType::Fixed, max_len: 2 }),
        40u8 => Some(FieldDefinition { data_type: DataType::Alphanumeric, length_type: LengthType::Fixed, max_len: 3 }),
        41u8 => Some(FieldDefinition { data_type: DataType::AlphanumericSpecial, length_type: LengthType::Fixed, max_len: 8 }),
        42u8 => Some(FieldDefinition { data_type: DataType::AlphanumericSpecial, length_type: LengthType::Fixed, max_len: 15 }),
        43u8 => Some(FieldDefinition { data_type: DataType::AlphanumericSpecial, length_type: LengthType::Fixed, max_len: 40 }),
        44u8 => Some(FieldDefinition { data_type: DataType::AlphanumericSpecial, length_type: LengthType::Llvar, max_len: 25 }),
        45u8 => Some(FieldDefinition { data_type: DataType::AlphanumericSpecial, length_type: LengthType::Llvar, max_len: 76 }),
        46u8 => Some(FieldDefinition { data_type: DataType::AlphanumericSpecial, length_type: LengthType::Lllvar, max_len: 999 }),
        47u8 => Some(FieldDefinition { data_type: DataType::AlphanumericSpecial, length_type: LengthType::Lllvar, max_len: 999 }),
        48u8 => Some(FieldDefinition { data_type: DataType::AlphanumericSpecial, length_type: LengthType::Lllvar, max_len: 999 }),
        49u8 => Some(FieldDefinition { data_type: DataType::Alphanumeric, length_type: LengthType::Fixed, max_len: 3 }),
        50u8 => Some(FieldDefinition { data_type: DataType::Alphanumeric, length_type: LengthType::Fixed, max_len: 3 }),
        51u8 => Some(FieldDefinition { data_type: DataType::Alphanumeric, length_type: LengthType::Fixed, max_len: 3 }),
        52u8 => Some(FieldDefinition { data_type: DataType::Binary, length_type: LengthType::Fixed, max_len: 8 }),
        53u8 => Some(FieldDefinition { data_type: DataType::Numeric, length_type: LengthType::Fixed, max_len: 16 }),
        54u8 => Some(FieldDefinition { data_type: DataType::AlphanumericSpecial, length_type: LengthType::Lllvar, max_len: 120 }),
        55u8 => Some(FieldDefinition { data_type: DataType::AlphanumericSpecial, length_type: LengthType::Lllvar, max_len: 999 }),
        56u8 => Some(FieldDefinition { data_type: DataType::AlphanumericSpecial, length_type: LengthType::Lllvar, max_len: 999 }),
        57u8 => Some(FieldDefinition { data_type: DataType::AlphanumericSpecial, length_type: LengthType::Lllvar, max_len: 999 }),
        58u8 => Some(FieldDefinition { data_type: DataType::AlphanumericSpecial, length_type: LengthType::Lllvar, max_len: 999 }),
        59u8 => Some(FieldDefinition { data_type: DataType::AlphanumericSpecial, length_type: LengthType::Lllvar, max_len: 999 }),
        60u8 => Some(FieldDefinition { data_type: DataType::AlphanumericSpecial, length_type: LengthType::Lllvar, max_len: 999 }),
        61u8 => Some(FieldDefinition { data_type: DataType::AlphanumericSpecial, length_type: LengthType::Lllvar, max_len: 999 }),
        62u8 => Some(FieldDefinition { data_type: DataType::AlphanumericSpecial, length_type: LengthType::Lllvar, max_len: 999 }),
        63u8 => Some(FieldDefinition { data_type: DataType::AlphanumericSpecial, length_type: LengthType::Lllvar, max_len: 999 }),
        64u8 => Some(FieldDefinition { data_type: DataType::Binary, length_type: LengthType::Fixed, max_len: 8 }),
        65u8 => Some(FieldDefinition { data_type: DataType::Binary, length_type: LengthType::Fixed, max_len: 8 }),
        66u8 => Some(FieldDefinition { data_type: DataType::Numeric, length_type: LengthType::Fixed, max_len: 1 }),
        67u8 => Some(FieldDefinition { data_type: DataType::Numeric, length_type: LengthType::Fixed, max_len: 2 }),
        68u8 => Some(FieldDefinition { data_type: DataType::Numeric, length_type: LengthType::Fixed, max_len: 3 }),
        69u8 => Some(FieldDefinition { data_type: DataType::Numeric, length_type: LengthType::Fixed, max_len: 3 }),
        70u8 => Some(FieldDefinition { data_type: DataType::Numeric, length_type: LengthType::Fixed, max_len: 3 }),
        71u8 => Some(FieldDefinition { data_type: DataType::Numeric, length_type: LengthType::Fixed, max_len: 4 }),
        72u8 => Some(FieldDefinition { data_type: DataType::Numeric, length_type: LengthType::Fixed, max_len: 4 }),
        73u8 => Some(FieldDefinition { data_type: DataType::Numeric, length_type: LengthType::Fixed, max_len: 6 }),
        74u8 => Some(FieldDefinition { data_type: DataType::Numeric, length_type: LengthType::Fixed, max_len: 10 }),
        75u8 => Some(FieldDefinition { data_type: DataType::Numeric, length_type: LengthType::Fixed, max_len: 10 }),
        76u8 => Some(FieldDefinition { data_type: DataType::Numeric, length_type: LengthType::Fixed, max_len: 10 }),
        77u8 => Some(FieldDefinition { data_type: DataType::Numeric, length_type: LengthType::Fixed, max_len: 10 }),
        78u8 => Some(FieldDefinition { data_type: DataType::Numeric, length_type: LengthType::Fixed, max_len: 10 }),
        79u8 => Some(FieldDefinition { data_type: DataType::Numeric, length_type: LengthType::Fixed, max_len: 10 }),
        80u8 => Some(FieldDefinition { data_type: DataType::Numeric, length_type: LengthType::Fixed, max_len: 10 }),
        81u8 => Some(FieldDefinition { data_type: DataType::Numeric, length_type: LengthType::Fixed, max_len: 10 }),
        82u8 => Some(FieldDefinition { data_type: DataType::Numeric, length_type: LengthType::Fixed, max_len: 12 }),
        83u8 => Some(FieldDefinition { data_type: DataType::Numeric, length_type: LengthType::Fixed, max_len: 12 }),
        84u8 => Some(FieldDefinition { data_type: DataType::Numeric, length_type: LengthType::Fixed, max_len: 12 }),
        85u8 => Some(FieldDefinition { data_type: DataType::Numeric, length_type: LengthType::Fixed, max_len: 12 }),
        86u8 => Some(FieldDefinition { data_type: DataType::Numeric, length_type: LengthType::Fixed, max_len: 16 }),
        87u8 => Some(FieldDefinition { data_type: DataType::Numeric, length_type: LengthType::Fixed, max_len: 16 }),
        88u8 => Some(FieldDefinition { data_type: DataType::Numeric, length_type: LengthType::Fixed, max_len: 16 }),
        89u8 => Some(FieldDefinition { data_type: DataType::Numeric, length_type: LengthType::Fixed, max_len: 16 }),
        90u8 => Some(FieldDefinition { data_type: DataType::Numeric, length_type: LengthType::Fixed, max_len: 42 }),
        91u8 => Some(FieldDefinition { data_type: DataType::Alphanumeric, length_type: LengthType::Fixed, max_len: 1 }),
        92u8 => Some(FieldDefinition { data_type: DataType::Alphanumeric, length_type: LengthType::Fixed, max_len: 2 }),
        93u8 => Some(FieldDefinition { data_type: DataType::Alphanumeric, length_type: LengthType::Fixed, max_len: 5 }),
        94u8 => Some(FieldDefinition { data_type: DataType::Alphanumeric, length_type: LengthType::Fixed, max_len: 7 }),
        95u8 => Some(FieldDefinition { data_type: DataType::Alphanumeric, length_type: LengthType::Fixed, max_len: 42 }),
        96u8 => Some(FieldDefinition { data_type: DataType::Binary, length_type: LengthType::Fixed, max_len: 8 }),
        97u8 => Some(FieldDefinition { data_type: DataType::Numeric, length_type: LengthType::Fixed, max_len: 16 }),
        98u8 => Some(FieldDefinition { data_type: DataType::AlphanumericSpecial, length_type: LengthType::Fixed, max_len: 25 }),
        99u8 => Some(FieldDefinition { data_type: DataType::Numeric, length_type: LengthType::Llvar, max_len: 11 }),
        100u8 => Some(FieldDefinition { data_type: DataType::Numeric, length_type: LengthType::Llvar, max_len: 11 }),
        101u8 => Some(FieldDefinition { data_type: DataType::AlphanumericSpecial, length_type: LengthType::Llvar, max_len: 17 }),
        102u8 => Some(FieldDefinition { data_type: DataType::AlphanumericSpecial, length_type: LengthType::Llvar, max_len: 28 }),
        103u8 => Some(FieldDefinition { data_type: DataType::AlphanumericSpecial, length_type: LengthType::Llvar, max_len: 28 }),
        104u8 => Some(FieldDefinition { data_type: DataType::AlphanumericSpecial, length_type: LengthType::Lllvar, max_len: 100 }),
        105u8 => Some(FieldDefinition { data_type: DataType::AlphanumericSpecial, length_type: LengthType::Lllvar, max_len: 999 }),
        106u8 => Some(FieldDefinition { data_type: DataType::AlphanumericSpecial, length_type: LengthType::Lllvar, max_len: 999 }),
        107u8 => Some(FieldDefinition { data_type: DataType::AlphanumericSpecial, length_type: LengthType::Lllvar, max_len: 999 }),
        108u8 => Some(FieldDefinition { data_type: DataType::AlphanumericSpecial, length_type: LengthType::Lllvar, max_len: 999 }),
        109u8 => Some(FieldDefinition { data_type: DataType::AlphanumericSpecial, length_type: LengthType::Lllvar, max_len: 999 }),
        110u8 => Some(FieldDefinition { data_type: DataType::AlphanumericSpecial, length_type: LengthType::Lllvar, max_len: 999 }),
        111u8 => Some(FieldDefinition { data_type: DataType::AlphanumericSpecial, length_type: LengthType::Lllvar, max_len: 999 }),
        112u8 => Some(FieldDefinition { data_type: DataType::AlphanumericSpecial, length_type: LengthType::Lllvar, max_len: 999 }),
        113u8 => Some(FieldDefinition { data_type: DataType::AlphanumericSpecial, length_type: LengthType::Lllvar, max_len: 999 }),
        114u8 => Some(FieldDefinition { data_type: DataType::AlphanumericSpecial, length_type: LengthType::Lllvar, max_len: 999 }),
        115u8 => Some(FieldDefinition { data_type: DataType::AlphanumericSpecial, length_type: LengthType::Lllvar, max_len: 999 }),
        116u8 => Some(FieldDefinition { data_type: DataType::AlphanumericSpecial, length_type: LengthType::Lllvar, max_len: 999 }),
        117u8 => Some(FieldDefinition { data_type: DataType::AlphanumericSpecial, length_type: LengthType::Lllvar, max_len: 999 }),
        118u8 => Some(FieldDefinition { data_type: DataType::AlphanumericSpecial, length_type: LengthType::Lllvar, max_len: 999 }),
        119u8 => Some(FieldDefinition { data_type: DataType::AlphanumericSpecial, length_type: LengthType::Lllvar, max_len: 999 }),
        120u8 => Some(FieldDefinition { data_type: DataType::AlphanumericSpecial, length_type: LengthType::Lllvar, max_len: 999 }),
        121u8 => Some(FieldDefinition { data_type: DataType::AlphanumericSpecial, length_type: LengthType::Lllvar, max_len: 999 }),
        122u8 => Some(FieldDefinition { data_type: DataType::AlphanumericSpecial, length_type: LengthType::Lllvar, max_len: 999 }),
        123u8 => Some(FieldDefinition { data_type: DataType::AlphanumericSpecial, length_type: LengthType::Lllvar, max_len: 999 }),
        124u8 => Some(FieldDefinition { data_type: DataType::AlphanumericSpecial, length_type: LengthType::Lllvar, max_len: 255 }),
        125u8 => Some(FieldDefinition { data_type: DataType::AlphanumericSpecial, length_type: LengthType::Lllvar, max_len: 50 }),
        126u8 => Some(FieldDefinition { data_type: DataType::AlphanumericSpecial, length_type: LengthType::Lllvar, max_len: 6 }),
        127u8 => Some(FieldDefinition { data_type: DataType::AlphanumericSpecial, length_type: LengthType::Lllvar, max_len: 999 }),
        128u8 => Some(FieldDefinition { data_type: DataType::Binary, length_type: LengthType::Fixed, max_len: 8 }),
        _ => None,
    }
}

/// A specification version: a total lookup from field number to definition.
pub trait IsoSpec {
    /// The table as a mathematical map.
    spec fn spec_field(n: u8) -> Option<FieldDefinition>;

    /// Look up a field definition by number.
    fn get_field(number: u8) -> (r: Option<FieldDefinition>)
        ensures
            r == Self::spec_field(number),
    ;
}

/// The ISO 8583:1987 specification.
pub struct Iso1987;

impl IsoSpec for Iso1987 {
    open spec fn spec_field(n: u8) -> Option<FieldDefinition> {
        spec_iso1987_field(n)
    }

    fn get_field(number: u8) -> (r: Option<FieldDefinition>) {
        iso1987_field(number)
    }
}

/// Every variable-length field of the 1987 table fits its decimal length
/// indicator: two digits suffice for LLVAR maxima and three for LLLVAR.
pub proof fn lemma_iso1987_var_max_fits(n: u8)
    ensures
        spec_iso1987_field(n) matches Some(d) ==> (d.length_type == LengthType::Llvar
            ==> d.max_len < 100) && (d.length_type == LengthType::Lllvar ==> d.max_len < 1000),
{
}

} // verus!
