//! ISO 8583 financial message codec: bitmap engine, field specification
//! table, text/BCD/EBCDIC encodings, MTI model, message parser/serializer,
//! and builder with required-field validation.

pub mod ascii;
pub mod bitmap;
pub mod encoding;
pub mod error;
pub mod field;
pub mod fields;
pub mod iso_spec;
pub mod message;
pub mod mti;
pub mod processing_code;
pub mod response_code;
pub mod utils;
pub mod validation;

pub use bitmap::Bitmap;
pub use error::ISO8583Error;
pub use field::Field;
pub use field::FieldValue;
pub use fields::IsoField;
pub use iso_spec::DataType;
pub use iso_spec::FieldDefinition;
pub use iso_spec::Iso1987;
pub use iso_spec::IsoSpec;
pub use iso_spec::LengthType;
pub use message::ISO8583Message;
pub use message::MessageBuilder;
pub use mti::MessageClass;
pub use mti::MessageFunction;
pub use mti::MessageOrigin;
pub use mti::MessageType;
pub use processing_code::AccountType;
pub use processing_code::ProcessingCode;
pub use processing_code::TransactionType;
pub use response_code::ResponseCategory;
pub use response_code::ResponseCode;
pub use validation::Validator;
