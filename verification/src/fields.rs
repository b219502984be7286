//! Typed field wrappers: small value types bound to a field number, for
//! callers that want a dedicated type per field.

use vstd::prelude::*;
use vstd::string::StringSliceAdditionalSpecFns;
use crate::ascii::{dec_val, digit_val, is_digit};

verus! {

/// A field with a statically known field number.
pub trait IsoField {
    /// The field number.
    fn field_number() -> u8;
}

/// Primary Account Number, field two, wrapping any representation of the
/// number.
#[derive(Debug, Clone, PartialEq, Eq)]
pub struct Field2Pan<T>(pub T);

impl<T> IsoField for Field2Pan<T> {
    fn field_number() -> (r: u8)
        ensures
            r == 2,
    {
        2
    }
}

impl<T> Field2Pan<T> {
    /// The field number.
    pub fn number() -> (r: u8)
        ensures
            r == 2,
    {
        2
    }

    /// Wrap a value.
    pub fn new(value: T) -> (r: Self)
        ensures
            r.0 == value,
    {
        Field2Pan(value)
    }

    /// The wrapped value.
    pub fn value(&self) -> (r: &T)
        ensures
            *r == self.0,
    {
        &self.0
    }

    /// Unwrap the value.
    pub fn into_value(self) -> (r: T)
        ensures
            r == self.0,
    {
        self.0
    }
}

/// Transaction Amount, field four: exactly twelve digit bytes.
#[derive(Debug, Clone, PartialEq, Eq)]
pub struct Field4Amount(pub Vec<u8>);

impl IsoField for Field4Amount {
    fn field_number() -> (r: u8)
        ensures
            r == 4,
    {
        4
    }
}

impl Field4Amount {
    /// The field number.
    pub fn number() -> (r: u8)
        ensures
            r == 4,
    {
        4
    }

    /// Wrap twelve bytes.
    pub fn new(data: Vec<u8>) -> (r: Self)
        ensures
            r.0 == data,
    {
        Field4Amount(data)
    }

    /// The raw bytes.
    pub fn as_bytes(&self) -> (r: &[u8])
        ensures
            r@ == self.0@,
    {
        self.0.as_slice()
    }

    /// The numeric value of the digits; fails when a byte is not a digit.
    pub fn to_u64(&self) -> (r: Result<u64, &'static str>)
        requires
            self.0@.len() <= 12,
        ensures
            r is Ok <==> (forall|i: int|
                0 <= i < self.0@.len() ==> crate::ascii::is_digit_byte(#[trigger] self.0@[i])),
            r is Ok ==> r->Ok_0 == dec_val(crate::ascii::chars_of_bytes(self.0@)),
    {
        parse_digit_bytes(&self.0)
    }
}

/// System Trace Audit Number, field eleven: exactly six digit bytes.
#[derive(Debug, Clone, PartialEq, Eq)]
pub struct Field11Stan(pub Vec<u8>);

impl IsoField for Field11Stan {
    fn field_number() -> (r: u8)
        ensures
            r == 11,
    {
        11
    }
}

impl Field11Stan {
    /// The field number.
    pub fn number() -> (r: u8)
        ensures
            r == 11,
    {
        11
    }

    /// Wrap six bytes.
    pub fn new(data: Vec<u8>) -> (r: Self)
        ensures
            r.0 == data,
    {
        Field11Stan(data)
    }

    /// The raw bytes.
    pub fn as_bytes(&self) -> (r: &[u8])
        ensures
            r@ == self.0@,
    {
        self.0.as_slice()
    }

    /// The numeric value of the digits; fails when a byte is not a digit.
    pub fn to_u64(&self) -> (r: Result<u64, &'static str>)
        requires
            self.0@.len() <= 12,
        ensures
            r is Ok <==> (forall|i: int|
                0 <= i < self.0@.len() ==> crate::ascii::is_digit_byte(#[trigger] self.0@[i])),
            r is Ok ==> r->Ok_0 == dec_val(crate::ascii::chars_of_bytes(self.0@)),
    {
        parse_digit_bytes(&self.0)
    }
}

/// Parse a short run of ASCII digit bytes as a number.
fn parse_digit_bytes(bytes: &Vec<u8>) -> (r: Result<u64, &'static str>)
    requires
        bytes@.len() <= 12,
    ensures
        r is Ok <==> (forall|i: int|
            0 <= i < bytes@.len() ==> crate::ascii::is_digit_byte(#[trigger] bytes@[i])),
        r is Ok ==> r->Ok_0 == dec_val(crate::ascii::chars_of_bytes(bytes@)),
{
    let ghost cs = crate::ascii::chars_of_bytes(bytes@);
    let mut acc: u64 = 0;
    let mut i: usize = 0;
    while i < bytes.len()
        invariant
            bytes@.len() <= 12,
            cs == crate::ascii::chars_of_bytes(bytes@),
            0 <= i <= bytes@.len(),
            forall|j: int| 0 <= j < i ==> crate::ascii::is_digit_byte(#[trigger] bytes@[j]),
            acc == dec_val(cs.take(i as int)),
            acc <= 1000000000000,
        decreases bytes@.len() - i,
    {
        let b = bytes[i];
        if b < 48 || b > 57 {
            return Err("Must contain only digits");
        }
        proof {
            assert(cs.take(i + 1).drop_last() =~= cs.take(i as int));
            assert(cs.take(i + 1).last() == (bytes@[i as int] as char));
            assert((bytes@[i as int] as char) as u32 == bytes@[i as int] as u32);
            assert(is_digit(cs.take(i + 1).last()));
            assert(digit_val(cs.take(i + 1).last()) == b - 48);
            crate::ascii::lemma_dec_val_bound(cs.take(i + 1));
            crate::ascii::lemma_pow10_le((i + 1) as nat, 12);
            assert(crate::ascii::pow10(12) == 1000000000000) by {
                reveal_with_fuel(crate::ascii::pow10, 13);
            }
        }
        acc = acc * 10 + ((b - 48) as u64);
        i = i + 1;
    }
    proof {
        assert(cs.take(bytes@.len() as int) =~= cs);
    }
    Ok(acc)
}

/// Check that a run of bytes is all digits of an exact length, and copy it.
fn checked_digit_bytes(s: &str, len: usize) -> (r: Result<Vec<u8>, &'static str>)
    ensures
        r is Ok ==> r->Ok_0@ == s.spec_bytes() && r->Ok_0@.len() == len,
{
    let b = crate::ascii::bytes_of_str(s);
    if b.len() != len {
        return Err("Invalid length");
    }
    let mut i: usize = 0;
    while i < b.len()
        invariant
            0 <= i <= b@.len(),
        decreases b@.len() - i,
    {
        if b[i] < 48 || b[i] > 57 {
            return Err("Must contain only digits");
        }
        i = i + 1;
    }
    Ok(b)
}

impl std::str::FromStr for Field4Amount {
    type Err = &'static str;

    /// Parse exactly twelve digits.
    fn from_str(s: &str) -> Result<Self, Self::Err> {
        match checked_digit_bytes(s, 12) {
            Ok(b) => Ok(Field4Amount(b)),
            Err(e) => Err(e),
        }
    }
}

impl std::str::FromStr for Field11Stan {
    type Err = &'static str;

    /// Parse exactly six digits.
    fn from_str(s: &str) -> Result<Self, Self::Err> {
        match checked_digit_bytes(s, 6) {
            Ok(b) => Ok(Field11Stan(b)),
            Err(e) => Err(e),
        }
    }
}

} // verus!
