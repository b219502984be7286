//! Tests for the text, BCD, EBCDIC, and length-indicator codecs.

use iso8583_core::encoding::{
    decode_ascii, decode_bcd, decode_ebcdic, decode_length, encode_ascii, encode_bcd,
    encode_ebcdic, encode_length, Encoding,
};

#[test]
fn test_bcd_encoding() {
    let encoded = encode_bcd("1234").unwrap();
    assert_eq!(encoded, vec![0x12, 0x34]);

    let encoded = encode_bcd("123").unwrap();
    assert_eq!(encoded, vec![0x01, 0x23]);
}

#[test]
fn test_bcd_decoding() {
    let decoded = decode_bcd(&[0x12, 0x34], 4).unwrap();
    assert_eq!(decoded, "1234");

    let decoded = decode_bcd(&[0x01, 0x23], 3).unwrap();
    assert_eq!(decoded, "012");
}

#[test]
fn test_ascii_encoding() {
    let encoded = encode_ascii("Hello");
    assert_eq!(encoded, b"Hello");
}

#[test]
fn test_ascii_decoding() {
    let decoded = decode_ascii(b"Hello").unwrap();
    assert_eq!(decoded, "Hello");
}

#[test]
fn test_length_encoding_ascii() {
    let encoded = encode_length(12, 2, Encoding::ASCII).unwrap();
    assert_eq!(encoded, b"12");

    let encoded = encode_length(123, 3, Encoding::ASCII).unwrap();
    assert_eq!(encoded, b"123");
}

#[test]
fn test_length_decoding_ascii() {
    let decoded = decode_length(b"12", 2, Encoding::ASCII).unwrap();
    assert_eq!(decoded, 12);

    let decoded = decode_length(b"123", 3, Encoding::ASCII).unwrap();
    assert_eq!(decoded, 123);
}

#[test]
fn test_length_encoding_bcd() {
    let encoded = encode_length(12, 2, Encoding::BCD).unwrap();
    assert_eq!(encoded, vec![0x12]);
}

#[test]
fn test_invalid_bcd_input() {
    assert!(encode_bcd("12A4").is_err());
    assert!(encode_bcd("ABCD").is_err());
}

#[test]
fn test_ebcdic_numbers() {
    let encoded = encode_ebcdic("0123456789").unwrap();
    let decoded = decode_ebcdic(&encoded).unwrap();
    assert_eq!(decoded, "0123456789");
}

#[test]
fn test_ebcdic_letters() {
    let encoded = encode_ebcdic("ABCDEFGHIJKLMNOPQRSTUVWXYZ").unwrap();
    let decoded = decode_ebcdic(&encoded).unwrap();
    assert_eq!(decoded, "ABCDEFGHIJKLMNOPQRSTUVWXYZ");
}

#[test]
fn test_ebcdic_digit_bytes() {
    // Digits map to the 0xF0 row of the table; a stand-in translation that
    // returned its input unchanged would fail this.
    let encoded = encode_ebcdic("09").unwrap();
    assert_eq!(encoded, vec![0xF0, 0xF9]);
}

#[test]
fn test_bcd_round_trip_even() {
    let s = "123456";
    let decoded = decode_bcd(&encode_bcd(s).unwrap(), s.len()).unwrap();
    assert_eq!(decoded, s);
}

#[test]
fn test_bcd_round_trip_odd() {
    let s = "12345";
    let decoded = decode_bcd(&encode_bcd(s).unwrap(), s.len() + 1).unwrap();
    assert_eq!(decoded, "012345");
}

#[test]
fn test_bcd_bad_nibble() {
    assert!(decode_bcd(&[0x1A], 2).is_err());
}

#[test]
fn test_ascii_decoding_utf8() {
    // The text decoder is the identity on bytes: any valid UTF-8 is
    // accepted, and a lone continuation byte is not.
    assert_eq!(decode_ascii(&[0xC3, 0xA9]).unwrap(), "\u{e9}");
    assert!(decode_ascii(&[0xFF]).is_err());
    assert!(decode_ascii(&[0xC3]).is_err());
}

#[test]
fn test_ascii_codec_round_trip() {
    let t = "CAF\u{c9} #42";
    let decoded = decode_ascii(&encode_ascii(t)).unwrap();
    assert_eq!(decoded, t);
}
