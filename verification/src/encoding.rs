//! Wire byte encodings: ASCII, packed BCD, EBCDIC, and the decimal length
//! indicators used by variable-length fields.

use vstd::prelude::*;
use vstd::string::StringSliceAdditionalSpecFns;
use crate::ascii::{
    all_ascii_bytes, all_digits, bytes_of_str, char_of_digit, chars_of_bytes, dec_bytes_min_width,
    dec_min_width, dec_val, digit_val, is_digit, lemma_ascii_bytes_chars_round_trip,
    lemma_dec_digits_are_digits, parse_dec_usize, string_from_ascii, string_from_utf8,
};
use crate::error::ISO8583Error;

verus! {

/// Encoding format for text and length indicators.
#[derive(Debug, Clone, Copy, PartialEq, Eq)]
pub enum Encoding {
    /// Plain ASCII bytes
    ASCII,
    /// Packed binary-coded decimal, two digits per byte
    BCD,
    /// EBCDIC translation through a fixed table
    EBCDIC,
}

/// A numeric string extended on the left with one zero when its length is
/// odd, so that BCD packing always sees digit pairs.
pub open spec fn bcd_pad(s: Seq<char>) -> Seq<char> {
    if s.len() % 2 == 1 {
        seq!['0'] + s
    } else {
        s
    }
}

/// Packed BCD bytes of an even-length digit string: two digits per byte,
/// high nibble first.
pub open spec fn spec_encode_bcd(s: Seq<char>) -> Seq<u8> {
    Seq::new(s.len() / 2, |i: int| (digit_val(s[2 * i]) * 16 + digit_val(s[2 * i + 1])) as u8)
}

/// Both nibbles of a BCD byte are decimal.
pub open spec fn bcd_byte_ok(b: u8) -> bool {
    b / 16 <= 9 && b % 16 <= 9
}

/// How many bytes BCD decoding examines for a requested digit count: one
/// byte per digit pair, at least one, and no more than are available.
pub open spec fn bcd_take_count(nbytes: nat, length: nat) -> nat {
    let want: nat = if length == 0 {
        1
    } else {
        (length + 1) / 2
    };
    if nbytes <= want {
        nbytes
    } else {
        want
    }
}

/// The digit characters a BCD byte sequence unpacks to.
pub open spec fn bcd_digit_chars(bs: Seq<u8>) -> Seq<char> {
    Seq::new(
        2 * bs.len(),
        |i: int|
            if i % 2 == 0 {
                char_of_digit((bs[i / 2] as int) / 16)
            } else {
                char_of_digit((bs[i / 2] as int) % 16)
            },
    )
}

/// The digit string BCD decoding produces: unpack the examined bytes, then
/// truncate to the requested digit count.
pub open spec fn spec_decode_bcd(bytes: Seq<u8>, length: nat) -> Seq<char> {
    let digs = bcd_digit_chars(bytes.take(bcd_take_count(bytes.len(), length) as int));
    if digs.len() <= length {
        digs
    } else {
        digs.take(length as int)
    }
}

/// Encode a numeric string to packed BCD; an odd-length string is first
/// zero-padded on the left. Fails exactly when a character is not a digit.
pub fn encode_bcd(s: &str) -> (r: Result<Vec<u8>, ISO8583Error>)
    ensures
        r is Ok <==> all_digits(s@),
        r is Ok ==> r->Ok_0@ == spec_encode_bcd(bcd_pad(s@)),
        r is Err ==> r->Err_0 matches ISO8583Error::EncodingError(_),
{
    let n = s.unicode_len();
    let ghost padded = bcd_pad(s@);
    let mut vals: Vec<u8> = Vec::new();
    if n % 2 == 1 {
        vals.push(0u8);
    }
    let mut i: usize = 0;
    while i < n
        invariant
            n == s@.len(),
            0 <= i <= n,
            padded == bcd_pad(s@),
            padded.len() == n + (n % 2),
            vals@.len() == i + (n % 2),
            all_digits(s@.take(i as int)),
            forall|j: int| 0 <= j < vals@.len() ==> #[trigger] vals@[j] == digit_val(padded[j]),
            forall|j: int| 0 <= j < vals@.len() ==> #[trigger] vals@[j] <= 9,
        decreases n - i,
    {
        let c = s.get_char(i);
        let u: u32 = c as u32;
        if u < 48 || u > 57 {
            proof {
                reveal_strlit("BCD encoding requires numeric input");
                assert(!is_digit(s@[i as int]));
            }
            return Err(
                ISO8583Error::EncodingError(
                    String::from_str("BCD encoding requires numeric input"),
                ),
            );
        }
        vals.push((u - 48) as u8);
        proof {
            if n % 2 == 1 {
                assert(padded[i + 1] == s@[i as int]);
            } else {
                assert(padded[i as int] == s@[i as int]);
            }
            assert(s@.take(i + 1) =~= s@.take(i as int).push(s@[i as int]));
        }
        i = i + 1;
    }
    proof {
        assert(s@.take(n as int) =~= s@);
    }
    let vlen = vals.len();
    let half = vlen / 2;
    let mut out: Vec<u8> = Vec::new();
    let mut k: usize = 0;
    while k < half
        invariant
            vals@.len() == vlen == 2 * half,
            0 <= k <= half,
            forall|j: int| 0 <= j < vals@.len() ==> #[trigger] vals@[j] == digit_val(padded[j]),
            forall|j: int| 0 <= j < vals@.len() ==> #[trigger] vals@[j] <= 9,
            out@.len() == k,
            padded.len() == vals@.len(),
            forall|j: int|
                0 <= j < k ==> #[trigger] out@[j] == (digit_val(padded[2 * j]) * 16 + digit_val(
                    padded[2 * j + 1],
                )) as u8,
        decreases half - k,
    {
        let b: u8 = vals[2 * k] * 16 + vals[2 * k + 1];
        out.push(b);
        k = k + 1;
    }
    proof {
        assert(out@ =~= spec_encode_bcd(padded));
    }
    Ok(out)
}

/// Decode packed BCD to a digit string of (at most) `length` digits. Fails
/// exactly when an examined byte has a nibble above nine.
pub fn decode_bcd(bytes: &[u8], length: usize) -> (r: Result<String, ISO8583Error>)
    ensures
        r is Ok <==> (forall|i: int|
            0 <= i < bcd_take_count(bytes@.len(), length as nat) ==> bcd_byte_ok(
                #[trigger] bytes@[i],
            )),
        r is Ok ==> r->Ok_0@ == spec_decode_bcd(bytes@, length as nat),
        r is Err ==> r->Err_0 matches ISO8583Error::EncodingError(_),
{
    let ghost want: nat = if length == 0 {
        1nat
    } else {
        ((length + 1) / 2) as nat
    };
    let ghost k = bcd_take_count(bytes@.len(), length as nat);
    let mut out: Vec<u8> = Vec::new();
    let mut i: usize = 0;
    let mut reached: bool = false;
    while i < bytes.len() && !reached
        invariant
            k == bcd_take_count(bytes@.len(), length as nat),
            want == (if length == 0 {
                1nat
            } else {
                ((length + 1) / 2) as nat
            }),
            0 <= i <= bytes@.len(),
            i <= want,
            reached <==> i == want,
            out@.len() == 2 * i,
            forall|j: int| 0 <= j < i ==> bcd_byte_ok(#[trigger] bytes@[j]),
            forall|j: int|
                0 <= j < out@.len() ==> #[trigger] out@[j] == (if j % 2 == 0 {
                    48 + bytes@[j / 2] / 16
                } else {
                    48 + bytes@[j / 2] % 16
                }),
        decreases bytes@.len() - i,
    {
        let b = bytes[i];
        let hi = b / 16;
        let lo = b % 16;
        if hi > 9 || lo > 9 {
            proof {
                reveal_strlit("Invalid BCD byte");
                assert(i < k);
                assert(!bcd_byte_ok(bytes@[i as int]));
            }
            return Err(ISO8583Error::EncodingError(String::from_str("Invalid BCD byte")));
        }
        out.push(48 + hi);
        out.push(48 + lo);
        i = i + 1;
        if out.len() >= length {
            reached = true;
        }
        proof {
            if out@.len() >= length {
                assert(2 * i >= length);
                if length == 0 {
                    assert(i == 1);
                } else {
                    assert(i >= (length + 1) / 2);
                }
            } else {
                assert(2 * i < length);
                assert(i < (length + 1) / 2);
            }
        }
    }
    proof {
        assert(i == k);
    }
    out.truncate(length);
    proof {
        let digs = bcd_digit_chars(bytes@.take(k as int));
        assert(chars_of_bytes(out@) =~= spec_decode_bcd(bytes@, length as nat)) by {
            assert forall|j: int| 0 <= j < out@.len() implies chars_of_bytes(out@)[j] == digs[j] by {
                assert(digs[j] == if j % 2 == 0 {
                    char_of_digit((bytes@[j / 2] as int) / 16)
                } else {
                    char_of_digit((bytes@[j / 2] as int) % 16)
                });
            }
        }
        assert(all_ascii_bytes(out@));
    }
    Ok(string_from_ascii(out))
}

/// Encode text as its ASCII (UTF-8) bytes.
pub fn encode_ascii(s: &str) -> (r: Vec<u8>)
    ensures
        r@ == s.spec_bytes(),
{
    bytes_of_str(s)
}

/// Decode text bytes: the identity mapping between text and its bytes.
/// Fails exactly when the bytes are not valid text.
pub fn decode_ascii(bytes: &[u8]) -> (r: Result<String, ISO8583Error>)
    ensures
        r is Ok <==> vstd::utf8::valid_utf8(bytes@),
        r is Ok ==> r->Ok_0@ == vstd::utf8::decode_utf8(bytes@) && vstd::utf8::encode_utf8(
            r->Ok_0@,
        ) == bytes@,
        r is Err ==> r->Err_0 matches ISO8583Error::EncodingError(_),
{
    let v = vstd::slice::slice_to_vec(bytes);
    match string_from_utf8(v) {
        Ok(s) => {
            proof {
                vstd::utf8::decode_utf8_encode_utf8(bytes@);
                vstd::utf8::encode_utf8_decode_utf8(s@);
                vstd::utf8::encode_utf8_decode_utf8(vstd::utf8::decode_utf8(bytes@));
                assert(s@ == vstd::utf8::decode_utf8(bytes@));
            }
            Ok(s)
        },
        Err(_) => {
            proof {
                reveal_strlit("Invalid text");
            }
            Err(ISO8583Error::EncodingError(String::from_str("Invalid text")))
        },
    }
}

/// Encode text to EBCDIC, byte by byte through the fixed table. The table
/// covers every byte value, so encoding always succeeds.
pub fn encode_ebcdic(s: &str) -> (r: Result<Vec<u8>, ISO8583Error>)
    ensures
        r is Ok,
        r->Ok_0@ == s.spec_bytes().map_values(|b: u8| spec_ascii_to_ebcdic(b)),
{
    let bytes = bytes_of_str(s);
    let mut out: Vec<u8> = Vec::new();
    let mut i: usize = 0;
    while i < bytes.len()
        invariant
            bytes@ == s.spec_bytes(),
            0 <= i <= bytes@.len(),
            out@ =~= bytes@.take(i as int).map_values(|b: u8| spec_ascii_to_ebcdic(b)),
        decreases bytes@.len() - i,
    {
        out.push(ascii_to_ebcdic_byte(bytes[i]));
        proof {
            assert(bytes@.take(i + 1) =~= bytes@.take(i as int).push(bytes@[i as int]));
        }
        i = i + 1;
    }
    proof {
        assert(bytes@.take(bytes@.len() as int) =~= bytes@);
    }
    Ok(out)
}

/// Decode EBCDIC bytes to text: translate each byte through the fixed table,
/// then require the translation to be valid text.
pub fn decode_ebcdic(bytes: &[u8]) -> (r: Result<String, ISO8583Error>)
    ensures
        r is Ok <==> vstd::utf8::valid_utf8(bytes@.map_values(|b: u8| spec_ebcdic_to_ascii(b))),
        r is Ok ==> r->Ok_0@ == vstd::utf8::decode_utf8(
            bytes@.map_values(|b: u8| spec_ebcdic_to_ascii(b)),
        ),
        r is Err ==> r->Err_0 matches ISO8583Error::EncodingError(_),
{
    let ghost mapped = bytes@.map_values(|b: u8| spec_ebcdic_to_ascii(b));
    let mut out: Vec<u8> = Vec::new();
    let mut i: usize = 0;
    while i < bytes.len()
        invariant
            mapped == bytes@.map_values(|b: u8| spec_ebcdic_to_ascii(b)),
            0 <= i <= bytes@.len(),
            out@ =~= mapped.take(i as int),
        decreases bytes@.len() - i,
    {
        let a = ebcdic_to_ascii_byte(bytes[i]);
        out.push(a);
        proof {
            assert(mapped.take(i + 1) =~= mapped.take(i as int).push(mapped[i as int]));
        }
        i = i + 1;
    }
    proof {
        assert(mapped.take(bytes@.len() as int) =~= mapped);
        assert(out@ == mapped);
    }
    match string_from_utf8(out) {
        Ok(s) => {
            proof {
                vstd::utf8::decode_utf8_encode_utf8(mapped);
                vstd::utf8::encode_utf8_decode_utf8(s@);
                vstd::utf8::encode_utf8_decode_utf8(vstd::utf8::decode_utf8(mapped));
                assert(s@ == vstd::utf8::decode_utf8(mapped));
            }
            Ok(s)
        },
        Err(_) => {
            proof {
                reveal_strlit("Invalid text");
            }
            Err(ISO8583Error::EncodingError(String::from_str("Invalid text")))
        },
    }
}

/// The digit characters of a length indicator: the decimal rendering of the
/// value, zero-padded to the requested width.
pub open spec fn length_indicator_chars(length: nat, digits: nat) -> Seq<char> {
    chars_of_bytes(dec_min_width(length, digits))
}

/// Encode a decimal length indicator of the given width in the given
/// encoding; used for the LLVAR and LLLVAR prefixes.
pub fn encode_length(length: usize, digits: usize, encoding: Encoding) -> (r: Result<
    Vec<u8>,
    ISO8583Error,
>)
    ensures
        r is Ok,
        encoding == Encoding::ASCII ==> r->Ok_0@ == dec_min_width(length as nat, digits as nat),
        encoding == Encoding::BCD ==> r->Ok_0@ == spec_encode_bcd(
            bcd_pad(length_indicator_chars(length as nat, digits as nat)),
        ),
        encoding == Encoding::EBCDIC ==> r->Ok_0@ == dec_min_width(
            length as nat,
            digits as nat,
        ).map_values(|b: u8| spec_ascii_to_ebcdic(b)),
{
    let ds = dec_bytes_min_width(length as u64, digits);
    proof {
        lemma_dec_digits_are_digits(length as nat);
        assert(all_ascii_bytes(ds@));
    }
    match encoding {
        Encoding::ASCII => Ok(ds),
        Encoding::BCD => {
            let s = string_from_ascii(ds);
            proof {
                lemma_ascii_bytes_chars_round_trip(
                    dec_min_width(length as nat, digits as nat),
                );
            }
            let r = encode_bcd(s.as_str());
            match r {
                Ok(v) => Ok(v),
                Err(_) => {
                    proof {
                        assert(all_digits(s@));
                        assert(false);
                    }
                    Ok(Vec::new())
                },
            }
        },
        Encoding::EBCDIC => {
            let mut out: Vec<u8> = Vec::new();
            let mut i: usize = 0;
            while i < ds.len()
                invariant
                    0 <= i <= ds@.len(),
                    out@ =~= ds@.take(i as int).map_values(|b: u8| spec_ascii_to_ebcdic(b)),
                decreases ds@.len() - i,
            {
                out.push(ascii_to_ebcdic_byte(ds[i]));
                proof {
                    assert(ds@.take(i + 1) =~= ds@.take(i as int).push(ds@[i as int]));
                }
                i = i + 1;
            }
            proof {
                assert(ds@.take(ds@.len() as int) =~= ds@);
            }
            Ok(out)
        },
    }
}

/// The digit string a length indicator decodes to in a given encoding, or
/// none when the bytes are malformed for that encoding.
pub open spec fn spec_indicator_text(bytes: Seq<u8>, digits: nat, encoding: Encoding) -> Option<
    Seq<char>,
> {
    match encoding {
        Encoding::ASCII => if vstd::utf8::valid_utf8(bytes) {
            Some(vstd::utf8::decode_utf8(bytes))
        } else {
            None
        },
        Encoding::BCD => if forall|i: int|
            0 <= i < bcd_take_count(bytes.len(), digits) ==> bcd_byte_ok(#[trigger] bytes[i]) {
            Some(spec_decode_bcd(bytes, digits))
        } else {
            None
        },
        Encoding::EBCDIC => {
            let mapped = bytes.map_values(|b: u8| spec_ebcdic_to_ascii(b));
            if vstd::utf8::valid_utf8(mapped) {
                Some(vstd::utf8::decode_utf8(mapped))
            } else {
                None
            }
        },
    }
}

/// Decode a length indicator: recover its digit string in the given
/// encoding, then parse it as a decimal number. Fails exactly when the bytes
/// are malformed for the encoding or the text is not a machine-sized
/// decimal number.
pub fn decode_length(bytes: &[u8], digits: usize, encoding: Encoding) -> (r: Result<
    usize,
    ISO8583Error,
>)
    ensures
        r is Ok <==> (spec_indicator_text(bytes@, digits as nat, encoding) matches Some(t)
            && t.len() > 0 && all_digits(t) && dec_val(t) <= usize::MAX),
        r is Ok ==> r->Ok_0 == dec_val(
            spec_indicator_text(bytes@, digits as nat, encoding)->Some_0,
        ),
        r is Err ==> r->Err_0 matches ISO8583Error::EncodingError(_),
{
    let text = match encoding {
        Encoding::ASCII => decode_ascii(bytes),
        Encoding::BCD => decode_bcd(bytes, digits),
        Encoding::EBCDIC => decode_ebcdic(bytes),
    };
    match text {
        Ok(t) => {
            match parse_dec_usize(t.as_str()) {
                Some(v) => Ok(v),
                None => {
                    proof {
                        reveal_strlit("Invalid length value");
                    }
                    Err(
                        ISO8583Error::EncodingError(String::from_str("Invalid length value")),
                    )
                },
            }
        },
        Err(_) => {
            proof {
                reveal_strlit("Invalid length value");
            }
            Err(ISO8583Error::EncodingError(String::from_str("Invalid length value")))
        },
    }
}

/// Packed BCD decodes back to the digit string it was packed from: an
/// even-length numeric string round-trips exactly, and an odd-length one
/// round-trips to itself preceded by the padding zero.
pub proof fn lemma_bcd_round_trip(s: Seq<char>)
    requires
        all_digits(s),
    ensures
        s.len() % 2 == 0 ==> spec_decode_bcd(spec_encode_bcd(bcd_pad(s)), s.len()) == s,
        s.len() % 2 == 1 ==> spec_decode_bcd(spec_encode_bcd(bcd_pad(s)), s.len() + 1) == seq![
            '0',
        ] + s,
{
    let p = bcd_pad(s);
    assert(all_digits(p)) by {
        if s.len() % 2 == 1 {
            assert(p[0] == '0');
            assert forall|i: int| 0 <= i < p.len() implies is_digit(#[trigger] p[i]) by {
                if i > 0 {
                    assert(p[i] == s[i - 1]);
                }
                assert(is_digit('0')) by {
                    assert('0' as u32 == 48);
                }
            }
        }
    }
    let enc = spec_encode_bcd(p);
    let length = p.len();
    assert(enc.len() == length / 2);
    let k = bcd_take_count(enc.len(), length);
    assert(k == enc.len());
    assert(enc.take(k as int) =~= enc);
    let digs = bcd_digit_chars(enc);
    assert(digs.len() == length);
    assert forall|j: int| 0 <= j < length implies digs[j] == p[j] by {
        let b = enc[j / 2];
        let hi = digit_val(p[2 * (j / 2)]);
        let lo = digit_val(p[2 * (j / 2) + 1]);
        assert(is_digit(p[2 * (j / 2)]) && is_digit(p[2 * (j / 2) + 1]));
        assert(0 <= hi <= 9 && 0 <= lo <= 9);
        assert(b == (hi * 16 + lo) as u8);
        assert(b / 16 == hi && b % 16 == lo) by (nonlinear_arith)
            requires
                0 <= hi <= 9,
                0 <= lo <= 9,
                b == hi * 16 + lo,
        ;
        if j % 2 == 0 {
            assert(digs[j] == char_of_digit(hi));
            assert(2 * (j / 2) == j);
            assert(char_of_digit(digit_val(p[j])) == p[j]) by {
                vstd::utf8::char_u32_cast(p[j], p[j] as u32);
            }
        } else {
            assert(digs[j] == char_of_digit(lo));
            assert(2 * (j / 2) + 1 == j);
            assert(char_of_digit(digit_val(p[j])) == p[j]) by {
                vstd::utf8::char_u32_cast(p[j], p[j] as u32);
            }
        }
    }
    assert(digs =~= p);
    if s.len() % 2 == 0 {
        assert(spec_decode_bcd(enc, s.len()) =~= s);
    } else {
        assert(spec_decode_bcd(enc, s.len() + 1) =~= seq!['0'] + s);
    }
}

// -- fixed EBCDIC translation table --
/// ASCII code point of each EBCDIC byte, per the fixed 256-entry table.
pub open spec fn spec_ebcdic_to_ascii(b: u8) -> u8 {
    match b {
        0u8 => 0u8,
        1u8 => 1u8,
        2u8 => 2u8,
        3u8 => 3u8,
        4u8 => 156u8,
        5u8 => 9u8,
        6u8 => 134u8,
        7u8 => 127u8,
        8u8 => 151u8,
        9u8 => 141u8,
        10u8 => 142u8,
        11u8 => 11u8,
        12u8 => 12u8,
        13u8 => 13u8,
        14u8 => 14u8,
        15u8 => 15u8,
        16u8 => 16u8,
        17u8 => 17u8,
        18u8 => 18u8,
        19u8 => 19u8,
        20u8 => 157u8,
        21u8 => 133u8,
        22u8 => 8u8,
        23u8 => 135u8,
        24u8 => 24u8,
        25u8 => 25u8,
        26u8 => 146u8,
        27u8 => 143u8,
        28u8 => 28u8,
        29u8 => 29u8,
        30u8 => 30u8,
        31u8 => 31u8,
        32u8 => 128u8,
        33u8 => 129u8,
        34u8 => 130u8,
        35u8 => 131u8,
        36u8 => 132u8,
        37u8 => 10u8,
        38u8 => 23u8,
        39u8 => 27u8,
        40u8 => 136u8,
        41u8 => 137u8,
        42u8 => 138u8,
        43u8 => 139u8,
        44u8 => 140u8,
        45u8 => 5u8,
        46u8 => 6u8,
        47u8 => 7u8,
        48u8 => 144u8,
        49u8 => 145u8,
        50u8 => 22u8,
        51u8 => 147u8,
        52u8 => 148u8,
        53u8 => 149u8,
        54u8 => 150u8,
        55u8 => 4u8,
        56u8 => 152u8,
        57u8 => 153u8,
        58u8 => 154u8,
        59u8 => 155u8,
        60u8 => 20u8,
        61u8 => 21u8,
        62u8 => 158u8,
        63u8 => 26u8,
        64u8 => 32u8,
        65u8 => 160u8,
        66u8 => 226u8,
        67u8 => 228u8,
        68u8 => 224u8,
        69u8 => 225u8,
        70u8 => 227u8,
        71u8 => 229u8,
        72u8 => 231u8,
        73u8 => 241u8,
        74u8 => 162u8,
        75u8 => 46u8,
        76u8 => 60u8,
        77u8 => 40u8,
        78u8 => 43u8,
        79u8 => 124u8,
        80u8 => 38u8,
        81u8 => 233u8,
        82u8 => 234u8,
        83u8 => 235u8,
        84u8 => 232u8,
        85u8 => 237u8,
        86u8 => 238u8,
        87u8 => 239u8,
        88u8 => 236u8,
        89u8 => 223u8,
        90u8 => 33u8,
        91u8 => 36u8,
        92u8 => 42u8,
        93u8 => 41u8,
        94u8 => 59u8,
        95u8 => 172u8,
        96u8 => 45u8,
        97u8 => 47u8,
        98u8 => 194u8,
        99u8 => 196u8,
        100u8 => 192u8,
        101u8 => 193u8,
        102u8 => 195u8,
        103u8 => 197u8,
        104u8 => 199u8,
        105u8 => 209u8,
        106u8 => 166u8,
        107u8 => 44u8,
        108u8 => 37u8,
        109u8 => 95u8,
        110u8 => 62u8,
        111u8 => 63u8,
        112u8 => 248u8,
        113u8 => 201u8,
        114u8 => 202u8,
        115u8 => 203u8,
        116u8 => 200u8,
        117u8 => 205u8,
        118u8 => 206u8,
        119u8 => 207u8,
        120u8 => 204u8,
        121u8 => 96u8,
        122u8 => 58u8,
        123u8 => 35u8,
        124u8 => 64u8,
        125u8 => 39u8,
        126u8 => 61u8,
        127u8 => 34u8,
        128u8 => 216u8,
        129u8 => 97u8,
        130u8 => 98u8,
        131u8 => 99u8,
        132u8 => 100u8,
        133u8 => 101u8,
        134u8 => 102u8,
        135u8 => 103u8,
        136u8 => 104u8,
        137u8 => 105u8,
        138u8 => 171u8,
        139u8 => 187u8,
        140u8 => 240u8,
        141u8 => 253u8,
        142u8 => 254u8,
        143u8 => 177u8,
        144u8 => 176u8,
        145u8 => 106u8,
        146u8 => 107u8,
        147u8 => 108u8,
        148u8 => 109u8,
        149u8 => 110u8,
        150u8 => 111u8,
        151u8 => 112u8,
        152u8 => 113u8,
        153u8 => 114u8,
        154u8 => 170u8,
        155u8 => 186u8,
        156u8 => 230u8,
        157u8 => 184u8,
        158u8 => 198u8,
        159u8 => 164u8,
        160u8 => 181u8,
        161u8 => 126u8,
        162u8 => 115u8,
        163u8 => 116u8,
        164u8 => 117u8,
        165u8 => 118u8,
        166u8 => 119u8,
        167u8 => 120u8,
        168u8 => 121u8,
        169u8 => 122u8,
        170u8 => 161u8,
        171u8 => 191u8,
        172u8 => 208u8,
        173u8 => 221u8,
        174u8 => 222u8,
        175u8 => 174u8,
        176u8 => 94u8,
        177u8 => 163u8,
        178u8 => 165u8,
        179u8 => 183u8,
        180u8 => 169u8,
        181u8 => 167u8,
        182u8 => 182u8,
        183u8 => 188u8,
        184u8 => 189u8,
        185u8 => 190u8,
        186u8 => 91u8,
        187u8 => 93u8,
        188u8 => 175u8,
        189u8 => 168u8,
        190u8 => 180u8,
        191u8 => 215u8,
        192u8 => 123u8,
        193u8 => 65u8,
        194u8 => 66u8,
        195u8 => 67u8,
        196u8 => 68u8,
        197u8 => 69u8,
        198u8 => 70u8,
        199u8 => 71u8,
        200u8 => 72u8,
        201u8 => 73u8,
        202u8 => 173u8,
        203u8 => 244u8,
        204u8 => 246u8,
        205u8 => 242u8,
        206u8 => 243u8,
        207u8 => 245u8,
        208u8 => 125u8,
        209u8 => 74u8,
        210u8 => 75u8,
        211u8 => 76u8,
        212u8 => 77u8,
        213u8 => 78u8,
        214u8 => 79u8,
        215u8 => 80u8,
        216u8 => 81u8,
        217u8 => 82u8,
        218u8 => 185u8,
        219u8 => 251u8,
        220u8 => 252u8,
        221u8 => 249u8,
        222u8 => 250u8,
        223u8 => 255u8,
        224u8 => 92u8,
        225u8 => 247u8,
        226u8 => 83u8,
        227u8 => 84u8,
        228u8 => 85u8,
        229u8 => 86u8,
        230u8 => 87u8,
        231u8 => 88u8,
        232u8 => 89u8,
        233u8 => 90u8,
        234u8 => 178u8,
        235u8 => 212u8,
        236u8 => 214u8,
        237u8 => 210u8,
        238u8 => 211u8,
        239u8 => 213u8,
        240u8 => 48u8,
        241u8 => 49u8,
        242u8 => 50u8,
        243u8 => 51u8,
        244u8 => 52u8,
        245u8 => 53u8,
        246u8 => 54u8,
        247u8 => 55u8,
        248u8 => 56u8,
        249u8 => 57u8,
        250u8 => 179u8,
        251u8 => 219u8,
        252u8 => 220u8,
        253u8 => 217u8,
        254u8 => 218u8,
        _ => 159u8,
    }
}

/// The EBCDIC byte that encodes an ASCII code point: the lowest table
/// index that maps to it.
pub open spec fn spec_ascii_to_ebcdic(b: u8) -> u8 {
    match b {
        0u8 => 0u8,
        1u8 => 1u8,
        2u8 => 2u8,
        3u8 => 3u8,
        4u8 => 55u8,
        5u8 => 45u8,
        6u8 => 46u8,
        7u8 => 47u8,
        8u8 => 22u8,
        9u8 => 5u8,
        10u8 => 37u8,
        11u8 => 11u8,
        12u8 => 12u8,
        13u8 => 13u8,
        14u8 => 14u8,
        15u8 => 15u8,
        16u8 => 16u8,
        17u8 => 17u8,
        18u8 => 18u8,
        19u8 => 19u8,
        20u8 => 60u8,
        21u8 => 61u8,
        22u8 => 50u8,
        23u8 => 38u8,
        24u8 => 24u8,
        25u8 => 25u8,
        26u8 => 63u8,
        27u8 => 39u8,
        28u8 => 28u8,
        29u8 => 29u8,
        30u8 => 30u8,
        31u8 => 31u8,
        32u8 => 64u8,
        33u8 => 90u8,
        34u8 => 127u8,
        35u8 => 123u8,
        36u8 => 91u8,
        37u8 => 108u8,
        38u8 => 80u8,
        39u8 => 125u8,
        40u8 => 77u8,
        41u8 => 93u8,
        42u8 => 92u8,
        43u8 => 78u8,
        44u8 => 107u8,
        45u8 => 96u8,
        46u8 => 75u8,
        47u8 => 97u8,
        48u8 => 240u8,
        49u8 => 241u8,
        50u8 => 242u8,
        51u8 => 243u8,
        52u8 => 244u8,
        53u8 => 245u8,
        54u8 => 246u8,
        55u8 => 247u8,
        56u8 => 248u8,
        57u8 => 249u8,
        58u8 => 122u8,
        59u8 => 94u8,
        60u8 => 76u8,
        61u8 => 126u8,
        62u8 => 110u8,
        63u8 => 111u8,
        64u8 => 124u8,
        65u8 => 193u8,
        66u8 => 194u8,
        67u8 => 195u8,
        68u8 => 196u8,
        69u8 => 197u8,
        70u8 => 198u8,
        71u8 => 199u8,
        72u8 => 200u8,
        73u8 => 201u8,
        74u8 => 209u8,
        75u8 => 210u8,
        76u8 => 211u8,
        77u8 => 212u8,
        78u8 => 213u8,
        79u8 => 214u8,
        80u8 => 215u8,
        81u8 => 216u8,
        82u8 => 217u8,
        83u8 => 226u8,
        84u8 => 227u8,
        85u8 => 228u8,
        86u8 => 229u8,
        87u8 => 230u8,
        88u8 => 231u8,
        89u8 => 232u8,
        90u8 => 233u8,
        91u8 => 186u8,
        92u8 => 224u8,
        93u8 => 187u8,
        94u8 => 176u8,
        95u8 => 109u8,
        96u8 => 121u8,
        97u8 => 129u8,
        98u8 => 130u8,
        99u8 => 131u8,
        100u8 => 132u8,
        101u8 => 133u8,
        102u8 => 134u8,
        103u8 => 135u8,
        104u8 => 136u8,
        105u8 => 137u8,
        106u8 => 145u8,
        107u8 => 146u8,
        108u8 => 147u8,
        109u8 => 148u8,
        110u8 => 149u8,
        111u8 => 150u8,
        112u8 => 151u8,
        113u8 => 152u8,
        114u8 => 153u8,
        115u8 => 162u8,
        116u8 => 163u8,
        117u8 => 164u8,
        118u8 => 165u8,
        119u8 => 166u8,
        120u8 => 167u8,
        121u8 => 168u8,
        122u8 => 169u8,
        123u8 => 192u8,
        124u8 => 79u8,
        125u8 => 208u8,
        126u8 => 161u8,
        127u8 => 7u8,
        128u8 => 32u8,
        129u8 => 33u8,
        130u8 => 34u8,
        131u8 => 35u8,
        132u8 => 36u8,
        133u8 => 21u8,
        134u8 => 6u8,
        135u8 => 23u8,
        136u8 => 40u8,
        137u8 => 41u8,
        138u8 => 42u8,
        139u8 => 43u8,
        140u8 => 44u8,
        141u8 => 9u8,
        142u8 => 10u8,
        143u8 => 27u8,
        144u8 => 48u8,
        145u8 => 49u8,
        146u8 => 26u8,
        147u8 => 51u8,
        148u8 => 52u8,
        149u8 => 53u8,
        150u8 => 54u8,
        151u8 => 8u8,
        152u8 => 56u8,
        153u8 => 57u8,
        154u8 => 58u8,
        155u8 => 59u8,
        156u8 => 4u8,
        157u8 => 20u8,
        158u8 => 62u8,
        159u8 => 255u8,
        160u8 => 65u8,
        161u8 => 170u8,
        162u8 => 74u8,
        163u8 => 177u8,
        164u8 => 159u8,
        165u8 => 178u8,
        166u8 => 106u8,
        167u8 => 181u8,
        168u8 => 189u8,
        169u8 => 180u8,
        170u8 => 154u8,
        171u8 => 138u8,
        172u8 => 95u8,
        173u8 => 202u8,
        174u8 => 175u8,
        175u8 => 188u8,
        176u8 => 144u8,
        177u8 => 143u8,
        178u8 => 234u8,
        179u8 => 250u8,
        180u8 => 190u8,
        181u8 => 160u8,
        182u8 => 182u8,
        183u8 => 179u8,
        184u8 => 157u8,
        185u8 => 218u8,
        186u8 => 155u8,
        187u8 => 139u8,
        188u8 => 183u8,
        189u8 => 184u8,
        190u8 => 185u8,
        191u8 => 171u8,
        192u8 => 100u8,
        193u8 => 101u8,
        194u8 => 98u8,
        195u8 => 102u8,
        196u8 => 99u8,
        197u8 => 103u8,
        198u8 => 158u8,
        199u8 => 104u8,
        200u8 => 116u8,
        201u8 => 113u8,
        202u8 => 114u8,
        203u8 => 115u8,
        204u8 => 120u8,
        205u8 => 117u8,
        206u8 => 118u8,
        207u8 => 119u8,
        208u8 => 172u8,
        209u8 => 105u8,
        210u8 => 237u8,
        211u8 => 238u8,
        212u8 => 235u8,
        213u8 => 239u8,
        214u8 => 236u8,
        215u8 => 191u8,
        216u8 => 128u8,
        217u8 => 253u8,
        218u8 => 254u8,
        219u8 => 251u8,
        220u8 => 252u8,
        221u8 => 173u8,
        222u8 => 174u8,
        223u8 => 89u8,
        224u8 => 68u8,
        225u8 => 69u8,
        226u8 => 66u8,
        227u8 => 70u8,
        228u8 => 67u8,
        229u8 => 71u8,
        230u8 => 156u8,
        231u8 => 72u8,
        232u8 => 84u8,
        233u8 => 81u8,
        234u8 => 82u8,
        235u8 => 83u8,
        236u8 => 88u8,
        237u8 => 85u8,
        238u8 => 86u8,
        239u8 => 87u8,
        240u8 => 140u8,
        241u8 => 73u8,
        242u8 => 205u8,
        243u8 => 206u8,
        244u8 => 203u8,
        245u8 => 207u8,
        246u8 => 204u8,
        247u8 => 225u8,
        248u8 => 112u8,
        249u8 => 221u8,
        250u8 => 222u8,
        251u8 => 219u8,
        252u8 => 220u8,
        253u8 => 141u8,
        254u8 => 142u8,
        _ => 223u8,
    }
}

/// Translate one EBCDIC byte to its ASCII code point.
pub fn ebcdic_to_ascii_byte(b: u8) -> (r: u8)
    returns
        spec_ebcdic_to_ascii(b),
{
    match b {
        0u8 => 0u8,
        1u8 => 1u8,
        2u8 => 2u8,
        3u8 => 3u8,
        4u8 => 156u8,
        5u8 => 9u8,
        6u8 => 134u8,
        7u8 => 127u8,
        8u8 => 151u8,
        9u8 => 141u8,
        10u8 => 142u8,
        11u8 => 11u8,
        12u8 => 12u8,
        13u8 => 13u8,
        14u8 => 14u8,
        15u8 => 15u8,
        16u8 => 16u8,
        17u8 => 17u8,
        18u8 => 18u8,
        19u8 => 19u8,
        20u8 => 157u8,
        21u8 => 133u8,
        22u8 => 8u8,
        23u8 => 135u8,
        24u8 => 24u8,
        25u8 => 25u8,
        26u8 => 146u8,
        27u8 => 143u8,
        28u8 => 28u8,
        29u8 => 29u8,
        30u8 => 30u8,
        31u8 => 31u8,
        32u8 => 128u8,
        33u8 => 129u8,
        34u8 => 130u8,
        35u8 => 131u8,
        36u8 => 132u8,
        37u8 => 10u8,
        38u8 => 23u8,
        39u8 => 27u8,
        40u8 => 136u8,
        41u8 => 137u8,
        42u8 => 138u8,
        43u8 => 139u8,
        44u8 => 140u8,
        45u8 => 5u8,
        46u8 => 6u8,
        47u8 => 7u8,
        48u8 => 144u8,
        49u8 => 145u8,
        50u8 => 22u8,
        51u8 => 147u8,
        52u8 => 148u8,
        53u8 => 149u8,
        54u8 => 150u8,
        55u8 => 4u8,
        56u8 => 152u8,
        57u8 => 153u8,
        58u8 => 154u8,
        59u8 => 155u8,
        60u8 => 20u8,
        61u8 => 21u8,
        62u8 => 158u8,
        63u8 => 26u8,
        64u8 => 32u8,
        65u8 => 160u8,
        66u8 => 226u8,
        67u8 => 228u8,
        68u8 => 224u8,
        69u8 => 225u8,
        70u8 => 227u8,
        71u8 => 229u8,
        72u8 => 231u8,
        73u8 => 241u8,
        74u8 => 162u8,
        75u8 => 46u8,
        76u8 => 60u8,
        77u8 => 40u8,
        78u8 => 43u8,
        79u8 => 124u8,
        80u8 => 38u8,
        81u8 => 233u8,
        82u8 => 234u8,
        83u8 => 235u8,
        84u8 => 232u8,
        85u8 => 237u8,
        86u8 => 238u8,
        87u8 => 239u8,
        88u8 => 236u8,
        89u8 => 223u8,
        90u8 => 33u8,
        91u8 => 36u8,
        92u8 => 42u8,
        93u8 => 41u8,
        94u8 => 59u8,
        95u8 => 172u8,
        96u8 => 45u8,
        97u8 => 47u8,
        98u8 => 194u8,
        99u8 => 196u8,
        100u8 => 192u8,
        101u8 => 193u8,
        102u8 => 195u8,
        103u8 => 197u8,
        104u8 => 199u8,
        105u8 => 209u8,
        106u8 => 166u8,
        107u8 => 44u8,
        108u8 => 37u8,
        109u8 => 95u8,
        110u8 => 62u8,
        111u8 => 63u8,
        112u8 => 248u8,
        113u8 => 201u8,
        114u8 => 202u8,
        115u8 => 203u8,
        116u8 => 200u8,
        117u8 => 205u8,
        118u8 => 206u8,
        119u8 => 207u8,
        120u8 => 204u8,
        121u8 => 96u8,
        122u8 => 58u8,
        123u8 => 35u8,
        124u8 => 64u8,
        125u8 => 39u8,
        126u8 => 61u8,
        127u8 => 34u8,
        128u8 => 216u8,
        129u8 => 97u8,
        130u8 => 98u8,
        131u8 => 99u8,
        132u8 => 100u8,
        133u8 => 101u8,
        134u8 => 102u8,
        135u8 => 103u8,
        136u8 => 104u8,
        137u8 => 105u8,
        138u8 => 171u8,
        139u8 => 187u8,
        140u8 => 240u8,
        141u8 => 253u8,
        142u8 => 254u8,
        143u8 => 177u8,
        144u8 => 176u8,
        145u8 => 106u8,
        146u8 => 107u8,
        147u8 => 108u8,
        148u8 => 109u8,
        149u8 => 110u8,
        150u8 => 111u8,
        151u8 => 112u8,
        152u8 => 113u8,
        153u8 => 114u8,
        154u8 => 170u8,
        155u8 => 186u8,
        156u8 => 230u8,
        157u8 => 184u8,
        158u8 => 198u8,
        159u8 => 164u8,
        160u8 => 181u8,
        161u8 => 126u8,
        162u8 => 115u8,
        163u8 => 116u8,
        164u8 => 117u8,
        165u8 => 118u8,
        166u8 => 119u8,
        167u8 => 120u8,
        168u8 => 121u8,
        169u8 => 122u8,
        170u8 => 161u8,
        171u8 => 191u8,
        172u8 => 208u8,
        173u8 => 221u8,
        174u8 => 222u8,
        175u8 => 174u8,
        176u8 => 94u8,
        177u8 => 163u8,
        178u8 => 165u8,
        179u8 => 183u8,
        180u8 => 169u8,
        181u8 => 167u8,
        182u8 => 182u8,
        183u8 => 188u8,
        184u8 => 189u8,
        185u8 => 190u8,
        186u8 => 91u8,
        187u8 => 93u8,
        188u8 => 175u8,
        189u8 => 168u8,
        190u8 => 180u8,
        191u8 => 215u8,
        192u8 => 123u8,
        193u8 => 65u8,
        194u8 => 66u8,
        195u8 => 67u8,
        196u8 => 68u8,
        197u8 => 69u8,
        198u8 => 70u8,
        199u8 => 71u8,
        200u8 => 72u8,
        201u8 => 73u8,
        202u8 => 173u8,
        203u8 => 244u8,
        204u8 => 246u8,
        205u8 => 242u8,
        206u8 => 243u8,
        207u8 => 245u8,
        208u8 => 125u8,
        209u8 => 74u8,
        210u8 => 75u8,
        211u8 => 76u8,
        212u8 => 77u8,
        213u8 => 78u8,
        214u8 => 79u8,
        215u8 => 80u8,
        216u8 => 81u8,
        217u8 => 82u8,
        218u8 => 185u8,
        219u8 => 251u8,
        220u8 => 252u8,
        221u8 => 249u8,
        222u8 => 250u8,
        223u8 => 255u8,
        224u8 => 92u8,
        225u8 => 247u8,
        226u8 => 83u8,
        227u8 => 84u8,
        228u8 => 85u8,
        229u8 => 86u8,
        230u8 => 87u8,
        231u8 => 88u8,
        232u8 => 89u8,
        233u8 => 90u8,
        234u8 => 178u8,
        235u8 => 212u8,
        236u8 => 214u8,
        237u8 => 210u8,
        238u8 => 211u8,
        239u8 => 213u8,
        240u8 => 48u8,
        241u8 => 49u8,
        242u8 => 50u8,
        243u8 => 51u8,
        244u8 => 52u8,
        245u8 => 53u8,
        246u8 => 54u8,
        247u8 => 55u8,
        248u8 => 56u8,
        249u8 => 57u8,
        250u8 => 179u8,
        251u8 => 219u8,
        252u8 => 220u8,
        253u8 => 217u8,
        254u8 => 218u8,
        _ => 159u8,
    }
}

/// Translate one ASCII code point to the EBCDIC byte that encodes it.
pub fn ascii_to_ebcdic_byte(b: u8) -> (r: u8)
    returns
        spec_ascii_to_ebcdic(b),
{
    match b {
        0u8 => 0u8,
        1u8 => 1u8,
        2u8 => 2u8,
        3u8 => 3u8,
        4u8 => 55u8,
        5u8 => 45u8,
        6u8 => 46u8,
        7u8 => 47u8,
        8u8 => 22u8,
        9u8 => 5u8,
        10u8 => 37u8,
        11u8 => 11u8,
        12u8 => 12u8,
        13u8 => 13u8,
        14u8 => 14u8,
        15u8 => 15u8,
        16u8 => 16u8,
        17u8 => 17u8,
        18u8 => 18u8,
        19u8 => 19u8,
        20u8 => 60u8,
        21u8 => 61u8,
        22u8 => 50u8,
        23u8 => 38u8,
        24u8 => 24u8,
        25u8 => 25u8,
        26u8 => 63u8,
        27u8 => 39u8,
        28u8 => 28u8,
        29u8 => 29u8,
        30u8 => 30u8,
        31u8 => 31u8,
        32u8 => 64u8,
        33u8 => 90u8,
        34u8 => 127u8,
        35u8 => 123u8,
        36u8 => 91u8,
        37u8 => 108u8,
        38u8 => 80u8,
        39u8 => 125u8,
        40u8 => 77u8,
        41u8 => 93u8,
        42u8 => 92u8,
        43u8 => 78u8,
        44u8 => 107u8,
        45u8 => 96u8,
        46u8 => 75u8,
        47u8 => 97u8,
        48u8 => 240u8,
        49u8 => 241u8,
        50u8 => 242u8,
        51u8 => 243u8,
        52u8 => 244u8,
        53u8 => 245u8,
        54u8 => 246u8,
        55u8 => 247u8,
        56u8 => 248u8,
        57u8 => 249u8,
        58u8 => 122u8,
        59u8 => 94u8,
        60u8 => 76u8,
        61u8 => 126u8,
        62u8 => 110u8,
        63u8 => 111u8,
        64u8 => 124u8,
        65u8 => 193u8,
        66u8 => 194u8,
        67u8 => 195u8,
        68u8 => 196u8,
        69u8 => 197u8,
        70u8 => 198u8,
        71u8 => 199u8,
        72u8 => 200u8,
        73u8 => 201u8,
        74u8 => 209u8,
        75u8 => 210u8,
        76u8 => 211u8,
        77u8 => 212u8,
        78u8 => 213u8,
        79u8 => 214u8,
        80u8 => 215u8,
        81u8 => 216u8,
        82u8 => 217u8,
        83u8 => 226u8,
        84u8 => 227u8,
        85u8 => 228u8,
        86u8 => 229u8,
        87u8 => 230u8,
        88u8 => 231u8,
        89u8 => 232u8,
        90u8 => 233u8,
        91u8 => 186u8,
        92u8 => 224u8,
        93u8 => 187u8,
        94u8 => 176u8,
        95u8 => 109u8,
        96u8 => 121u8,
        97u8 => 129u8,
        98u8 => 130u8,
        99u8 => 131u8,
        100u8 => 132u8,
        101u8 => 133u8,
        102u8 => 134u8,
        103u8 => 135u8,
        104u8 => 136u8,
        105u8 => 137u8,
        106u8 => 145u8,
        107u8 => 146u8,
        108u8 => 147u8,
        109u8 => 148u8,
        110u8 => 149u8,
        111u8 => 150u8,
        112u8 => 151u8,
        113u8 => 152u8,
        114u8 => 153u8,
        115u8 => 162u8,
        116u8 => 163u8,
        117u8 => 164u8,
        118u8 => 165u8,
        119u8 => 166u8,
        120u8 => 167u8,
        121u8 => 168u8,
        122u8 => 169u8,
        123u8 => 192u8,
        124u8 => 79u8,
        125u8 => 208u8,
        126u8 => 161u8,
        127u8 => 7u8,
        128u8 => 32u8,
        129u8 => 33u8,
        130u8 => 34u8,
        131u8 => 35u8,
        132u8 => 36u8,
        133u8 => 21u8,
        134u8 => 6u8,
        135u8 => 23u8,
        136u8 => 40u8,
        137u8 => 41u8,
        138u8 => 42u8,
        139u8 => 43u8,
        140u8 => 44u8,
        141u8 => 9u8,
        142u8 => 10u8,
        143u8 => 27u8,
        144u8 => 48u8,
        145u8 => 49u8,
        146u8 => 26u8,
        147u8 => 51u8,
        148u8 => 52u8,
        149u8 => 53u8,
        150u8 => 54u8,
        151u8 => 8u8,
        152u8 => 56u8,
        153u8 => 57u8,
        154u8 => 58u8,
        155u8 => 59u8,
        156u8 => 4u8,
        157u8 => 20u8,
        158u8 => 62u8,
        159u8 => 255u8,
        160u8 => 65u8,
        161u8 => 170u8,
        162u8 => 74u8,
        163u8 => 177u8,
        164u8 => 159u8,
        165u8 => 178u8,
        166u8 => 106u8,
        167u8 => 181u8,
        168u8 => 189u8,
        169u8 => 180u8,
        170u8 => 154u8,
        171u8 => 138u8,
        172u8 => 95u8,
        173u8 => 202u8,
        174u8 => 175u8,
        175u8 => 188u8,
        176u8 => 144u8,
        177u8 => 143u8,
        178u8 => 234u8,
        179u8 => 250u8,
        180u8 => 190u8,
        181u8 => 160u8,
        182u8 => 182u8,
        183u8 => 179u8,
        184u8 => 157u8,
        185u8 => 218u8,
        186u8 => 155u8,
        187u8 => 139u8,
        188u8 => 183u8,
        189u8 => 184u8,
        190u8 => 185u8,
        191u8 => 171u8,
        192u8 => 100u8,
        193u8 => 101u8,
        194u8 => 98u8,
        195u8 => 102u8,
        196u8 => 99u8,
        197u8 => 103u8,
        198u8 => 158u8,
        199u8 => 104u8,
        200u8 => 116u8,
        201u8 => 113u8,
        202u8 => 114u8,
        203u8 => 115u8,
        204u8 => 120u8,
        205u8 => 117u8,
        206u8 => 118u8,
        207u8 => 119u8,
        208u8 => 172u8,
        209u8 => 105u8,
        210u8 => 237u8,
        211u8 => 238u8,
        212u8 => 235u8,
        213u8 => 239u8,
        214u8 => 236u8,
        215u8 => 191u8,
        216u8 => 128u8,
        217u8 => 253u8,
        218u8 => 254u8,
        219u8 => 251u8,
        220u8 => 252u8,
        221u8 => 173u8,
        222u8 => 174u8,
        223u8 => 89u8,
        224u8 => 68u8,
        225u8 => 69u8,
        226u8 => 66u8,
        227u8 => 70u8,
        228u8 => 67u8,
        229u8 => 71u8,
        230u8 => 156u8,
        231u8 => 72u8,
        232u8 => 84u8,
        233u8 => 81u8,
        234u8 => 82u8,
        235u8 => 83u8,
        236u8 => 88u8,
        237u8 => 85u8,
        238u8 => 86u8,
        239u8 => 87u8,
        240u8 => 140u8,
        241u8 => 73u8,
        242u8 => 205u8,
        243u8 => 206u8,
        244u8 => 203u8,
        245u8 => 207u8,
        246u8 => 204u8,
        247u8 => 225u8,
        248u8 => 112u8,
        249u8 => 221u8,
        250u8 => 222u8,
        251u8 => 219u8,
        252u8 => 220u8,
        253u8 => 141u8,
        254u8 => 142u8,
        _ => 223u8,
    }
}

} // verus!
