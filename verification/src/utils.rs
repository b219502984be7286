//! Utilities around the codec: display masking, amount and date rendering,
//! trace-number generation, and small reference tables.

use vstd::prelude::*;
use vstd::string::StrSliceExecFns;
use vstd::string::StringSliceAdditionalSpecFns;
use chrono::Datelike;
use chrono::Timelike;
use crate::ascii::{
    all_digits, chars_of_bytes, dec_bytes_min_width, dec_min_width, dec_val, digit_val, is_digit,
    parse_dec_usize, string_from_ascii,
};
use crate::error::ISO8583Error;
use crate::validation::{spec_date_mmdd_ok, spec_time_hhmmss_ok};

verus! {

/// The masked form of an account number: all asterisks when shorter than
/// ten characters, otherwise the first six and last four characters with
/// four asterisks between.
pub open spec fn spec_mask_pan(s: Seq<char>) -> Seq<char> {
    if s.len() < 10 {
        Seq::new(s.len(), |i: int| '*')
    } else {
        s.take(6) + seq!['*', '*', '*', '*'] + s.skip(s.len() - 4)
    }
}

/// Mask an account number for display: first six and last four characters
/// kept, the middle replaced by four asterisks; short inputs are fully
/// masked.
pub fn mask_pan(pan: &str) -> (r: String)
    ensures
        r@ == spec_mask_pan(pan@),
{
    let n = pan.unicode_len();
    if n < 10 {
        let mut stars: Vec<u8> = Vec::new();
        let mut i: usize = 0;
        while i < n
            invariant
                0 <= i <= n,
                stars@ =~= Seq::new(i as nat, |j: int| 42u8),
            decreases n - i,
        {
            stars.push(42u8);
            i = i + 1;
        }
        let r = string_from_ascii(stars);
        proof {
            assert(r@ =~= spec_mask_pan(pan@)) by {
                assert((42u8 as char) as u32 == 42);
                assert('*' as u32 == 42);
                assert forall|i: int| 0 <= i < n implies r@[i] == '*' by {
                    vstd::utf8::char_u32_cast('*', 42);
                }
            }
        }
        return r;
    }
    let head = pan.substring_char(0, 6);
    let tail = pan.substring_char(n - 4, n);
    let mut out = String::from_str(head);
    proof {
        reveal_strlit("****");
    }
    out.append("****");
    out.append(tail);
    proof {
        assert("****"@ =~= seq!['*', '*', '*', '*']) by {
            assert("****"@.len() == 4);
        }
        assert(out@ =~= spec_mask_pan(pan@));
    }
    out
}

/// The rendering of a minor-unit amount: the currency symbol, the major
/// units in decimal, a point, and two cent digits. A string that is not a
/// machine-sized decimal number renders as zero.
pub open spec fn spec_format_amount(s: Seq<char>, sym: Seq<char>) -> Seq<char> {
    let v: nat = if s.len() > 0 && all_digits(s) && dec_val(s) <= usize::MAX {
        dec_val(s)
    } else {
        0
    };
    sym + chars_of_bytes(dec_min_width(v / 100, 0)) + seq!['.'] + chars_of_bytes(
        dec_min_width(v % 100, 2),
    )
}

/// Format a minor-unit amount string for display with a currency symbol,
/// as major units with two decimals.
pub fn format_amount(amount_str: &str, currency_symbol: &str) -> (r: String)
    ensures
        r@ == spec_format_amount(amount_str@, currency_symbol@),
{
    let v: usize = match parse_dec_usize(amount_str) {
        Some(v) => v,
        None => 0,
    };
    let mut out = String::from_str(currency_symbol);
    let major = dec_bytes_min_width((v / 100) as u64, 0);
    proof {
        crate::ascii::lemma_dec_digits_are_digits((v / 100) as nat);
    }
    out.append(string_from_ascii(major).as_str());
    proof {
        reveal_strlit(".");
        lemma_dot_char();
    }
    out.append(".");
    let cents = dec_bytes_min_width((v % 100) as u64, 2);
    proof {
        crate::ascii::lemma_dec_digits_are_digits((v % 100) as nat);
        crate::ascii::lemma_dec_min_width_val((v % 100) as nat, 2);
    }
    out.append(string_from_ascii(cents).as_str());
    proof {
        assert(out@ =~= spec_format_amount(amount_str@, currency_symbol@));
    }
    out
}

proof fn lemma_dot_char()
    ensures
        "."@ =~= seq!['.'],
{
    reveal_strlit(".");
    assert("."@.len() == 1);
}

/// Relies on `chrono::Utc::now` with the `Datelike` and `Timelike`
/// accessors: the month is one through twelve, the day one through
/// thirty-one, the hour below twenty-four, and the minute and second below
/// sixty. The year carries no promise beyond being the calendar year.
/// `Utc::now` itself panics when the system clock reads before the Unix
/// epoch; nothing an argument could exclude.
#[verifier::external_body]
fn current_utc_parts() -> (r: (i32, u8, u8, u8, u8, u8))
    ensures
        1 <= r.1 <= 12,
        1 <= r.2 <= 31,
        r.3 < 24,
        r.4 < 60,
        r.5 < 60,
{
    let now = chrono::Utc::now();
    (
        now.year(),
        now.month() as u8,
        now.day() as u8,
        now.hour() as u8,
        now.minute() as u8,
        now.second() as u8,
    )
}

/// Two zero-padded decimal digits of a value below one hundred.
fn two_digits(v: u8) -> (r: Vec<u8>)
    requires
        v < 100,
    ensures
        r@ == dec_min_width(v as nat, 2),
        r@.len() == 2,
        crate::ascii::all_ascii_bytes(r@),
{
    let r = dec_bytes_min_width(v as u64, 2);
    proof {
        crate::ascii::lemma_dec_digits_are_digits(v as nat);
        crate::ascii::lemma_dec_min_width_val(v as nat, 2);
    }
    r
}

/// The current transmission date and time: ten digits, month, day, hour,
/// minute, second, each pair zero padded; the date and time pairs are
/// always in range.
pub fn generate_transmission_datetime() -> (r: String)
    ensures
        r@.len() == 10,
        all_digits(r@),
        spec_date_mmdd_ok(r@.take(4)),
        spec_time_hhmmss_ok(r@.skip(4)),
{
    let (_, month, day, hour, minute, second) = current_utc_parts();
    let mut out = two_digits(month);
    let mut t = two_digits(day);
    out.append(&mut t);
    let mut t = two_digits(hour);
    out.append(&mut t);
    let mut t = two_digits(minute);
    out.append(&mut t);
    let mut t = two_digits(second);
    out.append(&mut t);
    let r = string_from_ascii(out);
    proof {
        lemma_pair_digits(month as nat, day as nat, r@.take(4));
        assert(1 <= digit_val(r@.take(4)[0]) * 10 + digit_val(r@.take(4)[1]) <= 12);
        lemma_pair_digits(hour as nat, minute as nat, r@.skip(4).take(4));
        lemma_pair_digits(second as nat, second as nat, r@.skip(8) + r@.skip(8));
        assert(spec_date_mmdd_ok(r@.take(4)));
        assert(spec_time_hhmmss_ok(r@.skip(4)));
    }
    r
}

/// The two characters of a zero-padded pair spell its value.
proof fn lemma_two_digit_chars(v: nat)
    requires
        v < 100,
    ensures
        chars_of_bytes(dec_min_width(v, 2)).len() == 2,
        all_digits(chars_of_bytes(dec_min_width(v, 2))),
        digit_val(chars_of_bytes(dec_min_width(v, 2))[0]) * 10 + digit_val(
            chars_of_bytes(dec_min_width(v, 2))[1],
        ) == v,
{
    crate::ascii::lemma_dec_digits_are_digits(v);
    crate::ascii::lemma_dec_min_width_val(v, 2);
    let cs = chars_of_bytes(dec_min_width(v, 2));
    assert forall|i: int| 0 <= i < 2 implies is_digit(#[trigger] cs[i]) by {
        assert(cs[i] == (dec_min_width(v, 2)[i] as char));
        assert(crate::ascii::is_digit_byte(dec_min_width(v, 2)[i]));
    }
    assert(cs.drop_last() =~= cs.take(1));
    assert(cs.take(1).drop_last() =~= Seq::<char>::empty());
    assert(cs.last() == cs[1]);
    assert(cs.take(1).last() == cs[0]);
    assert(dec_val(cs.take(1)) == digit_val(cs[0]));
    assert(dec_val(cs) == dec_val(cs.drop_last()) * 10 + digit_val(cs.last()));
    assert(dec_val(chars_of_bytes(dec_min_width(v, 2))) == v);
}

proof fn lemma_pair_digits(a: nat, b: nat, s: Seq<char>)
    requires
        a < 100,
        b < 100,
        s =~= chars_of_bytes(dec_min_width(a, 2)) + chars_of_bytes(dec_min_width(b, 2)),
    ensures
        s.len() == 4,
        all_digits(s),
        digit_val(s[0]) * 10 + digit_val(s[1]) == a,
        digit_val(s[2]) * 10 + digit_val(s[3]) == b,
{
    lemma_two_digit_chars(a);
    lemma_two_digit_chars(b);
}

/// The current local time as six digits, hour, minute, second, always in
/// range.
pub fn generate_local_time() -> (r: String)
    ensures
        r@.len() == 6,
        all_digits(r@),
        spec_time_hhmmss_ok(r@),
{
    let (_, _, _, hour, minute, second) = current_utc_parts();
    let mut out = two_digits(hour);
    let mut t = two_digits(minute);
    out.append(&mut t);
    let mut t = two_digits(second);
    out.append(&mut t);
    let r = string_from_ascii(out);
    proof {
        lemma_pair_digits(hour as nat, minute as nat, r@.take(4));
        lemma_two_digit_chars(second as nat);
        assert(r@.skip(4) =~= chars_of_bytes(dec_min_width(second as nat, 2)));
        assert(spec_time_hhmmss_ok(r@));
    }
    r
}

/// The current local date as four digits, month and day, always in range.
pub fn generate_local_date() -> (r: String)
    ensures
        r@.len() == 4,
        all_digits(r@),
        spec_date_mmdd_ok(r@),
{
    let (_, month, day, _, _, _) = current_utc_parts();
    let mut out = two_digits(month);
    let mut t = two_digits(day);
    out.append(&mut t);
    let r = string_from_ascii(out);
    proof {
        lemma_pair_digits(month as nat, day as nat, r@);
    }
    r
}

/// Parse a ten-digit transmission date and time into its month, day, hour,
/// minute, and second; fails exactly when the string is not ten digits or
/// a component is out of range.
pub fn parse_transmission_datetime(s: &str) -> (r: Result<
    (u32, u32, u32, u32, u32),
    ISO8583Error,
>)
    ensures
        r is Ok <==> s@.len() == 10 && all_digits(s@) && spec_date_mmdd_ok(s@.take(4))
            && spec_time_hhmmss_ok(s@.skip(4)),
        r is Ok ==> {
            let v = r->Ok_0;
            &&& v.0 == digit_val(s@[0]) * 10 + digit_val(s@[1])
            &&& v.1 == digit_val(s@[2]) * 10 + digit_val(s@[3])
            &&& v.2 == digit_val(s@[4]) * 10 + digit_val(s@[5])
            &&& v.3 == digit_val(s@[6]) * 10 + digit_val(s@[7])
            &&& v.4 == digit_val(s@[8]) * 10 + digit_val(s@[9])
        },
        r is Err ==> (r->Err_0 matches ISO8583Error::InvalidDateTime { field, .. } && field == 7),
    {
        let n = s.unicode_len();
        if n != 10 {
            proof {
                reveal_strlit("Must be 10 digits");
            }
            return Err(ISO8583Error::invalid_datetime(7, "Must be 10 digits"));
        }
        let mut ds: Vec<u32> = Vec::new();
        let mut i: usize = 0;
        while i < 10
            invariant
                n == s@.len() == 10,
                0 <= i <= 10,
                ds@.len() == i,
                all_digits(s@.take(i as int)),
                forall|j: int|
                    0 <= j < i ==> #[trigger] ds@[j] == digit_val(s@[j]) && ds@[j] <= 9,
            decreases 10 - i,
        {
            let c = s.get_char(i);
            let u: u32 = c as u32;
            if u < 48 || u > 57 {
                proof {
                    reveal_strlit("Not a digit");
                    assert(!is_digit(s@[i as int]));
                }
                return Err(ISO8583Error::invalid_datetime(7, "Not a digit"));
            }
            ds.push(u - 48);
            proof {
                assert(s@.take(i + 1) =~= s@.take(i as int).push(s@[i as int]));
            }
            i = i + 1;
        }
        proof {
            assert(s@.take(10) =~= s@);
            assert forall|j: int| 0 <= j < 4 implies s@.take(4)[j] == s@[j] by {}
            assert forall|j: int| 0 <= j < 6 implies s@.skip(4)[j] == s@[j + 4] by {}
        }
        let month = ds[0] * 10 + ds[1];
        let day = ds[2] * 10 + ds[3];
        let hour = ds[4] * 10 + ds[5];
        let minute = ds[6] * 10 + ds[7];
        let second = ds[8] * 10 + ds[9];
        if month < 1 || month > 12 {
            proof {
                reveal_strlit("Month out of range");
            }
            return Err(ISO8583Error::invalid_datetime(7, "Month out of range"));
        }
        if day < 1 || day > 31 {
            proof {
                reveal_strlit("Day out of range");
            }
            return Err(ISO8583Error::invalid_datetime(7, "Day out of range"));
        }
        if hour >= 24 {
            proof {
                reveal_strlit("Hour out of range");
            }
            return Err(ISO8583Error::invalid_datetime(7, "Hour out of range"));
        }
        if minute >= 60 {
            proof {
                reveal_strlit("Minute out of range");
            }
            return Err(ISO8583Error::invalid_datetime(7, "Minute out of range"));
        }
        if second >= 60 {
            proof {
                reveal_strlit("Second out of range");
            }
            return Err(ISO8583Error::invalid_datetime(7, "Second out of range"));
        }
        Ok((month, day, hour, minute, second))
    }

/// Render a card expiration as four digits: the year's last two digits and
/// the zero-padded month.
pub fn format_expiration_date(year: u32, month: u32) -> (r: String)
    ensures
        r@ == chars_of_bytes(dec_min_width((year % 100) as nat, 2)) + chars_of_bytes(
            dec_min_width(month as nat, 2),
        ),
{
    let mut out = dec_bytes_min_width((year % 100) as u64, 2);
    let mut t = dec_bytes_min_width(month as u64, 2);
    out.append(&mut t);
    proof {
        crate::ascii::lemma_dec_digits_are_digits((year % 100) as nat);
        crate::ascii::lemma_dec_digits_are_digits(month as nat);
    }
    let r = string_from_ascii(out);
    proof {
        assert(r@ =~= chars_of_bytes(dec_min_width((year % 100) as nat, 2)) + chars_of_bytes(
            dec_min_width(month as nat, 2),
        ));
    }
    r
}

/// Parse a four-digit expiration into its year and month; fails exactly
/// when the string is not four digits or the month is out of range.
pub fn parse_expiration_date(s: &str) -> (r: Result<(u32, u32), ISO8583Error>)
    ensures
        r is Ok <==> s@.len() == 4 && all_digits(s@) && 1 <= digit_val(s@[2]) * 10 + digit_val(
            s@[3],
        ) <= 12,
        r is Ok ==> r->Ok_0.0 == digit_val(s@[0]) * 10 + digit_val(s@[1]) && r->Ok_0.1
            == digit_val(s@[2]) * 10 + digit_val(s@[3]),
        r is Err ==> (r->Err_0 matches ISO8583Error::InvalidDateTime { field, .. } && field
            == 14),
{
    let n = s.unicode_len();
    if n != 4 {
        proof {
            reveal_strlit("Must be 4 digits");
        }
        return Err(ISO8583Error::invalid_datetime(14, "Must be 4 digits"));
    }
    let mut ds: Vec<u32> = Vec::new();
    let mut i: usize = 0;
    while i < 4
        invariant
            n == s@.len() == 4,
            0 <= i <= 4,
            ds@.len() == i,
            all_digits(s@.take(i as int)),
            forall|j: int| 0 <= j < i ==> #[trigger] ds@[j] == digit_val(s@[j]) && ds@[j] <= 9,
        decreases 4 - i,
    {
        let c = s.get_char(i);
        let u: u32 = c as u32;
        if u < 48 || u > 57 {
            proof {
                reveal_strlit("Not a digit");
                assert(!is_digit(s@[i as int]));
            }
            return Err(ISO8583Error::invalid_datetime(14, "Not a digit"));
        }
        ds.push(u - 48);
        proof {
            assert(s@.take(i + 1) =~= s@.take(i as int).push(s@[i as int]));
        }
        i = i + 1;
    }
    proof {
        assert(s@.take(4) =~= s@);
    }
    let year = ds[0] * 10 + ds[1];
    let month = ds[2] * 10 + ds[3];
    if month < 1 || month > 12 {
        proof {
            reveal_strlit("Month out of range");
        }
        return Err(ISO8583Error::invalid_datetime(14, "Month out of range"));
    }
    Ok((year, month))
}

/// The next trace number from a caller-owned counter: six zero-padded
/// digits of the counter value modulo one million; the counter advances by
/// one, wrapping at its maximum.
pub fn generate_stan(counter: &mut u32) -> (r: String)
    ensures
        r@ == chars_of_bytes(dec_min_width((*old(counter) % 1000000) as nat, 6)),
        *old(counter) == u32::MAX ==> *final(counter) == 0,
        *old(counter) < u32::MAX ==> *final(counter) == *old(counter) + 1,
{
    let value = *counter % 1000000;
    if *counter == u32::MAX {
        *counter = 0;
    } else {
        *counter = *counter + 1;
    }
    let bytes = dec_bytes_min_width(value as u64, 6);
    proof {
        crate::ascii::lemma_dec_digits_are_digits(value as nat);
        lemma_pow_fact(value as nat);
        crate::ascii::lemma_dec_min_width_val(value as nat, 6);
    }
    string_from_ascii(bytes)
}

/// Six digits always suffice for a value below one million.
pub open spec fn pow_fact(v: nat) -> bool {
    v < 1000000 ==> crate::ascii::dec_digits(v).len() <= 6
}

proof fn lemma_pow_fact(v: nat)
    ensures
        pow_fact(v),
{
    if v < 1000000 {
        assert(crate::ascii::pow10(6) == 1000000) by {
            reveal_with_fuel(crate::ascii::pow10, 7);
        }
        crate::ascii::lemma_dec_digits_len_le(v, 6);
    }
}

/// A retrieval reference number: the current date as six digits followed by
/// the next six-digit trace number. Always twelve digits.
pub fn generate_rrn(counter: &mut u32) -> (r: String)
    ensures
        r@.len() == 12,
        all_digits(r@),
{
    let (year, month, day, _, _, _) = current_utc_parts();
    let yy: u8 = if year >= 0 {
        (year % 100) as u8
    } else {
        ((year % 100 + 100) % 100) as u8
    };
    let mut out = two_digits(yy);
    let mut t = two_digits(month);
    out.append(&mut t);
    let mut t = two_digits(day);
    out.append(&mut t);
    let date = string_from_ascii(out);
    let stan = generate_stan(counter);
    let mut r = date;
    r.append(stan.as_str());
    proof {
        lemma_pair_digits(yy as nat, month as nat, r@.take(4));
        lemma_two_digit_chars(day as nat);
        lemma_pow_fact((*old(counter) % 1000000) as nat);
        crate::ascii::lemma_dec_min_width_val((*old(counter) % 1000000) as nat, 6);
        assert forall|i: int| 0 <= i < 12 implies is_digit(#[trigger] r@[i]) by {
            if i < 4 {
            } else if i < 6 {
                assert(r@[i] == chars_of_bytes(
                    dec_min_width(day as nat, 2),
                )[i - 4]);
            } else {
                let ds = dec_min_width((*old(counter) % 1000000) as nat, 6);
                assert(r@[i] == (ds[i - 6] as char));
                assert(crate::ascii::is_digit_byte(ds[i - 6]));
            }
        }
    }
    r
}

/// Relies on `std::time::SystemTime::now` and `duration_since` against the
/// epoch: nothing is promised of the value, which depends on the clock.
#[verifier::external_body]
fn unix_seconds() -> u64 {
    std::time::SystemTime::now().duration_since(std::time::UNIX_EPOCH).map(|d| d.as_secs()).unwrap_or(0)
}

/// An authorization identifier: six uppercase hex digits derived from the
/// current time.
pub fn generate_auth_id() -> (r: String)
    ensures
        r@.len() == 6,
        forall|i: int| 0 <= i < 6 ==> is_hex_upper_char(#[trigger] r@[i]),
{
    let ts = unix_seconds();
    let mut v: u64 = ts % 16777216;
    let mut rev: Vec<u8> = Vec::new();
    let mut k: usize = 0;
    while k < 6
        invariant
            0 <= k <= 6,
            rev@.len() == k,
            forall|j: int| 0 <= j < k ==> is_hex_upper_byte(#[trigger] rev@[j]),
        decreases 6 - k,
    {
        let d: u8 = (v % 16) as u8;
        let b: u8 = if d < 10 {
            48 + d
        } else {
            55 + d
        };
        rev.push(b);
        v = v / 16;
        k = k + 1;
    }
    let mut out: Vec<u8> = Vec::new();
    let mut k: usize = 6;
    while k > 0
        invariant
            rev@.len() == 6,
            0 <= k <= 6,
            out@.len() == 6 - k,
            forall|j: int| 0 <= j < rev@.len() ==> is_hex_upper_byte(#[trigger] rev@[j]),
            forall|j: int| 0 <= j < out@.len() ==> is_hex_upper_byte(#[trigger] out@[j]),
        decreases k,
    {
        k = k - 1;
        out.push(rev[k]);
    }
    proof {
        assert(crate::ascii::all_ascii_bytes(out@));
    }
    let r = string_from_ascii(out);
    proof {
        assert forall|i: int| 0 <= i < 6 implies is_hex_upper_char(#[trigger] r@[i]) by {
            let b = out@[i];
            assert(r@[i] == (b as char));
            assert((b as char) as u32 == b as u32);
        }
    }
    r
}

/// An ASCII byte that is an uppercase hex digit.
pub open spec fn is_hex_upper_byte(b: u8) -> bool {
    (48 <= b <= 57) || (65 <= b <= 70)
}

/// A character that is an uppercase hex digit.
pub open spec fn is_hex_upper_char(c: char) -> bool {
    (48 <= c as u32 <= 57) || (65 <= c as u32 <= 70)
}

/// The display symbol of a currency code, or empty for an unknown code.
pub fn currency_symbol(iso_code: &str) -> (r: &'static str)
    ensures
        code_bytes_are(iso_code.spec_bytes(), 56, 52, 48) ==> r@ == "$"@,
        code_bytes_are(iso_code.spec_bytes(), 53, 54, 54) ==> r@ == "\u{20a6}"@,
        code_bytes_are(iso_code.spec_bytes(), 57, 55, 56) ==> r@ == "\u{20ac}"@,
        code_bytes_are(iso_code.spec_bytes(), 56, 50, 54) ==> r@ == "\u{a3}"@,
        code_bytes_are(iso_code.spec_bytes(), 51, 57, 50) ==> r@ == "\u{a5}"@,
        !code_bytes_are(iso_code.spec_bytes(), 56, 52, 48) && !code_bytes_are(
            iso_code.spec_bytes(),
            53,
            54,
            54,
        ) && !code_bytes_are(iso_code.spec_bytes(), 57, 55, 56) && !code_bytes_are(
            iso_code.spec_bytes(),
            56,
            50,
            54,
        ) && !code_bytes_are(iso_code.spec_bytes(), 51, 57, 50) ==> r@ == ""@,
{
    let b = crate::ascii::bytes_of_str(iso_code);
    if b.len() != 3 {
        return "";
    }
    if b[0] == 56 && b[1] == 52 && b[2] == 48 {
        "$"
    } else if b[0] == 53 && b[1] == 54 && b[2] == 54 {
        "\u{20a6}"
    } else if b[0] == 57 && b[1] == 55 && b[2] == 56 {
        "\u{20ac}"
    } else if b[0] == 56 && b[1] == 50 && b[2] == 54 {
        "\u{a3}"
    } else if b[0] == 51 && b[1] == 57 && b[2] == 50 {
        "\u{a5}"
    } else {
        ""
    }
}

/// A three-byte code spells the given digits.
pub open spec fn code_bytes_are(bs: Seq<u8>, a: u8, b: u8, c: u8) -> bool {
    bs.len() == 3 && bs[0] == a && bs[1] == b && bs[2] == c
}

/// The display name of a currency code, or a placeholder for an unknown
/// code.
pub fn currency_name(iso_code: &str) -> (r: &'static str)
    ensures
        code_bytes_are(iso_code.spec_bytes(), 56, 52, 48) ==> r@ == "US Dollar"@,
        code_bytes_are(iso_code.spec_bytes(), 53, 54, 54) ==> r@ == "Nigerian Naira"@,
        code_bytes_are(iso_code.spec_bytes(), 57, 55, 56) ==> r@ == "Euro"@,
        code_bytes_are(iso_code.spec_bytes(), 56, 50, 54) ==> r@ == "British Pound"@,
        code_bytes_are(iso_code.spec_bytes(), 51, 57, 50) ==> r@ == "Japanese Yen"@,
        code_bytes_are(iso_code.spec_bytes(), 51, 53, 54) ==> r@ == "Indian Rupee"@,
        code_bytes_are(iso_code.spec_bytes(), 55, 49, 48) ==> r@ == "South African Rand"@,
        !code_bytes_are(iso_code.spec_bytes(), 56, 52, 48) && !code_bytes_are(
            iso_code.spec_bytes(),
            53,
            54,
            54,
        ) && !code_bytes_are(iso_code.spec_bytes(), 57, 55, 56) && !code_bytes_are(
            iso_code.spec_bytes(),
            56,
            50,
            54,
        ) && !code_bytes_are(iso_code.spec_bytes(), 51, 57, 50) && !code_bytes_are(
            iso_code.spec_bytes(),
            51,
            53,
            54,
        ) && !code_bytes_are(iso_code.spec_bytes(), 55, 49, 48) ==> r@ == "Unknown Currency"@,
{
    let b = crate::ascii::bytes_of_str(iso_code);
    if b.len() != 3 {
        return "Unknown Currency";
    }
    if b[0] == 56 && b[1] == 52 && b[2] == 48 {
        "US Dollar"
    } else if b[0] == 53 && b[1] == 54 && b[2] == 54 {
        "Nigerian Naira"
    } else if b[0] == 57 && b[1] == 55 && b[2] == 56 {
        "Euro"
    } else if b[0] == 56 && b[1] == 50 && b[2] == 54 {
        "British Pound"
    } else if b[0] == 51 && b[1] == 57 && b[2] == 50 {
        "Japanese Yen"
    } else if b[0] == 51 && b[1] == 53 && b[2] == 54 {
        "Indian Rupee"
    } else if b[0] == 55 && b[1] == 49 && b[2] == 48 {
        "South African Rand"
    } else {
        "Unknown Currency"
    }
}

/// Track 2 data is acceptable when it holds exactly one separator, a card
/// number part of thirteen to nineteen bytes before it, and at least four
/// bytes after it.
pub open spec fn spec_track2_ok(bs: Seq<u8>) -> bool {
    exists|i: int|
        0 <= i < bs.len() && #[trigger] bs[i] == 61 && 13 <= i <= 19 && bs.len() - i - 1 >= 4
            && (forall|j: int| 0 <= j < bs.len() && j != i ==> bs[j] != 61)
}

/// Validate the shape of track 2 data: one separator, a thirteen to
/// nineteen byte card number before it, at least four bytes after it.
pub fn validate_track2(track2: &str) -> (r: bool)
    ensures
        r == spec_track2_ok(track2.spec_bytes()),
{
    let b = crate::ascii::bytes_of_str(track2);
    let mut sep: usize = 0;
    let mut count: usize = 0;
    let mut i: usize = 0;
    while i < b.len()
        invariant
            0 <= i <= b@.len(),
            count <= i,
            count == 0 ==> forall|j: int| 0 <= j < i ==> b@[j] != 61,
            count >= 1 ==> 0 <= sep < i && b@[sep as int] == 61,
            count == 1 ==> forall|j: int| 0 <= j < i && j != sep ==> b@[j] != 61,
            count >= 2 ==> exists|j: int, j2: int|
                0 <= j < j2 < i && #[trigger] b@[j] == 61 && #[trigger] b@[j2] == 61,
        decreases b@.len() - i,
    {
        if b[i] == 61 {
            if count == 0 {
                sep = i;
            }
            count = count + 1;
        }
        i = i + 1;
    }
    if count != 1 {
        proof {
            if spec_track2_ok(b@) {
                let t = choose|t: int|
                    0 <= t < b@.len() && #[trigger] b@[t] == 61 && 13 <= t <= 19 && b@.len() - t
                        - 1 >= 4 && (forall|j: int| 0 <= j < b@.len() && j != t ==> b@[j] != 61);
                if count == 0 {
                    assert(b@[t] != 61);
                } else {
                    let (j, j2) = choose|j: int, j2: int|
                        0 <= j < j2 < b@.len() && #[trigger] b@[j] == 61 && #[trigger] b@[j2]
                            == 61;
                    assert(j != t || j2 != t);
                }
                assert(false);
            }
        }
        return false;
    }
    let ok = sep >= 13 && sep <= 19 && b.len() - sep - 1 >= 4;
    proof {
        if ok {
            assert(spec_track2_ok(b@));
        } else {
            if spec_track2_ok(b@) {
                let t = choose|t: int|
                    0 <= t < b@.len() && #[trigger] b@[t] == 61 && 13 <= t <= 19 && b@.len() - t
                        - 1 >= 4 && (forall|j: int| 0 <= j < b@.len() && j != t ==> b@[j] != 61);
                assert(t == sep);
                assert(false);
            }
        }
    }
    ok
}

} // verus!
