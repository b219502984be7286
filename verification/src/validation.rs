//! Validators: the Luhn check on account numbers, per-field structural
//! checks against the specification table, date and time formats, and the
//! required-field rule the builder enforces.

use vstd::prelude::*;
use vstd::string::StrSliceExecFns;
use vstd::string::StringSliceAdditionalSpecFns;
use crate::ascii::{all_digits, chars_of_bytes, digit_val, is_digit, string_from_ascii};
use crate::error::ISO8583Error;
use crate::field::{Field, FieldValue, ValueView, spec_field_number};
use crate::iso_spec::{spec_iso1987_field, DataType, FieldDefinition, LengthType};
use crate::message::{spec_has_key, ISO8583Message, MessageView};
use crate::mti::{MessageClass, MessageFunction};

verus! {

/// The Luhn contribution of one digit character: doubled on every second
/// position from the right, with a doubled two-digit result reduced by nine.
pub open spec fn luhn_contrib(c: char, dbl: bool) -> int {
    let d = digit_val(c);
    if dbl {
        if 2 * d > 9 {
            2 * d - 9
        } else {
            2 * d
        }
    } else {
        d
    }
}

/// The Luhn sum of a digit string, rightmost digit first with the given
/// starting flag.
pub open spec fn luhn_sum(s: Seq<char>, dbl: bool) -> int
    decreases s.len(),
{
    if s.len() == 0 {
        0
    } else {
        luhn_contrib(s.last(), dbl) + luhn_sum(s.drop_last(), !dbl)
    }
}

/// The digit characters of a string, in order, everything else removed.
pub open spec fn keep_digits(s: Seq<char>) -> Seq<char>
    decreases s.len(),
{
    if s.len() == 0 {
        s
    } else {
        (if is_digit(s[0]) {
            seq![s[0]]
        } else {
            Seq::<char>::empty()
        }) + keep_digits(s.drop_first())
    }
}

/// What PAN validation decides: after discarding non-digits, the digit
/// count is between thirteen and nineteen, the digits are not all zero, and
/// the Luhn sum is divisible by ten.
pub open spec fn spec_validate_pan(s: Seq<char>) -> bool {
    let ds = keep_digits(s);
    &&& 13 <= ds.len() <= 19
    &&& !(forall|i: int| 0 <= i < ds.len() ==> #[trigger] ds[i] == '0')
    &&& luhn_sum(ds, false) % 10 == 0
}

proof fn lemma_luhn_sum_nonneg(s: Seq<char>, dbl: bool)
    requires
        all_digits(s),
    ensures
        0 <= luhn_sum(s, dbl),
    decreases s.len(),
{
    if s.len() > 0 {
        assert(all_digits(s.drop_last())) by {
            assert forall|i: int| 0 <= i < s.len() - 1 implies is_digit(
                #[trigger] s.drop_last()[i],
            ) by {
                assert(s.drop_last()[i] == s[i]);
            }
        }
        lemma_luhn_sum_nonneg(s.drop_last(), !dbl);
        assert(is_digit(s.last()));
        assert(0 <= luhn_contrib(s.last(), dbl));
    }
}

/// Validator for messages and field values.
pub struct Validator;

impl Validator {
    /// Validate a primary account number with the Luhn algorithm, ignoring
    /// any non-digit characters such as spaces or dashes. True exactly when
    /// thirteen to nineteen digits remain, they are not all zero, and their
    /// Luhn sum is divisible by ten.
    pub fn validate_pan(pan: &str) -> (r: bool)
        ensures
            r == spec_validate_pan(pan@),
    {
        let n = pan.unicode_len();
        let mut digits: Vec<u8> = Vec::new();
        proof {
            assert(pan@.skip(0) =~= pan@);
        }
        let mut i: usize = 0;
        while i < n
            invariant
                n == pan@.len(),
                0 <= i <= n,
                keep_digits(pan@) =~= chars_of_bytes(digits@) + keep_digits(pan@.skip(i as int)),
                crate::ascii::all_ascii_bytes(digits@),
                all_digits(chars_of_bytes(digits@)),
                forall|j: int| 0 <= j < digits@.len() ==> crate::ascii::is_digit_byte(
                    #[trigger] digits@[j],
                ),
            decreases n - i,
        {
            let c = pan.get_char(i);
            let u: u32 = c as u32;
            let ghost rest = pan@.skip(i as int);
            proof {
                assert(rest[0] == pan@[i as int]);
                assert(rest.drop_first() =~= pan@.skip(i + 1));
            }
            if u >= 48 && u <= 57 {
                digits.push(u as u8);
                proof {
                    assert(is_digit(pan@[i as int]));
                    assert(chars_of_bytes(digits@) =~= chars_of_bytes(digits@.drop_last()).push(
                        pan@[i as int],
                    )) by {
                        assert((u as u8) as char == c) by {
                            vstd::utf8::char_u32_cast(c, u);
                            assert((u as u8) as u32 == u);
                        }
                    }
                    assert(keep_digits(rest) =~= seq![rest[0]] + keep_digits(rest.drop_first()));
                    assert(chars_of_bytes(digits@) + keep_digits(pan@.skip(i + 1))
                        =~= chars_of_bytes(digits@.drop_last()) + keep_digits(rest));
                }
            } else {
                proof {
                    assert(!is_digit(pan@[i as int]));
                    assert(keep_digits(rest) =~= keep_digits(rest.drop_first()));
                }
            }
            i = i + 1;
        }
        proof {
            assert(pan@.skip(n as int) =~= Seq::<char>::empty());
            assert(chars_of_bytes(digits@) + keep_digits(pan@.skip(n as int)) =~= chars_of_bytes(
                digits@,
            ));
            assert(keep_digits(pan@) == chars_of_bytes(digits@));
        }
        if digits.len() < 13 || digits.len() > 19 {
            return false;
        }
        let mut all_zero = true;
        let mut j: usize = 0;
        while j < digits.len()
            invariant
                0 <= j <= digits@.len(),
                all_zero == (forall|t: int|
                    0 <= t < j ==> #[trigger] chars_of_bytes(digits@)[t] == '0'),
            decreases digits@.len() - j,
        {
            if digits[j] != 48 {
                proof {
                    assert(chars_of_bytes(digits@)[j as int] == (digits@[j as int] as char));
                    assert((digits@[j as int] as char) as u32 == digits@[j as int] as u32);
                    assert('0' as u32 == 48);
                    assert(chars_of_bytes(digits@)[j as int] != '0');
                }
                all_zero = false;
            } else {
                proof {
                    vstd::utf8::char_u32_cast((digits@[j as int] as char), 48);
                    assert(chars_of_bytes(digits@)[j as int] == '0');
                }
            }
            j = j + 1;
        }
        if all_zero {
            return false;
        }
        let s = string_from_ascii(digits);
        Self::luhn_check(s.as_str())
    }

    /// The Luhn checksum test: true exactly when every character is a digit
    /// and the Luhn sum, doubling every second digit from the right, is
    /// divisible by ten.
    pub fn luhn_check(number: &str) -> (r: bool)
        ensures
            r == (all_digits(number@) && luhn_sum(number@, false) % 10 == 0),
    {
        let n = number.unicode_len();
        let mut chars: Vec<u8> = Vec::new();
        let mut i: usize = 0;
        while i < n
            invariant
                n == number@.len(),
                0 <= i <= n,
                chars@.len() == i,
                forall|j: int| 0 <= j < i ==> is_digit(#[trigger] number@[j]),
                forall|j: int|
                    0 <= j < i ==> #[trigger] chars@[j] == number@[j] as u8 && 48 <= chars@[j]
                        <= 57,
            decreases n - i,
        {
            let c = number.get_char(i);
            let u: u32 = c as u32;
            if u < 48 || u > 57 {
                proof {
                    assert(!is_digit(number@[i as int]));
                }
                return false;
            }
            chars.push(u as u8);
            i = i + 1;
        }
        proof {
            lemma_luhn_sum_nonneg(number@, false);
        }
        let mut sum: u128 = 0;
        let mut dbl: bool = false;
        let mut j: usize = n;
        proof {
            assert(number@.take(n as int) =~= number@);
        }
        while j > 0
            invariant
                n == number@.len(),
                chars@.len() == n,
                all_digits(number@),
                forall|t: int|
                    0 <= t < n ==> #[trigger] chars@[t] == number@[t] as u8 && 48 <= chars@[t]
                        <= 57,
                0 <= j <= n,
                sum <= 18 * (n - j),
                sum + luhn_sum(number@.take(j as int), dbl) == luhn_sum(number@, false),
            decreases j,
        {
            j = j - 1;
            let b = chars[j];
            let mut d: u128 = (b - 48) as u128;
            proof {
                let pref = number@.take(j + 1);
                assert(pref.drop_last() =~= number@.take(j as int));
                assert(pref.last() == number@[j as int]);
                assert(is_digit(pref.last()));
                assert(luhn_sum(pref, dbl) == luhn_contrib(number@[j as int], dbl) + luhn_sum(
                    number@.take(j as int),
                    !dbl,
                ));
            }
            if dbl {
                d = d * 2;
                if d > 9 {
                    d = d - 9;
                }
            }
            proof {
                assert(d == luhn_contrib(number@[j as int], dbl));
            }
            sum = sum + d;
            dbl = !dbl;
        }
        proof {
            assert(number@.take(0) =~= Seq::<char>::empty());
            assert(sum == luhn_sum(number@, false));
        }
        sum % 10 == 0
    }

    /// Text content rule for a data type: numeric fields hold only digits,
    /// alphabetic ones only letters and spaces, all other types anything.
    pub open spec fn spec_content_ok(dt: DataType, s: Seq<char>) -> bool {
        match dt {
            DataType::Numeric => all_digits(s),
            DataType::Alpha => forall|i: int|
                0 <= i < s.len() ==> is_alpha_or_space(#[trigger] s[i]),
            _ => true,
        }
    }

    /// Length rule for a text value under a definition: exactly the defined
    /// length for fixed fields, at most the maximum for variable ones. The
    /// length counted is the value's byte length.
    pub open spec fn spec_len_ok(d: FieldDefinition, blen: nat) -> bool {
        match d.length_type {
            LengthType::Fixed => blen == d.max_len,
            LengthType::Llvar => blen <= d.max_len,
            LengthType::Lllvar => blen <= d.max_len,
        }
    }

    /// Validate a text value's content and length against the field's
    /// definition; binary values have no structural rule here. Content is
    /// checked before length, each failure with its own error.
    pub fn validate_field_format(field: Field, value: &FieldValue) -> (r: Result<
        (),
        ISO8583Error,
    >)
        ensures
            value@ is Bin ==> r is Ok,
            value@ matches ValueView::Text(s) ==> {
                let d = spec_iso1987_field(spec_field_number(field))->Some_0;
                let blen = vstd::utf8::encode_utf8(s).len();
                &&& (r is Ok <==> Self::spec_content_ok(d.data_type, s) && Self::spec_len_ok(
                    d,
                    blen,
                ))
                &&& (!Self::spec_content_ok(d.data_type, s) ==> (r->Err_0 matches
                    ISO8583Error::InvalidFieldValue { field: k, .. } && k == spec_field_number(
                    field,
                )))
                &&& (Self::spec_content_ok(d.data_type, s) && !Self::spec_len_ok(d, blen)
                    && d.length_type == LengthType::Fixed ==> r->Err_0 == (
                ISO8583Error::FieldLengthMismatch {
                    field: spec_field_number(field),
                    expected: d.max_len as usize,
                    actual: blen as usize,
                }))
                &&& (Self::spec_content_ok(d.data_type, s) && !Self::spec_len_ok(d, blen)
                    && d.length_type != LengthType::Fixed ==> (r->Err_0 matches
                    ISO8583Error::InvalidFieldValue { field: k, .. } && k == spec_field_number(
                    field,
                )))
            },
    {
        let num = field.number();
        proof {
            assert(1 <= num <= 128);
            assert(spec_iso1987_field(num) is Some);
        }
        let d = crate::iso_spec::iso1987_field(num).unwrap();
        match value {
            FieldValue::String(s) => {
                let slice = s.as_str();
                let n = slice.unicode_len();
                let is_numeric = matches!(d.data_type, DataType::Numeric);
                let is_alpha = matches!(d.data_type, DataType::Alpha);
                let mut i: usize = 0;
                while i < n
                    invariant
                        n == slice@.len(),
                        0 <= i <= n,
                        num == spec_field_number(field),
                        spec_iso1987_field(num) == Some(d),
                        value@ == ValueView::Text(slice@),
                        is_numeric == (d.data_type == DataType::Numeric),
                        is_alpha == (d.data_type == DataType::Alpha),
                        is_numeric ==> all_digits(slice@.take(i as int)),
                        is_alpha ==> forall|j: int|
                            0 <= j < i ==> is_alpha_or_space(#[trigger] slice@[j]),
                    decreases n - i,
                {
                    let c = slice.get_char(i);
                    let u: u32 = c as u32;
                    if is_numeric {
                        if u < 48 || u > 57 {
                            proof {
                                reveal_strlit("Field must be numeric");
                                assert(!is_digit(slice@[i as int]));
                            }
                            return Err(
                                ISO8583Error::invalid_field_value(num, "Field must be numeric"),
                            );
                        }
                        proof {
                            assert(slice@.take(i + 1) =~= slice@.take(i as int).push(
                                slice@[i as int],
                            ));
                        }
                    } else if is_alpha {
                        if !((u >= 65 && u <= 90) || (u >= 97 && u <= 122) || u == 32) {
                            proof {
                                reveal_strlit("Field must be alphabetic");
                                assert(!is_alpha_or_space(slice@[i as int]));
                            }
                            return Err(
                                ISO8583Error::invalid_field_value(num, "Field must be alphabetic"),
                            );
                        }
                    }
                    i = i + 1;
                }
                proof {
                    assert(slice@.take(n as int) =~= slice@);
                }
                let blen = slice.as_bytes_vec().len();
                proof {
                    assert(blen == vstd::utf8::encode_utf8(slice@).len());
                }
                match d.length_type {
                    LengthType::Fixed => {
                        if blen != d.max_len as usize {
                            return Err(
                                ISO8583Error::field_length_mismatch(
                                    num,
                                    d.max_len as usize,
                                    blen,
                                ),
                            );
                        }
                    },
                    LengthType::Llvar | LengthType::Lllvar => {
                        if blen > d.max_len as usize {
                            proof {
                                reveal_strlit("Field exceeds maximum length");
                            }
                            return Err(
                                ISO8583Error::invalid_field_value(
                                    num,
                                    "Field exceeds maximum length",
                                ),
                            );
                        }
                    },
                }
                Ok(())
            },
            FieldValue::Binary(_) => Ok(()),
        }
    }

    /// Semantic rules for specific fields: the account number must pass the
    /// Luhn check, a response code is two characters, and amounts are
    /// non-zero digit strings. Fields without a semantic rule, and binary
    /// values, pass.
    pub fn validate_field_value(field: Field, value: &FieldValue) -> (r: Result<
        (),
        ISO8583Error,
    >)
        ensures
            value@ is Bin ==> r is Ok,
            value@ matches ValueView::Text(s) ==> (spec_field_number(field) == 2 ==> (r is Ok
                <==> spec_validate_pan(s))),
            spec_field_number(field) == 2 && r is Err ==> r->Err_0
                == ISO8583Error::LuhnCheckFailed,
            value@ matches ValueView::Text(s) ==> (spec_field_number(field) == 39 ==> (r is Ok
                <==> vstd::utf8::encode_utf8(s).len() == 2)),
            spec_field_number(field) == 39 && r is Err ==> (r->Err_0 matches
                ISO8583Error::InvalidFieldValue { field: f2, .. } && f2 == 39),
            value@ matches ValueView::Text(s) ==> ((spec_field_number(field) == 4
                || spec_field_number(field) == 5) ==> (r is Ok <==> all_digits(s) && !(forall|
                i: int|
                0 <= i < s.len() ==> #[trigger] s[i] == '0'))),
            (spec_field_number(field) == 4 || spec_field_number(field) == 5) && r is Err ==> (
            r->Err_0 matches ISO8583Error::InvalidFieldValue { field: f2, .. } && f2
                == spec_field_number(field)),
            value@ is Text && spec_field_number(field) != 2 && spec_field_number(field) != 39
                && spec_field_number(field) != 4 && spec_field_number(field) != 5 ==> r is Ok,
    {
        let num = field.number();
        match value {
            FieldValue::String(s) => {
                let slice = s.as_str();
                if num == 2 {
                    if !Self::validate_pan(slice) {
                        return Err(ISO8583Error::LuhnCheckFailed);
                    }
                    Ok(())
                } else if num == 39 {
                    if slice.as_bytes_vec().len() != 2 {
                        proof {
                            reveal_strlit("Response code must be 2 characters");
                        }
                        return Err(
                            ISO8583Error::invalid_field_value(
                                39,
                                "Response code must be 2 characters",
                            ),
                        );
                    }
                    Ok(())
                } else if num == 4 || num == 5 {
                    let n = slice.unicode_len();
                    let mut all_zero = true;
                    let mut i: usize = 0;
                    while i < n
                        invariant
                            n == slice@.len(),
                            0 <= i <= n,
                            num == spec_field_number(field),
                            num == 4 || num == 5,
                            value@ == ValueView::Text(slice@),
                            all_digits(slice@.take(i as int)),
                            all_zero == (forall|j: int|
                                0 <= j < i ==> #[trigger] slice@[j] == '0'),
                        decreases n - i,
                    {
                        let c = slice.get_char(i);
                        let u: u32 = c as u32;
                        if u < 48 || u > 57 {
                            proof {
                                reveal_strlit("Amount must be numeric");
                                assert(!is_digit(slice@[i as int]));
                            }
                            return Err(
                                ISO8583Error::invalid_field_value(num, "Amount must be numeric"),
                            );
                        }
                        if u != 48 {
                            proof {
                                assert(slice@[i as int] as u32 != 48);
                                assert('0' as u32 == 48);
                                assert(slice@[i as int] != '0');
                            }
                            all_zero = false;
                        } else {
                            proof {
                                vstd::utf8::char_u32_cast(slice@[i as int], 48);
                                assert(slice@[i as int] == '0');
                            }
                        }
                        proof {
                            assert(slice@.take(i + 1) =~= slice@.take(i as int).push(
                                slice@[i as int],
                            ));
                        }
                        i = i + 1;
                    }
                    proof {
                        assert(slice@.take(n as int) =~= slice@);
                    }
                    if all_zero {
                        proof {
                            reveal_strlit("Amount cannot be zero");
                        }
                        return Err(
                            ISO8583Error::invalid_field_value(num, "Amount cannot be zero"),
                        );
                    }
                    Ok(())
                } else {
                    Ok(())
                }
            },
            FieldValue::Binary(_) => Ok(()),
        }
    }

    /// Validate the required fields of a message, in a fixed order: the
    /// common set (processing code, trace number, local time, local date)
    /// for every message; account number and amount additionally for
    /// authorization and financial requests; the response code for
    /// responses. Fails naming the first missing field.
    pub fn validate_required_fields(msg: &ISO8583Message) -> (r: Result<(), ISO8583Error>)
        ensures
            r is Ok <==> spec_missing_required(msg@) is None,
            r is Err ==> r->Err_0 == ISO8583Error::MissingRequiredField(
                spec_missing_required(msg@)->Some_0,
            ),
    {
        if !msg.has_field(Field::ProcessingCode) {
            return Err(ISO8583Error::MissingRequiredField(3));
        }
        if !msg.has_field(Field::SystemTraceAuditNumber) {
            return Err(ISO8583Error::MissingRequiredField(11));
        }
        if !msg.has_field(Field::LocalTransactionTime) {
            return Err(ISO8583Error::MissingRequiredField(12));
        }
        if !msg.has_field(Field::LocalTransactionDate) {
            return Err(ISO8583Error::MissingRequiredField(13));
        }
        let mti = msg.mti();
        if mti.is_request() {
            let cls = mti.class;
            if matches!(cls, MessageClass::Financial) || matches!(cls, MessageClass::Authorization)
                {
                if !msg.has_field(Field::PrimaryAccountNumber) {
                    return Err(ISO8583Error::MissingRequiredField(2));
                }
                if !msg.has_field(Field::TransactionAmount) {
                    return Err(ISO8583Error::MissingRequiredField(4));
                }
            }
        }
        if mti.is_response() {
            if !msg.has_field(Field::ResponseCode) {
                return Err(ISO8583Error::MissingRequiredField(39));
            }
        }
        Ok(())
    }

    /// Validate a four-digit month-day date: true exactly for four digits
    /// with month one through twelve and day one through thirty-one.
    pub fn validate_date_mmdd(date: &str) -> (r: bool)
        ensures
            r == spec_date_mmdd_ok(date@),
    {
        let n = date.unicode_len();
        if n != 4 {
            return false;
        }
        let mut ds: Vec<u32> = Vec::new();
        let mut i: usize = 0;
        while i < 4
            invariant
                n == date@.len() == 4,
                0 <= i <= 4,
                ds@.len() == i,
                all_digits(date@.take(i as int)),
                forall|j: int|
                    0 <= j < i ==> #[trigger] ds@[j] == digit_val(date@[j]) && ds@[j] <= 9,
            decreases 4 - i,
        {
            let c = date.get_char(i);
            let u: u32 = c as u32;
            if u < 48 || u > 57 {
                proof {
                    assert(!is_digit(date@[i as int]));
                }
                return false;
            }
            ds.push(u - 48);
            proof {
                assert(date@.take(i + 1) =~= date@.take(i as int).push(date@[i as int]));
            }
            i = i + 1;
        }
        proof {
            assert(date@.take(4) =~= date@);
        }
        let month = ds[0] * 10 + ds[1];
        let day = ds[2] * 10 + ds[3];
        1 <= month && month <= 12 && 1 <= day && day <= 31
    }

    /// Validate a six-digit time: true exactly for six digits with hour
    /// below twenty-four and minute and second below sixty.
    pub fn validate_time_hhmmss(time: &str) -> (r: bool)
        ensures
            r == spec_time_hhmmss_ok(time@),
    {
        let n = time.unicode_len();
        if n != 6 {
            return false;
        }
        let mut ds: Vec<u32> = Vec::new();
        let mut i: usize = 0;
        while i < 6
            invariant
                n == time@.len() == 6,
                0 <= i <= 6,
                ds@.len() == i,
                all_digits(time@.take(i as int)),
                forall|j: int|
                    0 <= j < i ==> #[trigger] ds@[j] == digit_val(time@[j]) && ds@[j] <= 9,
            decreases 6 - i,
        {
            let c = time.get_char(i);
            let u: u32 = c as u32;
            if u < 48 || u > 57 {
                proof {
                    assert(!is_digit(time@[i as int]));
                }
                return false;
            }
            ds.push(u - 48);
            proof {
                assert(time@.take(i + 1) =~= time@.take(i as int).push(time@[i as int]));
            }
            i = i + 1;
        }
        proof {
            assert(time@.take(6) =~= time@);
        }
        let hour = ds[0] * 10 + ds[1];
        let minute = ds[2] * 10 + ds[3];
        let second = ds[4] * 10 + ds[5];
        hour < 24 && minute < 60 && second < 60
    }

    /// Validate a currency code: exactly three decimal digits.
    pub fn validate_currency_code(code: &str) -> (r: bool)
        ensures
            r == (code@.len() == 3 && all_digits(code@)),
    {
        let n = code.unicode_len();
        if n != 3 {
            return false;
        }
        let mut i: usize = 0;
        while i < 3
            invariant
                n == code@.len() == 3,
                0 <= i <= 3,
                all_digits(code@.take(i as int)),
            decreases 3 - i,
        {
            let c = code.get_char(i);
            let u: u32 = c as u32;
            if u < 48 || u > 57 {
                proof {
                    assert(!is_digit(code@[i as int]));
                }
                return false;
            }
            proof {
                assert(code@.take(i + 1) =~= code@.take(i as int).push(code@[i as int]));
            }
            i = i + 1;
        }
        proof {
            assert(code@.take(3) =~= code@);
        }
        true
    }
}

/// A letter or a space.
pub open spec fn is_alpha_or_space(c: char) -> bool {
    ('A' <= c && c <= 'Z') || ('a' <= c && c <= 'z') || c == ' '
}

/// A four-digit month-day date in range.
pub open spec fn spec_date_mmdd_ok(s: Seq<char>) -> bool {
    &&& s.len() == 4
    &&& all_digits(s)
    &&& 1 <= digit_val(s[0]) * 10 + digit_val(s[1]) <= 12
    &&& 1 <= digit_val(s[2]) * 10 + digit_val(s[3]) <= 31
}

/// A six-digit time of day in range.
pub open spec fn spec_time_hhmmss_ok(s: Seq<char>) -> bool {
    &&& s.len() == 6
    &&& all_digits(s)
    &&& digit_val(s[0]) * 10 + digit_val(s[1]) < 24
    &&& digit_val(s[2]) * 10 + digit_val(s[3]) < 60
    &&& digit_val(s[4]) * 10 + digit_val(s[5]) < 60
}

/// The first missing required field of a message, if any: the common set,
/// then account number and amount for authorization and financial requests,
/// then the response code for responses.
pub open spec fn spec_missing_required(v: MessageView) -> Option<u8> {
    if !spec_has_key(v.fields, 3) {
        Some(3u8)
    } else if !spec_has_key(v.fields, 11) {
        Some(11u8)
    } else if !spec_has_key(v.fields, 12) {
        Some(12u8)
    } else if !spec_has_key(v.fields, 13) {
        Some(13u8)
    } else if v.mti.function == MessageFunction::Request && (v.mti.class
        == MessageClass::Authorization || v.mti.class == MessageClass::Financial) && !spec_has_key(
        v.fields,
        2,
    ) {
        Some(2u8)
    } else if v.mti.function == MessageFunction::Request && (v.mti.class
        == MessageClass::Authorization || v.mti.class == MessageClass::Financial) && !spec_has_key(
        v.fields,
        4,
    ) {
        Some(4u8)
    } else if v.mti.function == MessageFunction::Response && !spec_has_key(v.fields, 39) {
        Some(39u8)
    } else {
        None
    }
}

} // verus!
