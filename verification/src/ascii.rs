//! Text model: the bridge between character sequences and wire bytes,
//! string construction from bytes, and decimal digit rendering and parsing,
//! shared by every codec in the crate.

use vstd::prelude::*;
use vstd::string::StrSliceExecFns;
use vstd::string::StringSliceAdditionalSpecFns;

verus! {

/// A decimal digit character.
pub open spec fn is_digit(c: char) -> bool {
    '0' <= c && c <= '9'
}

/// Numeric value of a decimal digit character.
pub open spec fn digit_val(c: char) -> int {
    c as u32 - 48
}

/// A byte that is the ASCII code of a decimal digit.
pub open spec fn is_digit_byte(b: u8) -> bool {
    48 <= b && b <= 57
}

/// Every character of the sequence is a decimal digit.
pub open spec fn all_digits(s: Seq<char>) -> bool {
    forall|i: int| 0 <= i < s.len() ==> is_digit(#[trigger] s[i])
}

/// Every byte of the sequence is an ASCII byte.
pub open spec fn all_ascii_bytes(b: Seq<u8>) -> bool {
    forall|i: int| 0 <= i < b.len() ==> #[trigger] b[i] < 128
}

/// The digit character for a value between zero and nine.
pub open spec fn char_of_digit(d: int) -> char {
    ((48 + d) as u32) as char
}

/// The characters an ASCII byte sequence spells.
pub open spec fn chars_of_bytes(b: Seq<u8>) -> Seq<char> {
    b.map_values(|x: u8| x as char)
}

/// The bytes an ASCII character sequence occupies on the wire.
pub open spec fn bytes_of_chars(s: Seq<char>) -> Seq<u8> {
    s.map_values(|c: char| c as u8)
}

/// ASCII bytes decode to characters that spell the same bytes again.
pub proof fn lemma_ascii_bytes_chars_round_trip(b: Seq<u8>)
    requires
        all_ascii_bytes(b),
    ensures
        vstd::utf8::is_ascii_chars(chars_of_bytes(b)),
        bytes_of_chars(chars_of_bytes(b)) =~= b,
{
    assert forall|i: int| 0 <= i < b.len() implies '\0' <= #[trigger] chars_of_bytes(b)[i]
        <= '\u{7f}' by {
        assert(chars_of_bytes(b)[i] == b[i] as char);
    }
}

#[verifier::external_type_specification]
#[verifier::external_body]
pub struct ExFromUtf8Error(std::string::FromUtf8Error);

/// Relies on `String::from_utf8`: it succeeds exactly on valid UTF-8 input
/// and returns the text whose encoding is that input.
#[verifier::external_body]
pub(crate) fn string_from_utf8(bytes: Vec<u8>) -> (r: Result<String, std::string::FromUtf8Error>)
    ensures
        r is Ok <==> vstd::utf8::valid_utf8(bytes@),
        r is Ok ==> vstd::utf8::encode_utf8(r->Ok_0@) == bytes@,
{
    String::from_utf8(bytes)
}

/// The text of a run of ASCII bytes: one character per byte, each character
/// the byte's code point.
pub(crate) fn string_from_ascii(bytes: Vec<u8>) -> (r: String)
    requires
        all_ascii_bytes(bytes@),
    ensures
        r@ == chars_of_bytes(bytes@),
{
    let ghost bs = bytes@;
    let ghost cs = chars_of_bytes(bs);
    proof {
        lemma_ascii_bytes_chars_round_trip(bs);
        vstd::utf8::is_ascii_chars_encode_utf8(cs);
        assert(vstd::utf8::encode_utf8(cs) =~= bs);
        vstd::utf8::encode_utf8_valid_utf8(cs);
    }
    match string_from_utf8(bytes) {
        Ok(s) => {
            proof {
                vstd::utf8::encode_utf8_decode_utf8(s@);
                vstd::utf8::encode_utf8_decode_utf8(cs);
                assert(s@ == cs);
            }
            s
        },
        Err(_) => {
            proof {
                assert(false);
            }
            String::new()
        },
    }
}

/// The UTF-8 bytes of a string slice, as an owned vector.
pub(crate) fn bytes_of_str(s: &str) -> (r: Vec<u8>)
    ensures
        r@ == s.spec_bytes(),
{
    s.as_bytes_vec()
}

/// Decimal digit bytes of a natural number, most significant first.
pub open spec fn dec_digits(n: nat) -> Seq<u8>
    decreases n,
{
    if n < 10 {
        seq![(48 + n) as u8]
    } else {
        dec_digits(n / 10).push((48 + n % 10) as u8)
    }
}

/// Decimal digit bytes of `n`, left-padded with ASCII zeros to at least
/// width `w`; wider than `w` when `n` does not fit.
pub open spec fn dec_min_width(n: nat, w: nat) -> Seq<u8> {
    if dec_digits(n).len() >= w {
        dec_digits(n)
    } else {
        Seq::new((w - dec_digits(n).len()) as nat, |i: int| 48u8) + dec_digits(n)
    }
}

pub proof fn lemma_dec_digits_are_digits(n: nat)
    ensures
        1 <= dec_digits(n).len(),
        forall|i: int| 0 <= i < dec_digits(n).len() ==> is_digit_byte(#[trigger] dec_digits(n)[i]),
        n < 10 ==> dec_digits(n).len() == 1,
        n < 100 ==> dec_digits(n).len() <= 2,
        n < 1000 ==> dec_digits(n).len() <= 3,
    decreases n,
{
    if n >= 10 {
        lemma_dec_digits_are_digits(n / 10);
    }
}

/// Powers of ten.
pub open spec fn pow10(k: nat) -> nat
    decreases k,
{
    if k == 0 {
        1
    } else {
        10 * pow10((k - 1) as nat)
    }
}

/// A number below the `k`-th power of ten has at most `k` decimal digits.
pub proof fn lemma_dec_digits_len_le(n: nat, k: nat)
    requires
        1 <= k,
        n < pow10(k),
    ensures
        dec_digits(n).len() <= k,
    decreases k,
{
    if n >= 10 {
        assert(n as int / 10 < pow10((k - 1) as nat)) by {
            vstd::arithmetic::div_mod::lemma_multiply_divide_lt(
                n as int,
                10,
                pow10((k - 1) as nat) as int,
            );
        }
        lemma_dec_digits_len_le(n / 10, (k - 1) as nat);
    }
}

/// Every `u64` has at most twenty decimal digits.
pub proof fn lemma_dec_digits_len_u64(n: u64)
    ensures
        dec_digits(n as nat).len() <= 20,
{
    assert(pow10(20) == 100000000000000000000) by {
        reveal_with_fuel(pow10, 21);
    }
    lemma_dec_digits_len_le(n as nat, 20);
}

/// The numeric value a sequence of decimal digit characters denotes.
pub open spec fn dec_val(s: Seq<char>) -> nat
    decreases s.len(),
{
    if s.len() == 0 {
        0
    } else {
        (dec_val(s.drop_last()) * 10 + (if is_digit(s.last()) {
            digit_val(s.last())
        } else {
            0
        })) as nat
    }
}


/// A digit string of length `n` denotes less than the `n`-th power of ten.
pub proof fn lemma_dec_val_bound(s: Seq<char>)
    ensures
        dec_val(s) < pow10(s.len()),
    decreases s.len(),
{
    if s.len() > 0 {
        lemma_dec_val_bound(s.drop_last());
    }
}

/// Powers of ten are monotonic.
pub proof fn lemma_pow10_le(a: nat, b: nat)
    requires
        a <= b,
    ensures
        pow10(a) <= pow10(b),
    decreases b,
{
    if a < b {
        lemma_pow10_le(a, (b - 1) as nat);
        assert(pow10((b - 1) as nat) >= 1) by {
            lemma_pow10_pos((b - 1) as nat);
        }
    }
}

pub proof fn lemma_pow10_pos(k: nat)
    ensures
        pow10(k) >= 1,
    decreases k,
{
    if k > 0 {
        lemma_pow10_pos((k - 1) as nat);
    }
}

/// A digit prefix never denotes more than the whole digit string.
pub proof fn lemma_dec_val_prefix(s: Seq<char>, j: int)
    requires
        0 <= j <= s.len(),
    ensures
        dec_val(s.take(j)) <= dec_val(s),
    decreases s.len() - j,
{
    if j < s.len() {
        lemma_dec_val_prefix(s, j + 1);
        assert(s.take(j + 1).drop_last() =~= s.take(j));
        assert(dec_val(s.take(j)) <= dec_val(s.take(j + 1)));
    } else {
        assert(s.take(j) =~= s);
    }
}

/// Render `n` in decimal, zero-padded on the left to at least `width` bytes.
pub(crate) fn dec_bytes_min_width(n: u64, width: usize) -> (r: Vec<u8>)
    ensures
        r@ == dec_min_width(n as nat, width as nat),
{
    proof {
        lemma_dec_digits_are_digits(n as nat);
        lemma_dec_digits_len_u64(n);
    }
    let mut m: u64 = n;
    let mut cnt: usize = 1;
    while m >= 10
        invariant
            dec_digits(n as nat).len() == dec_digits(m as nat).len() + cnt - 1,
            1 <= cnt <= dec_digits(n as nat).len() <= 20,
        decreases m,
    {
        m = m / 10;
        cnt = cnt + 1;
        proof {
            lemma_dec_digits_are_digits(m as nat);
        }
    }
    assert(dec_digits(m as nat).len() == 1);
    assert(dec_digits(n as nat).len() == cnt);
    let size: usize = if cnt >= width {
        cnt
    } else {
        width
    };
    let mut buf: Vec<u8> = Vec::new();
    let mut k: usize = 0;
    while k < size
        invariant
            buf@ =~= Seq::new(k as nat, |i: int| 48u8),
            k <= size,
        decreases size - k,
    {
        buf.push(48u8);
        k = k + 1;
    }
    let mut i: usize = size;
    let mut v: u64 = n;
    loop
        invariant_except_break
            1 <= i <= size,
            i >= size - cnt + 1,
            dec_digits(n as nat) =~= dec_digits(v as nat) + buf@.subrange(i as int, size as int),
            size - i == dec_digits(n as nat).len() - dec_digits(v as nat).len(),
        invariant
            buf@.len() == size,
            size >= cnt == dec_digits(n as nat).len(),
            forall|j: int| 0 <= j < i ==> buf@[j] == 48u8,
        ensures
            i == size - cnt,
            dec_digits(n as nat) =~= buf@.subrange(i as int, size as int),
        decreases v,
    {
        proof {
            lemma_dec_digits_are_digits(v as nat);
        }
        let d: u8 = (v % 10) as u8;
        let ghost pre = buf@;
        i = i - 1;
        buf.set(i, 48 + d);
        proof {
            assert(buf@.subrange(i as int, size as int) =~= seq![(48 + v as nat % 10) as u8]
                + pre.subrange(i + 1, size as int));
        }
        if v < 10 {
            proof {
                assert(dec_digits(v as nat) =~= seq![(48 + v as nat % 10) as u8]);
                assert(dec_digits(n as nat) =~= buf@.subrange(i as int, size as int));
            }
            break ;
        }
        proof {
            assert(dec_digits(v as nat) =~= dec_digits((v / 10) as nat).push(
                (48 + v as nat % 10) as u8,
            ));
            assert(dec_digits(n as nat) =~= dec_digits((v / 10) as nat) + buf@.subrange(
                i as int,
                size as int,
            ));
        }
        v = v / 10;
    }
    proof {
        if cnt >= width {
            assert(buf@ =~= dec_digits(n as nat));
        } else {
            assert(buf@ =~= Seq::new((width - cnt) as nat, |j: int| 48u8) + dec_digits(n as nat));
        }
    }
    buf
}


/// The decimal digits of a number denote that number.
pub proof fn lemma_dec_val_digits(n: nat)
    ensures
        dec_val(chars_of_bytes(dec_digits(n))) == n,
    decreases n,
{
    lemma_dec_digits_are_digits(n);
    if n < 10 {
        let cs = chars_of_bytes(dec_digits(n));
        assert(cs.len() == 1);
        assert(cs.drop_last() =~= Seq::<char>::empty());
        assert(dec_val(cs.drop_last()) == 0);
        assert(cs.last() == ((48 + n) as u8) as char);
        assert(((48 + n) as u8) as u32 == 48 + n);
        assert(is_digit(cs.last()));
        assert(digit_val(cs.last()) == n);
        assert(dec_val(cs) == dec_val(cs.drop_last()) * 10 + digit_val(cs.last()));
    } else {
        lemma_dec_val_digits(n / 10);
        let cs = chars_of_bytes(dec_digits(n));
        assert(cs.drop_last() =~= chars_of_bytes(dec_digits(n / 10)));
        assert(cs.last() == ((48 + n % 10) as u8) as char);
        assert(((48 + n % 10) as u8) as u32 == 48 + n % 10);
        assert(is_digit(cs.last()));
        assert(digit_val(cs.last()) == n % 10);
        assert(dec_val(cs) == dec_val(cs.drop_last()) * 10 + n % 10);
    }
}

/// Leading zero characters do not change the number a digit string denotes.
pub proof fn lemma_dec_val_zero_prefix(k: nat, s: Seq<char>)
    ensures
        dec_val(Seq::new(k, |i: int| '0') + s) == dec_val(s),
    decreases k + s.len(),
{
    let z = Seq::new(k, |i: int| '0');
    if s.len() > 0 {
        lemma_dec_val_zero_prefix(k, s.drop_last());
        assert((z + s).drop_last() =~= z + s.drop_last());
        assert((z + s).last() == s.last());
    } else if k > 0 {
        lemma_dec_val_zero_prefix((k - 1) as nat, s);
        assert(z + s =~= z);
        assert(z.drop_last() =~= Seq::new((k - 1) as nat, |i: int| '0'));
        assert(Seq::new((k - 1) as nat, |i: int| '0') + s =~= z.drop_last());
        assert(z.last() == '0');
        assert(is_digit('0') && digit_val('0') == 0) by {
            assert('0' as u32 == 48);
        }
        assert(dec_val(z) == dec_val(z.drop_last()) * 10);
    } else {
        assert(z + s =~= s);
    }
}

/// A zero-padded decimal rendering has exactly the requested width, spells
/// only digits, and still denotes the rendered number.
pub proof fn lemma_dec_min_width_val(n: nat, w: nat)
    requires
        dec_digits(n).len() <= w,
    ensures
        dec_min_width(n, w).len() == w,
        forall|i: int| 0 <= i < w ==> is_digit_byte(#[trigger] dec_min_width(n, w)[i]),
        dec_val(chars_of_bytes(dec_min_width(n, w))) == n,
{
    lemma_dec_digits_are_digits(n);
    lemma_dec_val_digits(n);
    let ds = dec_digits(n);
    if ds.len() == w {
        assert(dec_min_width(n, w) =~= ds);
    } else {
        let k = (w - ds.len()) as nat;
        let z = Seq::new(k, |i: int| 48u8);
        assert(dec_min_width(n, w) =~= z + ds);
        assert(chars_of_bytes(z + ds) =~= Seq::new(k, |i: int| '0') + chars_of_bytes(ds)) by {
            assert forall|i: int| 0 <= i < w implies chars_of_bytes(z + ds)[i] == (Seq::new(
                k,
                |j: int| '0',
            ) + chars_of_bytes(ds))[i] by {
                if i < k {
                    assert((z + ds)[i] == 48u8);
                    assert((48u8 as char) as u32 == 48);
                    assert('0' as u32 == 48);
                    vstd::utf8::char_u32_cast('0', 48);
                }
            }
        }
        lemma_dec_val_zero_prefix(k, chars_of_bytes(ds));
    }
}

/// Parse a string of decimal digit characters as an unsigned machine
/// integer; none when the string is empty, holds a non-digit, or denotes a
/// value that does not fit.
pub fn parse_dec_usize(s: &str) -> (r: Option<usize>)
    ensures
        r is Some <==> s@.len() > 0 && all_digits(s@) && dec_val(s@) <= usize::MAX,
        r is Some ==> r->0 == dec_val(s@),
{
    let n = s.unicode_len();
    if n == 0 {
        return None;
    }
    let mut acc: usize = 0;
    let mut j: usize = 0;
    while j < n
        invariant
            n == s@.len(),
            0 <= j <= n,
            all_digits(s@.take(j as int)),
            acc == dec_val(s@.take(j as int)),
        decreases n - j,
    {
        let c = s.get_char(j);
        let u: u32 = c as u32;
        if u < 48 || u > 57 {
            proof {
                assert(!is_digit(s@[j as int]));
            }
            return None;
        }
        let d: usize = (u - 48) as usize;
        let acc10 = match acc.checked_mul(10) {
            Some(v) => v,
            None => {
                proof {
                    assert(s@.take(j + 1).drop_last() =~= s@.take(j as int));
                    assert(dec_val(s@.take(j + 1)) > usize::MAX);
                    lemma_dec_val_prefix(s@, j + 1);
                }
                return None;
            },
        };
        let acc2 = match acc10.checked_add(d) {
            Some(v) => v,
            None => {
                proof {
                    assert(s@.take(j + 1).drop_last() =~= s@.take(j as int));
                    assert(dec_val(s@.take(j + 1)) > usize::MAX);
                    lemma_dec_val_prefix(s@, j + 1);
                }
                return None;
            },
        };
        proof {
            assert(s@.take(j + 1).drop_last() =~= s@.take(j as int));
            assert(s@.take(j + 1).last() == s@[j as int]);
        }
        acc = acc2;
        j = j + 1;
    }
    proof {
        assert(s@.take(n as int) =~= s@);
    }
    Some(acc)
}

/// Decimal rendering of `n` as a string, unpadded.
pub fn dec_string(n: u64) -> (r: String)
    ensures
        r@ == chars_of_bytes(dec_digits(n as nat)),
{
    let bytes = dec_bytes_min_width(n, 0);
    proof {
        lemma_dec_digits_are_digits(n as nat);
    }
    string_from_ascii(bytes)
}

} // verus!
