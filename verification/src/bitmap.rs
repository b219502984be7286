//! Bitmap engine: which of the 192 field numbers are present. Three 8-byte
//! blocks, where bit one announces the secondary block and bit sixty-five the
//! tertiary one, so the serialized form is self-describing.

use vstd::prelude::*;
use vstd::string::StringSliceAdditionalSpecFns;
use crate::ascii::{char_of_digit, chars_of_bytes};
use crate::error::ISO8583Error;

verus! {

/// Bit `k` (zero-based, most significant first) of a byte.
pub open spec fn byte_bit(b: u8, k: int) -> bool {
    (b >> ((7 - k) as u8)) & 1 == 1
}

/// Presence bit of field `f` in a sequence of bitmap bytes, one-indexed and
/// most significant first.
pub open spec fn seq_bit(bytes: Seq<u8>, f: int) -> bool {
    byte_bit(bytes[(f - 1) / 8], (f - 1) % 8)
}

/// An 8-byte block of zeros.
pub open spec fn zeros8() -> Seq<u8> {
    Seq::new(8, |i: int| 0u8)
}

proof fn lemma_u8_bit_or(b: u8, s: u8, t: u8)
    requires
        s < 8,
        t < 8,
    ensures
        ((b | (1u8 << s)) >> t) & 1 == (if s == t {
            1u8
        } else {
            (b >> t) & 1
        }),
{
    assert(s < 8 && t < 8 ==> ((b | (1u8 << s)) >> t) & 1 == (if s == t {
        1u8
    } else {
        (b >> t) & 1
    })) by (bit_vector);
}

proof fn lemma_u8_bit_clear(b: u8, s: u8, t: u8)
    requires
        s < 8,
        t < 8,
    ensures
        ((b & !(1u8 << s)) >> t) & 1 == (if s == t {
            0u8
        } else {
            (b >> t) & 1
        }),
{
    assert(s < 8 && t < 8 ==> ((b & !(1u8 << s)) >> t) & 1 == (if s == t {
        0u8
    } else {
        (b >> t) & 1
    })) by (bit_vector);
}

proof fn lemma_u8_mask_test(b: u8, s: u8)
    requires
        s < 8,
    ensures
        (b & (1u8 << s) != 0) == ((b >> s) & 1 == 1),
{
    assert(s < 8 ==> ((b & (1u8 << s) != 0) == ((b >> s) & 1 == 1))) by (bit_vector);
}

pub(crate) proof fn lemma_u8_all_bits_clear(b: u8)
    requires
        forall|k: int| 0 <= k < 8 ==> !byte_bit(b, k),
    ensures
        b == 0,
{
    assert(!byte_bit(b, 0) && !byte_bit(b, 1) && !byte_bit(b, 2) && !byte_bit(b, 3) && !byte_bit(
        b,
        4,
    ) && !byte_bit(b, 5) && !byte_bit(b, 6) && !byte_bit(b, 7));
    assert(((b >> 7u8) & 1 != 1) && ((b >> 6u8) & 1 != 1) && ((b >> 5u8) & 1 != 1) && ((b >> 4u8)
        & 1 != 1) && ((b >> 3u8) & 1 != 1) && ((b >> 2u8) & 1 != 1) && ((b >> 1u8) & 1 != 1) && ((b
        >> 0u8) & 1 != 1) ==> b == 0) by (bit_vector);
}

pub(crate) proof fn lemma_u8_mask_test_bit0(b: u8)
    ensures
        (b & 128u8 != 0) == byte_bit(b, 0),
{
    lemma_u8_mask_test(b, 7);
    assert(1u8 << 7u8 == 128u8) by (bit_vector);
}

pub(crate) proof fn lemma_zero_byte_bits(k: int)
    requires
        0 <= k < 8,
    ensures
        !byte_bit(0u8, k),
{
    let t = (7 - k) as u8;
    assert(t < 8 ==> (0u8 >> t) & 1 == 0) by (bit_vector);
}

/// Bitmap for up to 192 fields: a primary block and, when announced by the
/// indicator bits, secondary and tertiary blocks.
#[derive(Debug, Clone, PartialEq, Eq)]
pub struct Bitmap {
    blocks: Vec<u8>,
}

impl Bitmap {
    /// The raw bytes of all three blocks.
    pub closed spec fn spec_blocks(self) -> Seq<u8> {
        self.blocks@
    }

    /// The three blocks are always carried in full internally.
    pub open spec fn wf(self) -> bool {
        self.spec_blocks().len() == 24
    }

    /// Whether the presence bit of field `f` is set; false outside the
    /// range one through 192.
    pub open spec fn spec_is_set(self, f: int) -> bool {
        1 <= f <= 192 && seq_bit(self.spec_blocks(), f)
    }

    /// How many bytes the bitmap occupies on the wire: the primary block,
    /// the secondary when bit one is set, the tertiary when bits one and
    /// sixty-five are.
    pub open spec fn spec_wire_len(self) -> int {
        if self.spec_is_set(1) {
            if self.spec_is_set(65) {
                24
            } else {
                16
            }
        } else {
            8
        }
    }

    /// The serialized bitmap bytes.
    pub open spec fn spec_wire(self) -> Seq<u8> {
        self.spec_blocks().take(self.spec_wire_len())
    }

    /// No bit is set for a field the present blocks cannot describe: every
    /// field above sixty-four requires bit one, and every field above 128
    /// requires bit sixty-five.
    pub open spec fn normalized(self) -> bool {
        &&& (!self.spec_is_set(1) ==> forall|f: int| 65 <= f <= 192 ==> !self.spec_is_set(f))
        &&& (!self.spec_is_set(65) ==> forall|f: int| 129 <= f <= 192 ==> !self.spec_is_set(f))
    }

    /// The blocks recovered from serialized bytes: the primary block, then
    /// the secondary if announced and present, then the tertiary if
    /// announced and present; absent blocks read as zero.
    pub open spec fn spec_parse_blocks(bytes: Seq<u8>) -> Seq<u8> {
        let has2 = byte_bit(bytes[0], 0) && bytes.len() >= 16;
        let has3 = has2 && byte_bit(bytes[8], 0) && bytes.len() >= 24;
        bytes.take(8) + (if has2 {
            bytes.subrange(8, 16)
        } else {
            zeros8()
        }) + (if has3 {
            bytes.subrange(16, 24)
        } else {
            zeros8()
        })
    }

    /// Create an empty bitmap.
    pub fn new() -> (r: Self)
        ensures
            r.wf(),
            r.normalized(),
            forall|f: int| !r.spec_is_set(f),
            r.spec_blocks() =~= zeros8() + zeros8() + zeros8(),
    {
        let mut blocks: Vec<u8> = Vec::new();
        let mut i: usize = 0;
        while i < 24
            invariant
                blocks@ =~= Seq::new(i as nat, |j: int| 0u8),
                i <= 24,
            decreases 24 - i,
        {
            blocks.push(0u8);
            i = i + 1;
        }
        let r = Bitmap { blocks };
        proof {
            assert forall|f: int| !r.spec_is_set(f) by {
                if 1 <= f <= 192 {
                    lemma_zero_byte_bits((f - 1) % 8);
                }
            }
        }
        r
    }

    /// Turn on the presence bit of one field, touching nothing else.
    fn set_bit(&mut self, f: u8)
        requires
            old(self).wf(),
            1 <= f <= 192,
        ensures
            final(self).wf(),
            forall|g: int|
                final(self).spec_is_set(g) == (old(self).spec_is_set(g) || g == f),
    {
        let idx: usize = ((f - 1) / 8) as usize;
        let sh: u8 = 7 - ((f - 1) % 8);
        let b = self.blocks[idx];
        let nb = b | (1u8 << sh);
        self.blocks.set(idx, nb);
        proof {
            assert forall|g: int|
                final(self).spec_is_set(g) == (old(self).spec_is_set(g) || g == f) by {
                if 1 <= g <= 192 {
                    let gi = (g - 1) / 8;
                    let gk = (g - 1) % 8;
                    if gi == idx {
                        lemma_u8_bit_or(b, sh, (7 - gk) as u8);
                        assert(g == f <==> (gi == (f - 1) / 8 && gk == (f - 1) % 8));
                    }
                }
            }
        }
    }

    /// Turn off the presence bit of one field, touching nothing else.
    fn clear_bit(&mut self, f: u8)
        requires
            old(self).wf(),
            1 <= f <= 192,
        ensures
            final(self).wf(),
            forall|g: int|
                final(self).spec_is_set(g) == (old(self).spec_is_set(g) && g != f),
    {
        let idx: usize = ((f - 1) / 8) as usize;
        let sh: u8 = 7 - ((f - 1) % 8);
        let b = self.blocks[idx];
        let nb = b & !(1u8 << sh);
        self.blocks.set(idx, nb);
        proof {
            assert forall|g: int|
                final(self).spec_is_set(g) == (old(self).spec_is_set(g) && g != f) by {
                if 1 <= g <= 192 {
                    let gi = (g - 1) / 8;
                    let gk = (g - 1) % 8;
                    if gi == idx {
                        lemma_u8_bit_clear(b, sh, (7 - gk) as u8);
                        assert(g == f <==> (gi == (f - 1) / 8 && gk == (f - 1) % 8));
                    }
                }
            }
        }
    }

    /// Mark a field present. Fails, mutating nothing, when the field number
    /// is zero or above 192. Setting a field above sixty-four also sets bit
    /// one, and setting one above 128 also sets bits one and sixty-five, so
    /// the cascade of indicator bits always stays consistent.
    pub fn set(&mut self, field: u8) -> (r: Result<(), ISO8583Error>)
        requires
            old(self).wf(),
        ensures
            final(self).wf(),
            r is Ok <==> 1 <= field <= 192,
            r is Err ==> r->Err_0 == ISO8583Error::InvalidFieldNumber(field) && *final(self) == *old(self),
            r is Ok ==> forall|g: int|
                final(self).spec_is_set(g) == (old(self).spec_is_set(g) || g == field || (65
                    <= field <= 128 && g == 1) || (128 < field && (g == 1 || g == 65))),
            r is Ok && old(self).normalized() ==> final(self).normalized(),
    {
        if field == 0 || field > 192 {
            return Err(ISO8583Error::InvalidFieldNumber(field));
        }
        self.set_bit(field);
        if 65 <= field && field <= 128 {
            self.set_bit(1);
        }
        if field > 128 {
            self.set_bit(1);
            self.set_bit(65);
        }
        Ok(())
    }

    /// Mark a field absent. Fails, mutating nothing, when the field number
    /// is zero or above 192. Indicator bits set by an earlier cascade are
    /// left alone.
    pub fn clear(&mut self, field: u8) -> (r: Result<(), ISO8583Error>)
        requires
            old(self).wf(),
        ensures
            final(self).wf(),
            r is Ok <==> 1 <= field <= 192,
            r is Err ==> r->Err_0 == ISO8583Error::InvalidFieldNumber(field) && *final(self) == *old(self),
            r is Ok ==> forall|g: int|
                final(self).spec_is_set(g) == (old(self).spec_is_set(g) && g != field),
            r is Ok && old(self).normalized() && field != 1 && field != 65 ==> final(self).normalized(),
    {
        if field == 0 || field > 192 {
            return Err(ISO8583Error::InvalidFieldNumber(field));
        }
        self.clear_bit(field);
        Ok(())
    }

    /// Whether a field is present; false, never an error, outside the range
    /// one through 192.
    pub fn is_set(&self, field: u8) -> (r: bool)
        requires
            self.wf(),
        ensures
            r == self.spec_is_set(field as int),
    {
        if field == 0 || field > 192 {
            return false;
        }
        let idx: usize = ((field - 1) / 8) as usize;
        let sh: u8 = 7 - ((field - 1) % 8);
        let r = self.blocks[idx] & (1u8 << sh) != 0;
        proof {
            lemma_u8_mask_test(self.blocks@[idx as int], sh);
        }
        r
    }

    /// Whether no field at all is present.
    pub fn is_empty(&self) -> (r: bool)
        requires
            self.wf(),
        ensures
            r == (forall|f: int| 1 <= f <= 192 ==> !self.spec_is_set(f)),
    {
        let mut i: usize = 0;
        while i < 24
            invariant
                self.wf(),
                0 <= i <= 24,
                forall|j: int| 0 <= j < i ==> self.blocks@[j] == 0,
            decreases 24 - i,
        {
            if self.blocks[i] != 0 {
                proof {
                    let b = self.blocks@[i as int];
                    assert(exists|k: int| 0 <= k < 8 && byte_bit(b, k)) by {
                        if !byte_bit(b, 0) && !byte_bit(b, 1) && !byte_bit(b, 2) && !byte_bit(b, 3)
                            && !byte_bit(b, 4) && !byte_bit(b, 5) && !byte_bit(b, 6) && !byte_bit(
                            b,
                            7,
                        ) {
                            lemma_u8_all_bits_clear(b);
                        }
                    }
                    let k = choose|k: int| 0 <= k < 8 && byte_bit(b, k);
                    let f = 8 * i + k + 1;
                    assert(self.spec_is_set(f));
                }
                return false;
            }
            i = i + 1;
        }
        proof {
            assert forall|f: int| 1 <= f <= 192 implies !self.spec_is_set(f) by {
                lemma_zero_byte_bits((f - 1) % 8);
            }
        }
        true
    }

    /// Whether the secondary block is announced (bit one).
    pub fn has_secondary_bitmap(&self) -> (r: bool)
        requires
            self.wf(),
        ensures
            r == self.spec_is_set(1),
    {
        self.is_set(1)
    }

    /// Whether the tertiary block is announced (bit sixty-five).
    pub fn has_tertiary_bitmap(&self) -> (r: bool)
        requires
            self.wf(),
        ensures
            r == self.spec_is_set(65),
    {
        self.is_set(65)
    }

    /// How many blocks the bitmap spans.
    pub fn bitmap_count(&self) -> (r: usize)
        requires
            self.wf(),
        ensures
            r == (if self.spec_is_set(65) {
                3int
            } else if self.spec_is_set(1) {
                2int
            } else {
                1int
            }),
    {
        if self.has_tertiary_bitmap() {
            3
        } else if self.has_secondary_bitmap() {
            2
        } else {
            1
        }
    }

    /// The present data fields, in ascending order. The indicator numbers
    /// one and sixty-five are filtered out: they announce blocks and never
    /// carry data.
    pub fn get_set_fields(&self) -> (r: Vec<u8>)
        requires
            self.wf(),
        ensures
            forall|i: int|
                0 <= i < r@.len() ==> 2 <= #[trigger] r@[i] <= 192 && r@[i] != 65
                    && self.spec_is_set(r@[i] as int),
            forall|i: int, j: int| 0 <= i < j < r@.len() ==> r@[i] < r@[j],
            forall|g: u8|
                2 <= g <= 192 && g != 65 && self.spec_is_set(g as int) ==> r@.contains(g),
    {
        let mut out: Vec<u8> = Vec::new();
        let mut f: u8 = 2;
        while f <= 192
            invariant
                self.wf(),
                2 <= f <= 193,
                forall|i: int|
                    0 <= i < out@.len() ==> 2 <= #[trigger] out@[i] < f && out@[i] != 65
                        && self.spec_is_set(out@[i] as int),
                forall|i: int, j: int| 0 <= i < j < out@.len() ==> out@[i] < out@[j],
                forall|g: u8|
                    2 <= g < f && g != 65 && self.spec_is_set(g as int) ==> out@.contains(g),
            decreases 193 - f,
        {
            if f != 65 && self.is_set(f) {
                let ghost pre = out@;
                out.push(f);
                proof {
                    assert forall|g: u8|
                        2 <= g < f + 1 && g != 65 && self.spec_is_set(g as int) implies
                        out@.contains(g) by {
                        if g < f {
                            assert(pre.contains(g));
                            let i = choose|i: int| 0 <= i < pre.len() && pre[i] == g;
                            assert(out@[i] == g);
                        } else {
                            assert(out@[out@.len() - 1] == g);
                        }
                    }
                }
            }
            f = f + 1;
        }
        out
    }

    /// The primary block alone, as eight bytes.
    pub fn to_primary_bytes(&self) -> (r: Vec<u8>)
        requires
            self.wf(),
        ensures
            r@ == self.spec_blocks().take(8),
    {
        let mut out: Vec<u8> = Vec::new();
        let mut i: usize = 0;
        while i < 8
            invariant
                self.wf(),
                0 <= i <= 8,
                out@ =~= self.spec_blocks().take(i as int),
            decreases 8 - i,
        {
            out.push(self.blocks[i]);
            proof {
                assert(self.spec_blocks().take(i + 1) =~= self.spec_blocks().take(i as int).push(
                    self.spec_blocks()[i as int],
                ));
            }
            i = i + 1;
        }
        out
    }

    /// Serialize the bitmap: eight, sixteen, or twenty-four bytes, decided
    /// by the indicator bits.
    pub fn to_bytes(&self) -> (r: Vec<u8>)
        requires
            self.wf(),
        ensures
            r@ == self.spec_wire(),
            r@.len() == self.spec_wire_len(),
    {
        let n: usize = if self.has_secondary_bitmap() {
            if self.has_tertiary_bitmap() {
                24
            } else {
                16
            }
        } else {
            8
        };
        let mut out: Vec<u8> = Vec::new();
        let mut i: usize = 0;
        while i < n
            invariant
                self.wf(),
                n <= 24,
                0 <= i <= n,
                out@ =~= self.spec_blocks().take(i as int),
            decreases n - i,
        {
            out.push(self.blocks[i]);
            proof {
                assert(self.spec_blocks().take(i + 1) =~= self.spec_blocks().take(i as int).push(
                    self.spec_blocks()[i as int],
                ));
            }
            i = i + 1;
        }
        out
    }

    /// The serialized size in bytes.
    pub fn size_in_bytes(&self) -> (r: usize)
        requires
            self.wf(),
        ensures
            r == self.spec_wire_len(),
    {
        if self.has_secondary_bitmap() {
            if self.has_tertiary_bitmap() {
                24
            } else {
                16
            }
        } else {
            8
        }
    }

    /// Parse a bitmap from serialized bytes; fails exactly when fewer than
    /// eight bytes are given. The primary block's bit one decides whether a
    /// secondary block is read, and the secondary's bit sixty-five whether
    /// a tertiary one is.
    pub fn from_bytes(bytes: &[u8]) -> (r: Result<Self, ISO8583Error>)
        ensures
            r is Ok <==> bytes@.len() >= 8,
            r is Ok ==> r->Ok_0.wf() && r->Ok_0.spec_blocks() == Self::spec_parse_blocks(bytes@),
            r is Err ==> r->Err_0 matches ISO8583Error::InvalidBitmap(_),
    {
        if bytes.len() < 8 {
            proof {
                reveal_strlit("Bitmap must be at least 8 bytes");
            }
            return Err(
                ISO8583Error::InvalidBitmap(String::from_str("Bitmap must be at least 8 bytes")),
            );
        }
        let mut blocks: Vec<u8> = Vec::new();
        let mut i: usize = 0;
        while i < 8
            invariant
                bytes@.len() >= 8,
                0 <= i <= 8,
                blocks@ =~= bytes@.take(i as int),
            decreases 8 - i,
        {
            blocks.push(bytes[i]);
            proof {
                assert(bytes@.take(i + 1) =~= bytes@.take(i as int).push(bytes@[i as int]));
            }
            i = i + 1;
        }
        let has2 = (bytes[0] & 128u8) != 0;
        proof {
            lemma_u8_mask_test(bytes@[0], 7);
            assert(1u8 << 7u8 == 128u8) by (bit_vector);
            assert(has2 == byte_bit(bytes@[0], 0));
        }
        if has2 && bytes.len() >= 16 {
            let mut i: usize = 8;
            while i < 16
                invariant
                    bytes@.len() >= 16,
                    8 <= i <= 16,
                    blocks@ =~= bytes@.take(i as int),
                decreases 16 - i,
            {
                blocks.push(bytes[i]);
                proof {
                    assert(bytes@.take(i + 1) =~= bytes@.take(i as int).push(bytes@[i as int]));
                }
                i = i + 1;
            }
            let has3 = (bytes[8] & 128u8) != 0;
            proof {
                lemma_u8_mask_test(bytes@[8], 7);
                assert(1u8 << 7u8 == 128u8) by (bit_vector);
                assert(has3 == byte_bit(bytes@[8], 0));
            }
            if has3 && bytes.len() >= 24 {
                let mut i: usize = 16;
                while i < 24
                    invariant
                        bytes@.len() >= 24,
                        16 <= i <= 24,
                        blocks@ =~= bytes@.take(i as int),
                    decreases 24 - i,
                {
                    blocks.push(bytes[i]);
                    proof {
                        assert(bytes@.take(i + 1) =~= bytes@.take(i as int).push(
                            bytes@[i as int],
                        ));
                    }
                    i = i + 1;
                }
            } else {
                let mut i: usize = 0;
                while i < 8
                    invariant
                        0 <= i <= 8,
                        blocks@ =~= bytes@.take(16) + Seq::new(i as nat, |j: int| 0u8),
                    decreases 8 - i,
                {
                    blocks.push(0u8);
                    i = i + 1;
                }
            }
        } else {
            let mut i: usize = 0;
            while i < 16
                invariant
                    0 <= i <= 16,
                    blocks@ =~= bytes@.take(8) + Seq::new(i as nat, |j: int| 0u8),
                decreases 16 - i,
            {
                blocks.push(0u8);
                i = i + 1;
            }
        }
        let r = Bitmap { blocks };
        proof {
            assert(r.spec_blocks() =~= Self::spec_parse_blocks(bytes@));
        }
        Ok(r)
    }

    /// Serialize the bitmap as lowercase hex text.
    pub fn to_hex(&self) -> (r: String)
        requires
            self.wf(),
        ensures
            r@ == hex_chars(self.spec_wire()),
    {
        let bytes = self.to_bytes();
        hex_encode(&bytes)
    }

    /// Parse a bitmap from hex text; fails exactly when the text is not
    /// even-length hex or decodes to fewer than eight bytes.
    pub fn from_hex(hex_str: &str) -> (r: Result<Self, ISO8583Error>)
        ensures
            r is Ok <==> hex_decode_ok(hex_str.spec_bytes()) && spec_hex_decode(
                hex_str.spec_bytes(),
            ).len() >= 8,
            r is Ok ==> r->Ok_0.wf() && r->Ok_0.spec_blocks() == Self::spec_parse_blocks(
                spec_hex_decode(hex_str.spec_bytes()),
            ),
            r is Err ==> r->Err_0 matches ISO8583Error::InvalidBitmap(_),
    {
        match hex_decode(hex_str) {
            Ok(bytes) => Self::from_bytes(bytes.as_slice()),
            Err(_) => {
                proof {
                    reveal_strlit("Invalid hex string");
                }
                Err(ISO8583Error::InvalidBitmap(String::from_str("Invalid hex string")))
            },
        }
    }
}

impl Default for Bitmap {
    /// An empty bitmap.
    fn default() -> (r: Self)
        ensures
            r.wf(),
            forall|f: int| !r.spec_is_set(f),
    {
        Bitmap::new()
    }
}

/// The lowercase hex digit character for a value below sixteen.
pub open spec fn hex_digit_char(v: int) -> char {
    if v < 10 {
        char_of_digit(v)
    } else {
        ((87 + v) as u32) as char
    }
}

/// The lowercase hex spelling of a byte sequence, two digits per byte, high
/// nibble first.
pub open spec fn hex_chars(b: Seq<u8>) -> Seq<char> {
    Seq::new(
        2 * b.len(),
        |i: int|
            if i % 2 == 0 {
                hex_digit_char((b[i / 2] as int) / 16)
            } else {
                hex_digit_char((b[i / 2] as int) % 16)
            },
    )
}

/// An ASCII byte that is a hex digit, either case.
pub open spec fn is_hex_digit_byte(b: u8) -> bool {
    (48 <= b <= 57) || (97 <= b <= 102) || (65 <= b <= 70)
}

/// The value of a hex digit byte.
pub open spec fn hex_val(b: u8) -> int {
    if 48 <= b <= 57 {
        b - 48
    } else if 97 <= b <= 102 {
        b - 87
    } else {
        b - 55
    }
}

/// Hex text is decodable when it has even length and only hex digits.
pub open spec fn hex_decode_ok(bytes: Seq<u8>) -> bool {
    bytes.len() % 2 == 0 && forall|i: int| 0 <= i < bytes.len() ==> is_hex_digit_byte(
        #[trigger] bytes[i],
    )
}

/// The bytes decodable hex text denotes.
pub open spec fn spec_hex_decode(bytes: Seq<u8>) -> Seq<u8> {
    Seq::new(bytes.len() / 2, |i: int| (hex_val(bytes[2 * i]) * 16 + hex_val(bytes[2 * i + 1])) as u8)
}

/// Relies on `hex::encode`: every byte becomes exactly two lowercase hex
/// digits, high nibble first, from the table of digits zero through nine and
/// letters a through f.
#[verifier::external_body]
pub(crate) fn hex_encode(bytes: &Vec<u8>) -> (r: String)
    ensures
        r@ == hex_chars(bytes@),
{
    hex::encode(bytes.as_slice())
}

#[verifier::external_type_specification]
#[verifier::external_body]
pub struct ExFromHexError(hex::FromHexError);

/// Relies on `hex::decode`: succeeds exactly on even-length strings of hex
/// digits of either case, pairing the digits high nibble first; fails with
/// an odd-length or invalid-character error otherwise.
#[verifier::external_body]
pub(crate) fn hex_decode(s: &str) -> (r: Result<Vec<u8>, hex::FromHexError>)
    ensures
        r is Ok <==> hex_decode_ok(s.spec_bytes()),
        r is Ok ==> r->Ok_0@ == spec_hex_decode(s.spec_bytes()),
{
    hex::decode(s)
}

/// Bitmap serialization round-trips: a normalized bitmap parsed back from
/// its own wire bytes has exactly the same blocks.
pub proof fn lemma_bitmap_wire_round_trip(bm: Bitmap)
    requires
        bm.wf(),
        bm.normalized(),
    ensures
        Bitmap::spec_parse_blocks(bm.spec_wire()) =~= bm.spec_blocks(),
{
    let w = bm.spec_wire();
    assert(w[0] == bm.spec_blocks()[0]);
    if bm.spec_is_set(1) {
        assert(byte_bit(w[0], 0));
        assert(w[8] == bm.spec_blocks()[8]);
        if bm.spec_is_set(65) {
            assert(byte_bit(w[8], 0));
            assert(w.len() == 24);
            assert(Bitmap::spec_parse_blocks(w) =~= bm.spec_blocks());
        } else {
            assert(w.len() == 16);
            assert forall|i: int| 16 <= i < 24 implies bm.spec_blocks()[i] == 0 by {
                let b = bm.spec_blocks()[i];
                assert forall|k: int| 0 <= k < 8 implies !byte_bit(b, k) by {
                    let f = 8 * i + k + 1;
                    assert(129 <= f <= 192);
                    assert(!bm.spec_is_set(f));
                    assert((f - 1) / 8 == i && (f - 1) % 8 == k);
                }
                lemma_u8_all_bits_clear(b);
            }
            assert(Bitmap::spec_parse_blocks(w) =~= bm.spec_blocks());
        }
    } else {
        assert(!byte_bit(w[0], 0));
        assert(w.len() == 8);
        assert forall|i: int| 8 <= i < 24 implies bm.spec_blocks()[i] == 0 by {
            let b = bm.spec_blocks()[i];
            assert forall|k: int| 0 <= k < 8 implies !byte_bit(b, k) by {
                let f = 8 * i + k + 1;
                assert(65 <= f <= 192);
                assert(!bm.spec_is_set(f));
                assert((f - 1) / 8 == i && (f - 1) % 8 == k);
            }
            lemma_u8_all_bits_clear(b);
        }
        assert(Bitmap::spec_parse_blocks(w) =~= bm.spec_blocks());
    }
}

/// The bitmap cascade: after setting field `f`, that field reads as set;
/// setting any field above sixty-four also sets the secondary indicator,
/// and any field above 128 also sets both indicators.
pub proof fn lemma_bitmap_cascade(bm: Bitmap, after: Bitmap, f: u8)
    requires
        bm.wf(),
        1 <= f <= 192,
        forall|g: int|
            after.spec_is_set(g) == (bm.spec_is_set(g) || g == f || (65 <= f <= 128 && g == 1) || (
            128 < f && (g == 1 || g == 65))),
    ensures
        after.spec_is_set(f as int),
        65 <= f <= 128 ==> after.spec_is_set(1),
        128 < f ==> after.spec_is_set(1) && after.spec_is_set(65),
{
}

} // verus!
