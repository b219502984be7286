//! Message codec: the typed message, its serializer and parser, and the
//! builder. A message owns its field values and a bitmap that is kept
//! consistent with them at every step.

use vstd::prelude::*;
use vstd::string::StrSliceExecFns;
use vstd::string::StringSliceAdditionalSpecFns;
use crate::ascii::{
    bytes_of_str, chars_of_bytes, dec_bytes_min_width, dec_min_width, dec_val, is_digit_byte,
    lemma_dec_digits_are_digits,
};
use crate::bitmap::{byte_bit, seq_bit, zeros8, Bitmap};
use crate::error::ISO8583Error;
use crate::field::{Field, FieldValue, ValueView, spec_field_number};
use crate::iso_spec::{iso1987_field, spec_iso1987_field, DataType, FieldDefinition, LengthType};
use crate::mti::MessageType;

verus! {

/// The abstract content of a message: its type indicator, its fields in
/// ascending field-number order, and its bitmap blocks.
pub struct MessageView {
    /// Message type indicator
    pub mti: MessageType,
    /// Present fields with their values, ascending by field number
    pub fields: Seq<(u8, ValueView)>,
    /// The twenty-four bitmap bytes
    pub bitmap: Seq<u8>,
}

/// Field numbers that may carry data: two through 128, except the tertiary
/// bitmap indicator.
pub open spec fn data_field_num(k: u8) -> bool {
    2 <= k <= 128 && k != 65
}

/// Keys strictly ascending.
pub open spec fn keys_sorted(fs: Seq<(u8, ValueView)>) -> bool {
    forall|i: int, j: int| 0 <= i < j < fs.len() ==> (#[trigger] fs[i]).0 < (#[trigger] fs[j]).0
}

/// Whether a field number occurs among the fields.
pub open spec fn spec_has_key(fs: Seq<(u8, ValueView)>, k: u8) -> bool {
    exists|i: int| 0 <= i < fs.len() && (#[trigger] fs[i]).0 == k
}

/// The value stored under a field number.
pub open spec fn spec_lookup(fs: Seq<(u8, ValueView)>, k: u8) -> ValueView
    decreases fs.len(),
{
    if fs.len() == 0 {
        ValueView::Bin(Seq::empty())
    } else if fs[0].0 == k {
        fs[0].1
    } else {
        spec_lookup(fs.drop_first(), k)
    }
}

/// The fields with one key bound to a value: an existing binding is
/// replaced, a new one inserted in ascending position.
pub open spec fn spec_insert(fs: Seq<(u8, ValueView)>, k: u8, v: ValueView) -> Seq<
    (u8, ValueView),
>
    decreases fs.len(),
{
    if fs.len() == 0 {
        seq![(k, v)]
    } else if fs[0].0 < k {
        seq![fs[0]] + spec_insert(fs.drop_first(), k, v)
    } else if fs[0].0 == k {
        seq![(k, v)] + fs.drop_first()
    } else {
        seq![(k, v)] + fs
    }
}

/// The fields without one key.
pub open spec fn spec_remove(fs: Seq<(u8, ValueView)>, k: u8) -> Seq<(u8, ValueView)>
    decreases fs.len(),
{
    if fs.len() == 0 {
        fs
    } else if fs[0].0 == k {
        fs.drop_first()
    } else {
        seq![fs[0]] + spec_remove(fs.drop_first(), k)
    }
}

/// The bytes a field value occupies, before any padding: a text value's
/// UTF-8 bytes, a binary value's bytes.
pub open spec fn spec_value_bytes(v: ValueView) -> Seq<u8> {
    match v {
        ValueView::Text(s) => vstd::utf8::encode_utf8(s),
        ValueView::Bin(b) => b,
    }
}

/// A fixed-length field's wire bytes: the value padded or truncated to the
/// exact length. Short numeric text is padded with leading zeros, other
/// text with trailing spaces, and binary data with trailing zero bytes.
pub open spec fn spec_padded_fixed(v: ValueView, dt: DataType, n: int) -> Seq<u8> {
    let b = spec_value_bytes(v);
    if b.len() == n {
        b
    } else if b.len() > n {
        b.take(n)
    } else {
        match v {
            ValueView::Text(_) => {
                if dt == DataType::Numeric {
                    Seq::new((n - b.len()) as nat, |i: int| 48u8) + b
                } else {
                    b + Seq::new((n - b.len()) as nat, |i: int| 32u8)
                }
            },
            ValueView::Bin(_) => b + Seq::new((n - b.len()) as nat, |i: int| 0u8),
        }
    }
}

/// One field's wire bytes under its table definition: the padded value for
/// a fixed field, or a two- or three-digit decimal length prefix followed
/// by the raw value.
pub open spec fn spec_field_wire(k: u8, v: ValueView) -> Seq<u8> {
    match spec_iso1987_field(k) {
        None => Seq::empty(),
        Some(d) => match d.length_type {
            LengthType::Fixed => spec_padded_fixed(v, d.data_type, d.max_len as int),
            LengthType::Llvar => dec_min_width(spec_value_bytes(v).len(), 2) + spec_value_bytes(
                v,
            ),
            LengthType::Lllvar => dec_min_width(spec_value_bytes(v).len(), 3) + spec_value_bytes(
                v,
            ),
        },
    }
}

/// The wire bytes of a run of fields, in order.
pub open spec fn spec_fields_wire(fs: Seq<(u8, ValueView)>) -> Seq<u8>
    decreases fs.len(),
{
    if fs.len() == 0 {
        Seq::empty()
    } else {
        spec_field_wire(fs[0].0, fs[0].1) + spec_fields_wire(fs.drop_first())
    }
}

/// How many bytes of bitmap a block sequence puts on the wire.
pub open spec fn spec_bitmap_wire_len(bm: Seq<u8>) -> int {
    if seq_bit(bm, 1) {
        if seq_bit(bm, 65) {
            24
        } else {
            16
        }
    } else {
        8
    }
}

/// The whole message on the wire: MTI digits, bitmap blocks, field data.
pub open spec fn spec_message_wire(v: MessageView) -> Seq<u8> {
    v.mti.spec_wire() + v.bitmap.take(spec_bitmap_wire_len(v.bitmap)) + spec_fields_wire(v.fields)
}

/// The value and end offset a single field parses to at an offset, or none
/// when it is malformed there: a missing table definition, a short buffer,
/// a bad length prefix, a length above the field's maximum, or bytes that
/// are not valid text in a text-typed field.
pub open spec fn spec_parse_field_at(bytes: Seq<u8>, off: int, k: u8) -> Option<(ValueView, int)> {
    match spec_iso1987_field(k) {
        None => None,
        Some(d) => match d.length_type {
            LengthType::Fixed => spec_parse_raw(bytes, off, d.max_len as int, d.data_type),
            LengthType::Llvar => spec_parse_var(bytes, off, 2, d),
            LengthType::Lllvar => spec_parse_var(bytes, off, 3, d),
        },
    }
}

/// A fixed run of value bytes at an offset: binary fields keep the raw
/// bytes, all other types require valid text.
pub open spec fn spec_parse_raw(bytes: Seq<u8>, off: int, n: int, dt: DataType) -> Option<
    (ValueView, int),
> {
    if off + n > bytes.len() {
        None
    } else {
        let raw = bytes.subrange(off, off + n);
        if dt == DataType::Binary {
            Some((ValueView::Bin(raw), off + n))
        } else if vstd::utf8::valid_utf8(raw) {
            Some((ValueView::Text(vstd::utf8::decode_utf8(raw)), off + n))
        } else {
            None
        }
    }
}

/// A variable-length field at an offset: a `w`-digit decimal length prefix,
/// checked against the definition's maximum and the remaining buffer, then
/// that many value bytes.
pub open spec fn spec_parse_var(bytes: Seq<u8>, off: int, w: int, d: FieldDefinition) -> Option<
    (ValueView, int),
> {
    if off + w > bytes.len() {
        None
    } else {
        let pre = bytes.subrange(off, off + w);
        if !(forall|i: int| 0 <= i < w ==> is_digit_byte(#[trigger] pre[i])) {
            None
        } else {
            let declared = dec_val(chars_of_bytes(pre)) as int;
            if declared > d.max_len {
                None
            } else {
                spec_parse_raw(bytes, off + w, declared, d.data_type)
            }
        }
    }
}

/// The fields recovered from the buffer: every field number from `f`
/// upward whose presence bit is set, in ascending order, each parsed where
/// the previous one ended. The indicator numbers one and sixty-five carry
/// no data and are skipped.
pub open spec fn spec_parse_fields(bytes: Seq<u8>, off: int, f: int, bm: Seq<u8>) -> Option<
    (Seq<(u8, ValueView)>, int),
>
    decreases 193 - f,
{
    if f < 1 || f > 192 {
        Some((Seq::empty(), off))
    } else if f == 1 || f == 65 || !seq_bit(bm, f) {
        spec_parse_fields(bytes, off, f + 1, bm)
    } else {
        match spec_parse_field_at(bytes, off, f as u8) {
            None => None,
            Some((v, end)) => match spec_parse_fields(bytes, end, f + 1, bm) {
                None => None,
                Some((rest, e2)) => Some((seq![(f as u8, v)] + rest, e2)),
            },
        }
    }
}

/// The bitmap blocks and data offset of a buffer, or none when a block the
/// primary announces is missing: the secondary block must follow when bit
/// one is set, and the tertiary when bit sixty-five then is.
pub open spec fn spec_parse_bitmap(bytes: Seq<u8>) -> Option<(Seq<u8>, int)> {
    if !byte_bit(bytes[4], 0) {
        Some((bytes.subrange(4, 12) + zeros8() + zeros8(), 12))
    } else if bytes.len() < 20 {
        None
    } else if !byte_bit(bytes[12], 0) {
        Some((bytes.subrange(4, 20) + zeros8(), 20))
    } else if bytes.len() < 28 {
        None
    } else {
        Some((bytes.subrange(4, 28), 28))
    }
}

/// The message a buffer parses to, or none when it is malformed: too short
/// for MTI and primary bitmap, a non-digit MTI, a missing announced bitmap
/// block, or any malformed field. Bytes after the last announced field are
/// ignored.
pub open spec fn spec_parse_message(bytes: Seq<u8>) -> Option<MessageView> {
    if bytes.len() < 12 {
        None
    } else {
        match MessageType::spec_parse(chars_of_bytes(bytes.take(4))) {
            None => None,
            Some(mti) => match spec_parse_bitmap(bytes) {
                None => None,
                Some((bm, off)) => match spec_parse_fields(bytes, off, 2, bm) {
                    None => None,
                    Some((fs, _end)) => Some(MessageView { mti, fields: fs, bitmap: bm }),
                },
            },
        }
    }
}

/// An ISO 8583 message: type indicator, field values, and a bitmap kept
/// consistent with them.
#[derive(Debug, Clone, PartialEq)]
pub struct ISO8583Message {
    /// Message Type Indicator
    pub mti: MessageType,
    fields: Vec<(u8, FieldValue)>,
    bitmap: Bitmap,
}

impl View for ISO8583Message {
    type V = MessageView;

    closed spec fn view(&self) -> MessageView {
        MessageView {
            mti: self.mti,
            fields: Seq::new(self.fields@.len(), |i: int| (self.fields@[i].0, self.fields@[i].1@)),
            bitmap: self.bitmap.spec_blocks(),
        }
    }
}

/// A message view is well formed when its MTI is, its keys are data field
/// numbers in ascending order, its bitmap carries all three blocks with no
/// bit outside the defined fields, the indicator bits cascade, and a data
/// field's bit is set exactly when the field is present.
pub open spec fn view_wf(v: MessageView) -> bool {
    &&& v.mti.wf()
    &&& v.bitmap.len() == 24
    &&& keys_sorted(v.fields)
    &&& forall|i: int| 0 <= i < v.fields.len() ==> data_field_num((#[trigger] v.fields[i]).0)
    &&& forall|k: u8| data_field_num(k) ==> (seq_bit(v.bitmap, k as int) <==> spec_has_key(
        v.fields,
        k,
    ))
    &&& forall|f: int| 129 <= f <= 192 ==> !seq_bit(v.bitmap, f)
    &&& (!seq_bit(v.bitmap, 1) ==> forall|f: int| 65 <= f <= 192 ==> !seq_bit(v.bitmap, f))
    &&& (!seq_bit(v.bitmap, 65) ==> forall|f: int| 129 <= f <= 192 ==> !seq_bit(v.bitmap, f))
}

/// A message's values fit their definitions exactly, so that serializing
/// performs no padding, truncation, or prefix overflow: fixed fields have
/// exactly their defined length, variable ones at most their maximum, and
/// each value's variant matches the field's data type.
pub open spec fn value_faithful(k: u8, val: ValueView) -> bool {
    match spec_iso1987_field(k) {
        None => false,
        Some(d) => {
            &&& (val is Bin <==> d.data_type == DataType::Binary)
            &&& match d.length_type {
                LengthType::Fixed => spec_value_bytes(val).len() == d.max_len,
                LengthType::Llvar => spec_value_bytes(val).len() <= d.max_len,
                LengthType::Lllvar => spec_value_bytes(val).len() <= d.max_len,
            }
        },
    }
}

pub open spec fn wire_faithful(v: MessageView) -> bool {
    forall|i: int|
        0 <= i < v.fields.len() ==> value_faithful(
            (#[trigger] v.fields[i]).0,
            v.fields[i].1,
        )
}

impl ISO8583Message {
    /// Structural well-formedness; every constructor establishes it and
    /// every method preserves it.
    pub open spec fn wf(self) -> bool {
        view_wf(self@)
    }

    /// Create an empty message with the given MTI.
    pub fn new(mti: MessageType) -> (r: Self)
        ensures
            r@.mti == mti,
            r@.fields =~= Seq::<(u8, ValueView)>::empty(),
            r@.bitmap =~= zeros8() + zeros8() + zeros8(),
            mti.wf() ==> r.wf(),
    {
        let bitmap = Bitmap::new();
        let r = ISO8583Message { mti, fields: Vec::new(), bitmap };
        proof {
            if mti.wf() {
                assert forall|f: int| 129 <= f <= 192 implies !seq_bit(r@.bitmap, f) by {
                    assert(!r.bitmap.spec_is_set(f));
                }
                assert forall|k: u8| data_field_num(k) implies !seq_bit(r@.bitmap, k as int) by {
                    assert(!r.bitmap.spec_is_set(k as int));
                }
                assert(!seq_bit(r@.bitmap, 1)) by {
                    assert(!r.bitmap.spec_is_set(1));
                }
                assert forall|f: int| 65 <= f <= 192 implies !seq_bit(r@.bitmap, f) by {
                    assert(!r.bitmap.spec_is_set(f));
                }
            }
        }
        r
    }

    /// The value of a field, when present.
    pub fn get_field(&self, field: Field) -> (r: Option<&FieldValue>)
        ensures
            r is Some <==> spec_has_key(self@.fields, spec_field_number(field)),
            r matches Some(v) ==> v@ == spec_lookup(self@.fields, spec_field_number(field)),
    {
        let num = field.number();
        proof {
            assert(self@.fields.skip(0) =~= self@.fields);
        }
        let mut i: usize = 0;
        while i < self.fields.len()
            invariant
                0 <= i <= self.fields@.len(),
                num == spec_field_number(field),
                forall|j: int| 0 <= j < i ==> (#[trigger] self@.fields[j]).0 != num,
                spec_lookup(self@.fields, num) == spec_lookup(
                    self@.fields.skip(i as int),
                    num,
                ),
            decreases self.fields@.len() - i,
        {
            if self.fields[i].0 == num {
                proof {
                    assert(self@.fields.skip(i as int)[0] == self@.fields[i as int]);
                    assert(spec_lookup(self@.fields.skip(i as int), num)
                        == self@.fields[i as int].1);
                }
                return Some(&self.fields[i].1);
            }
            proof {
                assert(self@.fields.skip(i as int).drop_first() =~= self@.fields.skip(i + 1));
            }
            i = i + 1;
        }
        proof {
            if spec_has_key(self@.fields, num) {
                let j = choose|j: int|
                    0 <= j < self@.fields.len() && (#[trigger] self@.fields[j]).0 == num;
                assert(false);
            }
        }
        None
    }

    /// Whether a field is present.
    pub fn has_field(&self, field: Field) -> (r: bool)
        ensures
            r == spec_has_key(self@.fields, spec_field_number(field)),
    {
        let num = field.number();
        let mut i: usize = 0;
        while i < self.fields.len()
            invariant
                0 <= i <= self.fields@.len(),
                num == spec_field_number(field),
                forall|j: int| 0 <= j < i ==> (#[trigger] self@.fields[j]).0 != num,
            decreases self.fields@.len() - i,
        {
            if self.fields[i].0 == num {
                proof {
                    assert(self@.fields[i as int].0 == num);
                }
                return true;
            }
            i = i + 1;
        }
        proof {
            if spec_has_key(self@.fields, num) {
                let j = choose|j: int|
                    0 <= j < self@.fields.len() && (#[trigger] self@.fields[j]).0 == num;
                assert(false);
            }
        }
        false
    }

    /// The present field numbers, ascending.
    pub fn get_field_numbers(&self) -> (r: Vec<u8>)
        ensures
            r@ =~= self@.fields.map_values(|t: (u8, ValueView)| t.0),
    {
        let mut out: Vec<u8> = Vec::new();
        let mut i: usize = 0;
        while i < self.fields.len()
            invariant
                0 <= i <= self.fields@.len(),
                out@ =~= self@.fields.take(i as int).map_values(|t: (u8, ValueView)| t.0),
            decreases self.fields@.len() - i,
        {
            out.push(self.fields[i].0);
            proof {
                assert(self@.fields.take(i + 1) =~= self@.fields.take(i as int).push(
                    self@.fields[i as int],
                ));
            }
            i = i + 1;
        }
        proof {
            assert(self@.fields.take(self@.fields.len() as int) =~= self@.fields);
        }
        out
    }

    /// The message type indicator.
    pub fn mti(&self) -> (r: MessageType)
        ensures
            r == self@.mti,
    {
        self.mti
    }

    /// The bitmap.
    pub fn bitmap(&self) -> (r: &Bitmap)
        ensures
            r.spec_blocks() == self@.bitmap,
    {
        &self.bitmap
    }

    /// Store a value for a field, updating the bitmap in the same step.
    /// The indicator numbers one and sixty-five never carry data, so they
    /// are rejected; any other field is accepted.
    pub fn set_field(&mut self, field: Field, value: FieldValue) -> (r: Result<
        (),
        ISO8583Error,
    >)
        requires
            old(self).wf(),
        ensures
            final(self).wf(),
            r is Ok <==> data_field_num(spec_field_number(field)),
            r is Err ==> r->Err_0 == ISO8583Error::InvalidFieldNumber(spec_field_number(field))
                && *final(self) == *old(self),
            r is Ok ==> {
                let k = spec_field_number(field);
                &&& final(self)@.mti == old(self)@.mti
                &&& final(self)@.fields =~= spec_insert(old(self)@.fields, k, value@)
                &&& forall|g: int|
                    1 <= g <= 192 ==> (#[trigger] seq_bit(final(self)@.bitmap, g) <==> (seq_bit(
                        old(self)@.bitmap,
                        g,
                    ) || g == k || (65 <= k <= 128 && g == 1)))
            },
    {
        let num = field.number();
        if num == 1 || num == 65 {
            return Err(ISO8583Error::InvalidFieldNumber(num));
        }
        let ghost pre = *self;
        let res = self.bitmap.set(num);
        proof {
            assert(res is Ok);
        }
        self.insert_sorted(num, value);
        proof {
            let v = self@;
            assert forall|g: int|
                1 <= g <= 192 implies (#[trigger] seq_bit(v.bitmap, g) <==> (seq_bit(
                pre@.bitmap,
                g,
            ) || g == num || (65 <= num <= 128 && g == 1))) by {
                assert(self.bitmap.spec_is_set(g) == (pre.bitmap.spec_is_set(g) || g == num || (65
                    <= num <= 128 && g == 1)));
            }
            if !seq_bit(v.bitmap, 1) {
                assert forall|f: int| 65 <= f <= 192 implies !seq_bit(v.bitmap, f) by {
                    assert(!seq_bit(pre@.bitmap, 1));
                    assert(!(65 <= num <= 128));
                    assert(num <= 128 && num != 65);
                    assert(!seq_bit(pre@.bitmap, f));
                }
            }
            if !seq_bit(v.bitmap, 65) {
                assert forall|f: int| 129 <= f <= 192 implies !seq_bit(v.bitmap, f) by {
                    assert(!seq_bit(pre@.bitmap, 65));
                    assert(!seq_bit(pre@.bitmap, f));
                }
            }
            assert forall|k2: u8| data_field_num(k2) implies (seq_bit(v.bitmap, k2 as int)
                <==> spec_has_key(v.fields, k2)) by {
                assert(self.bitmap.spec_is_set(k2 as int) == seq_bit(v.bitmap, k2 as int));
                lemma_insert_has_key(pre@.fields, num, value@, k2);
            }
            assert forall|f: int| 129 <= f <= 192 implies !seq_bit(v.bitmap, f) by {
                assert(!self.bitmap.spec_is_set(f));
            }
            lemma_insert_sorted(pre@.fields, num, value@);
            lemma_insert_head_keys(pre@.fields, num, value@);
            assert forall|i: int| 0 <= i < v.fields.len() implies data_field_num(
                (#[trigger] v.fields[i]).0,
            ) by {
                if v.fields[i].0 != num {
                    let j = choose|j: int|
                        0 <= j < pre@.fields.len() && (#[trigger] pre@.fields[j]).0
                            == v.fields[i].0;
                }
            }
        }
        Ok(())
    }

    /// Remove a field, updating the bitmap in the same step. The indicator
    /// numbers one and sixty-five are rejected; indicator bits set by an
    /// earlier cascade stay set.
    pub fn remove_field(&mut self, field: Field) -> (r: Result<(), ISO8583Error>)
        requires
            old(self).wf(),
        ensures
            final(self).wf(),
            r is Ok <==> data_field_num(spec_field_number(field)),
            r is Err ==> r->Err_0 == ISO8583Error::InvalidFieldNumber(spec_field_number(field))
                && *final(self) == *old(self),
            r is Ok ==> {
                let k = spec_field_number(field);
                &&& final(self)@.mti == old(self)@.mti
                &&& final(self)@.fields =~= spec_remove(old(self)@.fields, k)
                &&& forall|g: int|
                    1 <= g <= 192 ==> (#[trigger] seq_bit(final(self)@.bitmap, g) <==> (seq_bit(
                        old(self)@.bitmap,
                        g,
                    ) && g != k))
            },
    {
        let num = field.number();
        if num == 1 || num == 65 {
            return Err(ISO8583Error::InvalidFieldNumber(num));
        }
        let ghost pre = *self;
        let res = self.bitmap.clear(num);
        proof {
            assert(res is Ok);
        }
        self.remove_key(num);
        proof {
            let v = self@;
            assert forall|g: int|
                1 <= g <= 192 implies (#[trigger] seq_bit(v.bitmap, g) <==> (seq_bit(
                pre@.bitmap,
                g,
            ) && g != num)) by {
                assert(self.bitmap.spec_is_set(g) == (pre.bitmap.spec_is_set(g) && g != num));
            }
            if !seq_bit(v.bitmap, 1) {
                assert forall|f: int| 65 <= f <= 192 implies !seq_bit(v.bitmap, f) by {
                    if seq_bit(pre@.bitmap, 1) {
                        assert(num == 1);
                        assert(false);
                    }
                    assert(!seq_bit(pre@.bitmap, f));
                }
            }
            if !seq_bit(v.bitmap, 65) {
                assert forall|f: int| 129 <= f <= 192 implies !seq_bit(v.bitmap, f) by {
                    if seq_bit(pre@.bitmap, 65) {
                        assert(num == 65);
                        assert(false);
                    }
                    assert(!seq_bit(pre@.bitmap, f));
                }
            }
            assert forall|k2: u8| data_field_num(k2) implies (seq_bit(v.bitmap, k2 as int)
                <==> spec_has_key(v.fields, k2)) by {
                assert(self.bitmap.spec_is_set(k2 as int) == seq_bit(v.bitmap, k2 as int));
                lemma_remove_has_key(pre@.fields, num, k2);
            }
            lemma_remove_sorted(pre@.fields, num);
            assert forall|i: int| 0 <= i < v.fields.len() implies data_field_num(
                (#[trigger] v.fields[i]).0,
            ) by {
                assert(spec_has_key(pre@.fields, v.fields[i].0));
                let j = choose|j: int|
                    0 <= j < pre@.fields.len() && (#[trigger] pre@.fields[j]).0 == v.fields[i].0;
            }
        }
        Ok(())
    }

    /// Insert a binding in its sorted position, replacing any previous one.
    fn insert_sorted(&mut self, num: u8, value: FieldValue)
        requires
            keys_sorted(old(self)@.fields),
        ensures
            final(self)@.fields =~= spec_insert(old(self)@.fields, num, value@),
            final(self).mti == old(self).mti,
            final(self).bitmap == old(self).bitmap,
    {
        let mut i: usize = 0;
        while i < self.fields.len() && self.fields[i].0 < num
            invariant
                keys_sorted(self@.fields),
                0 <= i <= self.fields@.len(),
                forall|j: int| 0 <= j < i ==> (#[trigger] self@.fields[j]).0 < num,
                self.fields@ == old(self).fields@,
                self.mti == old(self).mti,
                self.bitmap == old(self).bitmap,
            decreases self.fields@.len() - i,
        {
            i = i + 1;
        }
        let ghost pre = self@.fields;
        if i < self.fields.len() && self.fields[i].0 == num {
            self.fields.set(i, (num, value));
            proof {
                lemma_insert_at(pre, num, value@, i as int);
            }
        } else {
            proof {
                if i < self.fields@.len() {
                    assert(pre[i as int].0 >= num);
                }
            }
            self.fields.insert(i, (num, value));
            proof {
                lemma_insert_at(pre, num, value@, i as int);
            }
        }
    }

    /// Remove the binding of one key, if present.
    fn remove_key(&mut self, num: u8)
        requires
            keys_sorted(old(self)@.fields),
        ensures
            final(self)@.fields =~= spec_remove(old(self)@.fields, num),
            final(self).mti == old(self).mti,
            final(self).bitmap == old(self).bitmap,
    {
        let mut i: usize = 0;
        while i < self.fields.len() && self.fields[i].0 < num
            invariant
                keys_sorted(self@.fields),
                0 <= i <= self.fields@.len(),
                forall|j: int| 0 <= j < i ==> (#[trigger] self@.fields[j]).0 < num,
                self.fields@ == old(self).fields@,
                self.mti == old(self).mti,
                self.bitmap == old(self).bitmap,
            decreases self.fields@.len() - i,
        {
            i = i + 1;
        }
        let ghost pre = self@.fields;
        if i < self.fields.len() && self.fields[i].0 == num {
            self.fields.remove(i);
            proof {
                lemma_remove_at(pre, num, i as int);
            }
        } else {
            proof {
                lemma_remove_absent(pre, num, i as int);
            }
        }
    }
}


/// Appending a field extends the run's wire bytes at the end.
proof fn lemma_fields_wire_push(fs: Seq<(u8, ValueView)>, x: (u8, ValueView))
    ensures
        spec_fields_wire(fs.push(x)) =~= spec_fields_wire(fs) + spec_field_wire(x.0, x.1),
    decreases fs.len(),
{
    let e = fs.push(x);
    assert(e.len() > 0);
    assert(spec_fields_wire(e) == spec_field_wire(e[0].0, e[0].1) + spec_fields_wire(
        e.drop_first(),
    ));
    if fs.len() == 0 {
        assert(e[0] == x);
        assert(e.drop_first() =~= Seq::<(u8, ValueView)>::empty());
        assert(spec_fields_wire(e.drop_first()) =~= Seq::<u8>::empty());
        assert(spec_fields_wire(fs) =~= Seq::<u8>::empty());
    } else {
        lemma_fields_wire_push(fs.drop_first(), x);
        assert(e.drop_first() =~= fs.drop_first().push(x));
        assert(e[0] == fs[0]);
        assert(spec_fields_wire(fs) == spec_field_wire(fs[0].0, fs[0].1) + spec_fields_wire(
            fs.drop_first(),
        ));
    }
}

/// Serialize one field under its table definition.
fn generate_field(k: u8, value: &FieldValue) -> (r: Vec<u8>)
    requires
        spec_iso1987_field(k) is Some,
    ensures
        r@ == spec_field_wire(k, value@),
{
    let d = iso1987_field(k).unwrap();
    let mut vbytes: Vec<u8> = match value {
        FieldValue::String(s) => bytes_of_str(s.as_str()),
        FieldValue::Binary(b) => vstd::slice::slice_to_vec(b.as_slice()),
    };
    proof {
        assert(vbytes@ == spec_value_bytes(value@));
    }
    match d.length_type {
        LengthType::Fixed => {
            let n = d.max_len as usize;
            if vbytes.len() == n {
                vbytes
            } else if vbytes.len() > n {
                vbytes.truncate(n);
                proof {
                    assert(vbytes@ =~= spec_field_wire(k, value@));
                }
                vbytes
            } else {
                let pad = n - vbytes.len();
                let numeric_text = match value {
                    FieldValue::String(_) => matches!(d.data_type, DataType::Numeric),
                    FieldValue::Binary(_) => false,
                };
                if numeric_text {
                    let mut out: Vec<u8> = Vec::new();
                    let mut i: usize = 0;
                    while i < pad
                        invariant
                            0 <= i <= pad,
                            out@ =~= Seq::new(i as nat, |j: int| 48u8),
                        decreases pad - i,
                    {
                        out.push(48u8);
                        i = i + 1;
                    }
                    out.append(&mut vbytes);
                    proof {
                        assert(out@ =~= spec_field_wire(k, value@));
                    }
                    out
                } else {
                    let fill: u8 = match value {
                        FieldValue::String(_) => 32u8,
                        FieldValue::Binary(_) => 0u8,
                    };
                    let ghost base = vbytes@;
                    let mut i: usize = 0;
                    while i < pad
                        invariant
                            0 <= i <= pad,
                            vbytes@ =~= base + Seq::new(i as nat, |j: int| fill),
                        decreases pad - i,
                    {
                        vbytes.push(fill);
                        i = i + 1;
                    }
                    proof {
                        assert(vbytes@ =~= spec_field_wire(k, value@));
                    }
                    vbytes
                }
            }
        },
        LengthType::Llvar => {
            let mut out = dec_bytes_min_width(vbytes.len() as u64, 2);
            out.append(&mut vbytes);
            proof {
                assert(out@ =~= spec_field_wire(k, value@));
            }
            out
        },
        LengthType::Lllvar => {
            let mut out = dec_bytes_min_width(vbytes.len() as u64, 3);
            out.append(&mut vbytes);
            proof {
                assert(out@ =~= spec_field_wire(k, value@));
            }
            out
        },
    }
}

impl ISO8583Message {
    /// Serialize the message: MTI digits, bitmap blocks, then each present
    /// field in ascending field-number order. Total for every well-formed
    /// message; short values are padded and long ones truncated per the
    /// field's definition.
    pub fn to_bytes(&self) -> (r: Vec<u8>)
        requires
            self.wf(),
        ensures
            r@ == spec_message_wire(self@),
    {
        let mut out = self.mti.to_bytes();
        let mut bm = self.bitmap.to_bytes();
        out.append(&mut bm);
        proof {
            assert(self.bitmap.spec_wire() =~= self@.bitmap.take(
                spec_bitmap_wire_len(self@.bitmap),
            ));
        }
        let ghost head = self@.mti.spec_wire() + self@.bitmap.take(
            spec_bitmap_wire_len(self@.bitmap),
        );
        let mut i: usize = 0;
        while i < self.fields.len()
            invariant
                self.wf(),
                head == self@.mti.spec_wire() + self@.bitmap.take(
                    spec_bitmap_wire_len(self@.bitmap),
                ),
                0 <= i <= self.fields@.len(),
                out@ =~= head + spec_fields_wire(self@.fields.take(i as int)),
            decreases self.fields@.len() - i,
        {
            let k = self.fields[i].0;
            proof {
                assert(data_field_num(self@.fields[i as int].0));
                assert(spec_iso1987_field(k) is Some);
            }
            let mut fw = generate_field(k, &self.fields[i].1);
            out.append(&mut fw);
            proof {
                lemma_fields_wire_push(
                    self@.fields.take(i as int),
                    self@.fields[i as int],
                );
                assert(self@.fields.take(i + 1) =~= self@.fields.take(i as int).push(
                    self@.fields[i as int],
                ));
            }
            i = i + 1;
        }
        proof {
            assert(self@.fields.take(self@.fields.len() as int) =~= self@.fields);
        }
        out
    }
}


/// Joining already-parsed fields with the outcome of parsing the rest.
pub open spec fn compose_parse(acc: Seq<(u8, ValueView)>, rest: Option<(Seq<(u8, ValueView)>, int)>)
    -> Option<(Seq<(u8, ValueView)>, int)> {
    match rest {
        None => None,
        Some((fs, e)) => Some((acc + fs, e)),
    }
}

/// What a successful single-field parse guarantees: the value fits the
/// field's definition exactly and the end offset stays inside the buffer.
proof fn lemma_parse_field_props(bytes: Seq<u8>, off: int, k: u8)
    requires
        0 <= off <= bytes.len(),
        spec_parse_field_at(bytes, off, k) is Some,
    ensures
        ({
            let (v, end) = spec_parse_field_at(bytes, off, k)->Some_0;
            let d = spec_iso1987_field(k)->Some_0;
            &&& spec_iso1987_field(k) is Some
            &&& off <= end <= bytes.len()
            &&& (v is Bin <==> d.data_type == DataType::Binary)
            &&& match d.length_type {
                LengthType::Fixed => spec_value_bytes(v).len() == d.max_len,
                LengthType::Llvar => spec_value_bytes(v).len() <= d.max_len,
                LengthType::Lllvar => spec_value_bytes(v).len() <= d.max_len,
            }
        }),
{
    let d = spec_iso1987_field(k)->Some_0;
    let (v, end) = spec_parse_field_at(bytes, off, k)->Some_0;
    match d.length_type {
        LengthType::Fixed => {
            lemma_parse_raw_props(bytes, off, d.max_len as int, d.data_type);
        },
        LengthType::Llvar => {
            let pre = bytes.subrange(off, off + 2);
            let declared = dec_val(chars_of_bytes(pre)) as int;
            lemma_parse_raw_props(bytes, off + 2, declared, d.data_type);
        },
        LengthType::Lllvar => {
            let pre = bytes.subrange(off, off + 3);
            let declared = dec_val(chars_of_bytes(pre)) as int;
            lemma_parse_raw_props(bytes, off + 3, declared, d.data_type);
        },
    }
}

proof fn lemma_parse_raw_props(bytes: Seq<u8>, off: int, n: int, dt: DataType)
    requires
        0 <= off <= bytes.len(),
        0 <= n,
        spec_parse_raw(bytes, off, n, dt) is Some,
    ensures
        ({
            let (v, end) = spec_parse_raw(bytes, off, n, dt)->Some_0;
            &&& end == off + n <= bytes.len()
            &&& spec_value_bytes(v).len() == n
            &&& (v is Bin <==> dt == DataType::Binary)
        }),
{
    let raw = bytes.subrange(off, off + n);
    if dt != DataType::Binary {
        vstd::utf8::decode_utf8_encode_utf8(raw);
        assert(spec_value_bytes(ValueView::Text(vstd::utf8::decode_utf8(raw))) == raw);
    }
}

/// Parse one field at an offset per its definition. Fails with an error
/// naming the field when the field has no definition, the buffer is short,
/// a length prefix is not decimal or exceeds the definition's maximum, or a
/// text-typed field holds bytes that are not valid text.
fn parse_field_at(bytes: &[u8], off: usize, k: u8) -> (r: Result<(FieldValue, usize), ISO8583Error>)
    requires
        off <= bytes@.len(),
    ensures
        r is Ok <==> spec_parse_field_at(bytes@, off as int, k) is Some,
        r is Ok ==> {
            let (v, end) = spec_parse_field_at(bytes@, off as int, k)->Some_0;
            r->Ok_0.0@ == v && r->Ok_0.1 == end
        },
        r is Err && spec_iso1987_field(k) is None ==> r->Err_0 == ISO8583Error::InvalidFieldNumber(
            k,
        ),
        r is Err ==> (r->Err_0 == ISO8583Error::InvalidFieldNumber(k) || (r->Err_0 matches
            ISO8583Error::MessageTooShort { .. }) || (r->Err_0 matches
            ISO8583Error::InvalidFieldValue { field, .. } && field == k) || (r->Err_0 matches
            ISO8583Error::FieldLengthMismatch { field, .. } && field == k)),
{
    let d = match iso1987_field(k) {
        Some(d) => d,
        None => {
            return Err(ISO8583Error::InvalidFieldNumber(k));
        },
    };
    match d.length_type {
        LengthType::Fixed => {
            let n = d.max_len as usize;
            parse_raw(bytes, off, n, d.data_type, k)
        },
        LengthType::Llvar => parse_var(bytes, off, 2, d, k),
        LengthType::Lllvar => parse_var(bytes, off, 3, d, k),
    }
}

/// Read a fixed run of value bytes. A short buffer fails with a length
/// mismatch naming the field; bytes that are not valid text in a text-typed
/// field fail with an invalid-value error naming the field.
fn parse_raw(bytes: &[u8], off: usize, n: usize, dt: DataType, k: u8) -> (r: Result<
    (FieldValue, usize),
    ISO8583Error,
>)
    requires
        off <= bytes@.len(),
    ensures
        r is Ok <==> spec_parse_raw(bytes@, off as int, n as int, dt) is Some,
        r is Ok ==> {
            let (v, end) = spec_parse_raw(bytes@, off as int, n as int, dt)->Some_0;
            r->Ok_0.0@ == v && r->Ok_0.1 == end
        },
        r is Err && off + n > bytes@.len() ==> (r->Err_0 matches
            ISO8583Error::FieldLengthMismatch { field, expected, actual } && field == k
            && expected == n && actual == bytes@.len() - off),
        r is Err && off + n <= bytes@.len() ==> (r->Err_0 matches
            ISO8583Error::InvalidFieldValue { field, .. } && field == k),
{
    let blen = bytes.len();
    if n > blen - off {
        return Err(ISO8583Error::field_length_mismatch(k, n, blen - off));
    }
    let end = off + n;
    let mut raw: Vec<u8> = Vec::new();
    let mut i: usize = off;
    while i < end
        invariant
            blen == bytes@.len(),
            end == off + n <= blen,
            off <= i <= end,
            raw@ =~= bytes@.subrange(off as int, i as int),
        decreases end - i,
    {
        raw.push(bytes[i]);
        proof {
            assert(bytes@.subrange(off as int, i + 1) =~= bytes@.subrange(
                off as int,
                i as int,
            ).push(bytes@[i as int]));
        }
        i = i + 1;
    }
    let is_binary = match dt {
        DataType::Binary => true,
        _ => false,
    };
    if is_binary {
        return Ok((FieldValue::Binary(raw), end));
    }
    proof {
        assert(dt != DataType::Binary);
    }
    let ghost rawseq = raw@;
    match crate::ascii::string_from_utf8(raw) {
        Ok(s) => {
            proof {
                vstd::utf8::decode_utf8_encode_utf8(rawseq);
                vstd::utf8::encode_utf8_decode_utf8(s@);
                vstd::utf8::encode_utf8_decode_utf8(vstd::utf8::decode_utf8(rawseq));
                assert(s@ == vstd::utf8::decode_utf8(rawseq));
            }
            Ok((FieldValue::String(s), end))
        },
        Err(_) => {
            proof {
                reveal_strlit("Field holds bytes that are not text");
            }
            Err(ISO8583Error::invalid_field_value(k, "Field holds bytes that are not text"))
        },
    }
}

/// Read a decimal length prefix of `w` digits, then that many value bytes.
/// A short or non-decimal prefix, a declared length above the definition's
/// maximum, or a short value body each fail with their own error naming the
/// field.
fn parse_var(bytes: &[u8], off: usize, w: usize, d: FieldDefinition, k: u8) -> (r: Result<
    (FieldValue, usize),
    ISO8583Error,
>)
    requires
        off <= bytes@.len(),
        w == 2 || w == 3,
    ensures
        r is Ok <==> spec_parse_var(bytes@, off as int, w as int, d) is Some,
        r is Ok ==> {
            let (v, end) = spec_parse_var(bytes@, off as int, w as int, d)->Some_0;
            r->Ok_0.0@ == v && r->Ok_0.1 == end
        },
        r is Err && off + w > bytes@.len() ==> (r->Err_0 matches ISO8583Error::MessageTooShort {
            expected,
            actual,
        } && expected == w && actual == bytes@.len() - off),
        r is Err && off + w <= bytes@.len() ==> ({
            let pre = bytes@.subrange(off as int, off + w);
            let declared = dec_val(chars_of_bytes(pre)) as int;
            if !(forall|i: int| 0 <= i < w ==> is_digit_byte(#[trigger] pre[i])) {
                r->Err_0 matches ISO8583Error::InvalidFieldValue { field, .. } && field == k
            } else if declared > d.max_len {
                r->Err_0 matches ISO8583Error::InvalidFieldValue { field, .. } && field == k
            } else if off + w + declared > bytes@.len() {
                r->Err_0 matches ISO8583Error::FieldLengthMismatch { field, expected, actual }
                    && field == k && expected == declared && actual == bytes@.len() - (off + w)
            } else {
                r->Err_0 matches ISO8583Error::InvalidFieldValue { field, .. } && field == k
            }
        }),
{
    let blen = bytes.len();
    if w > blen - off {
        return Err(ISO8583Error::message_too_short(w, blen - off));
    }
    let ghost pre = bytes@.subrange(off as int, off + w);
    let mut declared: usize = 0;
    let mut i: usize = 0;
    while i < w
        invariant
            blen == bytes@.len(),
            off + w <= blen,
            pre == bytes@.subrange(off as int, off + w),
            0 <= i <= w,
            w == 2 || w == 3,
            forall|t: int| 0 <= t < i ==> is_digit_byte(#[trigger] pre[t]),
            declared == dec_val(chars_of_bytes(pre.take(i as int))),
            i == 0 ==> declared == 0,
            i <= 1 ==> declared <= 9,
            i <= 2 ==> declared <= 99,
            declared <= 999,
        decreases w - i,
    {
        let b = bytes[off + i];
        proof {
            assert(pre[i as int] == b);
        }
        if b < 48 || b > 57 {
            proof {
                reveal_strlit("Length prefix is not decimal");
            }
            return Err(ISO8583Error::invalid_field_value(k, "Length prefix is not decimal"));
        }
        proof {
            let cs = chars_of_bytes(pre.take(i + 1));
            assert(cs.drop_last() =~= chars_of_bytes(pre.take(i as int)));
            assert(cs.last() == (pre[i as int] as char));
            assert(crate::ascii::is_digit(cs.last())) by {
                assert((pre[i as int] as char) as u32 == pre[i as int] as u32);
            }
            assert(crate::ascii::digit_val(cs.last()) == b - 48);
        }
        declared = declared * 10 + ((b - 48) as usize);
        i = i + 1;
    }
    proof {
        assert(pre.take(w as int) =~= pre);
    }
    if declared > d.max_len as usize {
        proof {
            reveal_strlit("Length exceeds maximum for field");
        }
        return Err(ISO8583Error::invalid_field_value(k, "Length exceeds maximum for field"));
    }
    parse_raw(bytes, off + w, declared, d.data_type, k)
}


/// The abstract content of a run of concrete fields.
pub open spec fn model_of(fs: Seq<(u8, FieldValue)>) -> Seq<(u8, ValueView)> {
    Seq::new(fs.len(), |i: int| (fs[i].0, fs[i].1@))
}

impl ISO8583Message {
    /// Parse a message from its wire bytes. Fails exactly when the buffer
    /// is malformed: shorter than the twelve bytes of MTI and primary
    /// bitmap, a non-digit MTI, a missing announced bitmap block, a field
    /// with no definition announced present, or a malformed field body.
    /// Never reads past the buffer and never panics; bytes after the last
    /// announced field are ignored.
    pub fn from_bytes(bytes: &[u8]) -> (r: Result<Self, ISO8583Error>)
        ensures
            r is Ok <==> spec_parse_message(bytes@) is Some,
            r is Ok ==> {
                let v = spec_parse_message(bytes@)->Some_0;
                &&& r->Ok_0@.mti == v.mti
                &&& r->Ok_0@.fields == v.fields
                &&& r->Ok_0@.bitmap == v.bitmap
                &&& r->Ok_0.wf()
                &&& wire_faithful(r->Ok_0@)
            },
            bytes@.len() < 12 ==> r == Err::<ISO8583Message, ISO8583Error>(
                ISO8583Error::MessageTooShort { expected: 12, actual: bytes@.len() as usize },
            ),
            bytes@.len() >= 12 && MessageType::spec_parse(chars_of_bytes(bytes@.take(4)))
                is None ==> r is Err && r->Err_0 matches ISO8583Error::InvalidMTI(_),
            bytes@.len() >= 12 && MessageType::spec_parse(chars_of_bytes(bytes@.take(4))) is Some
                && byte_bit(bytes@[4], 0) && bytes@.len() < 20 ==> r == Err::<
                ISO8583Message,
                ISO8583Error,
            >(ISO8583Error::MessageTooShort { expected: 20, actual: bytes@.len() as usize }),
            bytes@.len() >= 20 && MessageType::spec_parse(chars_of_bytes(bytes@.take(4))) is Some
                && byte_bit(bytes@[4], 0) && byte_bit(bytes@[12], 0) && bytes@.len() < 28 ==> r
                == Err::<ISO8583Message, ISO8583Error>(
                ISO8583Error::MessageTooShort { expected: 28, actual: bytes@.len() as usize },
            ),
    {
        let blen = bytes.len();
        if blen < 12 {
            return Err(ISO8583Error::message_too_short(12, blen));
        }
        let mti = match MessageType::from_bytes(bytes) {
            Ok(m) => m,
            Err(e) => {
                proof {
                    let cs = chars_of_bytes(bytes@.take(4));
                    if MessageType::spec_parse(cs) is Some {
                        assert forall|j: int| 0 <= j < 4 implies is_digit_byte(
                            #[trigger] bytes@[j],
                        ) by {
                            assert(crate::ascii::is_digit(cs[j]));
                            assert(cs[j] == (bytes@[j] as char));
                            assert((bytes@[j] as char) as u32 == bytes@[j] as u32);
                        }
                        assert(false);
                    }
                }
                return Err(e);
            },
        };
        proof {
            let cs = chars_of_bytes(bytes@.take(4));
            assert(cs.len() == 4);
            assert forall|j: int| 0 <= j < 4 implies crate::ascii::is_digit(#[trigger] cs[j]) by {
                assert(cs[j] == (bytes@[j] as char));
                assert(is_digit_byte(bytes@[j]));
                assert((bytes@[j] as char) as u32 == bytes@[j] as u32);
            }
            assert(MessageType::spec_parse(cs) is Some);
        }
        let has2 = bytes[4] & 128u8 != 0;
        proof {
            crate::bitmap::lemma_u8_mask_test_bit0(bytes@[4]);
        }
        let bmlen: usize = if !has2 {
            8
        } else {
            if blen < 20 {
                return Err(ISO8583Error::message_too_short(20, blen));
            }
            let has3 = bytes[12] & 128u8 != 0;
            proof {
                crate::bitmap::lemma_u8_mask_test_bit0(bytes@[12]);
            }
            if !has3 {
                16
            } else {
                if blen < 28 {
                    return Err(ISO8583Error::message_too_short(28, blen));
                }
                24
            }
        };
        let bmslice = vstd::slice::slice_subrange(bytes, 4, 4 + bmlen);
        let bitmap = match Bitmap::from_bytes(bmslice) {
            Ok(b) => b,
            Err(e) => {
                proof {
                    assert(false);
                }
                return Err(e);
            },
        };
        proof {
            let parsed = Bitmap::spec_parse_blocks(bmslice@);
            if bmlen == 8 {
                assert(!byte_bit(bmslice@[0], 0));
                assert(parsed =~= bytes@.subrange(4, 12) + zeros8() + zeros8());
            } else if bmlen == 16 {
                assert(byte_bit(bmslice@[0], 0));
                assert(!byte_bit(bmslice@[8], 0));
                assert(parsed =~= bytes@.subrange(4, 20) + zeros8());
            } else {
                assert(byte_bit(bmslice@[0], 0));
                assert(byte_bit(bmslice@[8], 0));
                assert(parsed =~= bytes@.subrange(4, 28));
            }
            assert(spec_parse_bitmap(bytes@) == Some((bitmap.spec_blocks(), 4 + bmlen as int)));
        }
        let ghost bm = bitmap.spec_blocks();
        let off0: usize = 4 + bmlen;
        let ghost whole = spec_parse_fields(bytes@, off0 as int, 2, bm);
        let mut fields: Vec<(u8, FieldValue)> = Vec::new();
        let mut off: usize = off0;
        let mut f: u8 = 2;
        while f <= 192
            invariant
                blen == bytes@.len(),
                12 <= blen,
                bitmap.wf(),
                bm == bitmap.spec_blocks(),
                2 <= f <= 193,
                off0 <= off <= blen,
                MessageType::spec_parse(chars_of_bytes(bytes@.take(4))) == Some(mti),
                spec_parse_bitmap(bytes@) == Some((bm, off0 as int)),
                whole == spec_parse_fields(bytes@, off0 as int, 2, bm),
                compose_parse(
                    model_of(fields@),
                    spec_parse_fields(bytes@, off as int, f as int, bm),
                ) == whole,
                forall|i: int, j: int|
                    0 <= i < j < fields@.len() ==> (#[trigger] fields@[i]).0 < (
                    #[trigger] fields@[j]).0,
                forall|i: int|
                    0 <= i < fields@.len() ==> data_field_num((#[trigger] fields@[i]).0)
                        && (fields@[i]).0 < f,
                forall|k: u8|
                    data_field_num(k) && k < f ==> (seq_bit(bm, k as int) <==> spec_has_key(
                        model_of(fields@),
                        k,
                    )),
                forall|g: int| 129 <= g < f ==> !seq_bit(bm, g),
                forall|i: int|
                    0 <= i < fields@.len() ==> value_faithful(
                        (#[trigger] fields@[i]).0,
                        fields@[i].1@,
                    ),
            decreases 193 - f,
        {
            let present = if f != 65 {
                bitmap.is_set(f)
            } else {
                false
            };
            if present {
                match parse_field_at(bytes, off, f) {
                    Ok((value, end)) => {
                        proof {
                            lemma_parse_field_props(bytes@, off as int, f);
                            let (sv, send) = spec_parse_field_at(bytes@, off as int, f)->Some_0;
                            assert(spec_iso1987_field(f) is Some);
                            assert(2 <= f <= 128 && f != 65);
                            let ghost pre_model = model_of(fields@);
                            assert(spec_parse_fields(bytes@, off as int, f as int, bm) == (
                            match spec_parse_fields(bytes@, send, f as int + 1, bm) {
                                None => None::<(Seq<(u8, ValueView)>, int)>,
                                Some((rest, e2)) => Some((seq![(f, sv)] + rest, e2)),
                            }));
                        }
                        let ghost pre_model = model_of(fields@);
                        fields.push((f, value));
                        off = end;
                        proof {
                            assert(model_of(fields@) =~= pre_model.push((f, value@)));
                            assert forall|rest: Seq<(u8, ValueView)>|
                                true implies pre_model + (seq![(f, value@)] + rest) =~= model_of(
                                fields@,
                            ) + rest by {}
                            match spec_parse_fields(bytes@, off as int, f as int + 1, bm) {
                                None => {
                                    assert(compose_parse(
                                        model_of(fields@),
                                        spec_parse_fields(bytes@, off as int, f as int + 1, bm),
                                    ) == whole);
                                },
                                Some((rest, e2)) => {
                                    assert(pre_model + (seq![(f, value@)] + rest) =~= model_of(
                                        fields@,
                                    ) + rest);
                                    assert(compose_parse(
                                        model_of(fields@),
                                        spec_parse_fields(bytes@, off as int, f as int + 1, bm),
                                    ) == whole);
                                },
                            }
                            assert forall|k: u8|
                                data_field_num(k) && k < f + 1 implies (seq_bit(bm, k as int)
                                <==> spec_has_key(model_of(fields@), k)) by {
                                if k < f {
                                    if spec_has_key(pre_model, k) {
                                        let j = choose|j: int|
                                            0 <= j < pre_model.len() && (
                                            #[trigger] pre_model[j]).0 == k;
                                        assert(model_of(fields@)[j].0 == k);
                                    }
                                    if spec_has_key(model_of(fields@), k) {
                                        let j = choose|j: int|
                                            0 <= j < model_of(fields@).len() && (#[trigger] model_of(
                                                fields@,
                                            )[j]).0 == k;
                                        if j < pre_model.len() {
                                            assert(pre_model[j].0 == k);
                                        } else {
                                            assert(false);
                                        }
                                    }
                                } else {
                                    assert(model_of(fields@)[model_of(fields@).len() - 1].0 == k);
                                }
                            }
                        }
                    },
                    Err(e) => {
                        proof {
                            assert(spec_parse_fields(bytes@, off as int, f as int, bm) is None);
                            assert(whole is None);
                            assert(spec_parse_message(bytes@) is None);
                        }
                        return Err(e);
                    },
                }
            } else {
                proof {
                    if f == 65 || !seq_bit(bm, f as int) {
                        assert(spec_parse_fields(bytes@, off as int, f as int, bm)
                            == spec_parse_fields(bytes@, off as int, f as int + 1, bm));
                    }
                    if 129 <= f {
                        assert(!seq_bit(bm, f as int));
                    }
                    assert forall|k: u8|
                        data_field_num(k) && k < f + 1 implies (seq_bit(bm, k as int)
                        <==> spec_has_key(model_of(fields@), k)) by {
                        if k == f {
                            assert(!seq_bit(bm, k as int));
                            if spec_has_key(model_of(fields@), k) {
                                let j = choose|j: int|
                                    0 <= j < model_of(fields@).len() && (#[trigger] model_of(
                                        fields@,
                                    )[j]).0 == k;
                                assert(fields@[j].0 < f);
                                assert(false);
                            }
                        }
                    }
                }
            }
            f = f + 1;
        }
        proof {
            assert(spec_parse_fields(bytes@, off as int, 193, bm) == Some(
                (Seq::<(u8, ValueView)>::empty(), off as int),
            ));
            assert(model_of(fields@) + Seq::<(u8, ValueView)>::empty() =~= model_of(fields@));
            assert(whole == Some((model_of(fields@), off as int)));
        }
        let msg = ISO8583Message { mti, fields, bitmap };
        proof {
            assert(msg@.fields =~= model_of(msg.fields@));
            let v = spec_parse_message(bytes@)->Some_0;
            assert(msg@.mti == v.mti && msg@.fields == v.fields && msg@.bitmap == v.bitmap);
            // well-formedness of the parsed message
            assert(msg@.bitmap.len() == 24);
            assert forall|g: int| 129 <= g <= 192 implies !seq_bit(bm, g) by {}
            if !seq_bit(bm, 1) {
                assert(!byte_bit(bytes@[4], 0));
                assert forall|g: int| 65 <= g <= 192 implies !seq_bit(bm, g) by {
                    let bi = (g - 1) / 8;
                    assert(8 <= bi < 24);
                    assert(bm[bi] == 0) by {
                        assert(bm =~= bytes@.subrange(4, 12) + zeros8() + zeros8());
                    }
                    crate::bitmap::lemma_zero_byte_bits((g - 1) % 8);
                }
            }
            if !seq_bit(bm, 65) {
                assert forall|g: int| 129 <= g <= 192 implies !seq_bit(bm, g) by {}
            }
        }
        Ok(msg)
    }
}


/// A faithful value parses back from its own wire bytes, consuming exactly
/// them.
proof fn lemma_field_wire_parse(bytes: Seq<u8>, off: int, k: u8, v: ValueView)
    requires
        value_faithful(k, v),
        0 <= off,
        off + spec_field_wire(k, v).len() <= bytes.len(),
        bytes.subrange(off, off + spec_field_wire(k, v).len()) == spec_field_wire(k, v),
    ensures
        spec_parse_field_at(bytes, off, k) == Some((v, off + spec_field_wire(k, v).len())),
{
    let d = spec_iso1987_field(k)->Some_0;
    let b = spec_value_bytes(v);
    let wire = spec_field_wire(k, v);
    match d.length_type {
        LengthType::Fixed => {
            assert(b.len() == d.max_len);
            assert(wire =~= b);
            let n = d.max_len as int;
            let raw = bytes.subrange(off, off + n);
            assert(raw =~= b);
            if d.data_type == DataType::Binary {
                assert(v is Bin);
                assert(v->Bin_0 =~= raw);
            } else {
                assert(v is Text);
                let s = v->Text_0;
                vstd::utf8::encode_utf8_valid_utf8(s);
                vstd::utf8::encode_utf8_decode_utf8(s);
                assert(raw == vstd::utf8::encode_utf8(s));
                assert(vstd::utf8::valid_utf8(raw));
                assert(vstd::utf8::decode_utf8(raw) == s);
            }
        },
        LengthType::Llvar => {
            lemma_var_wire_parse(bytes, off, k, v, 2);
        },
        LengthType::Lllvar => {
            lemma_var_wire_parse(bytes, off, k, v, 3);
        },
    }
}

proof fn lemma_var_wire_parse(bytes: Seq<u8>, off: int, k: u8, v: ValueView, w: int)
    requires
        value_faithful(k, v),
        spec_iso1987_field(k)->Some_0.length_type == (if w == 2 {
            LengthType::Llvar
        } else {
            LengthType::Lllvar
        }),
        w == 2 || w == 3,
        0 <= off,
        off + spec_field_wire(k, v).len() <= bytes.len(),
        bytes.subrange(off, off + spec_field_wire(k, v).len()) == spec_field_wire(k, v),
    ensures
        spec_parse_field_at(bytes, off, k) == Some((v, off + spec_field_wire(k, v).len())),
{
    let d = spec_iso1987_field(k)->Some_0;
    let b = spec_value_bytes(v);
    let wire = spec_field_wire(k, v);
    let lnat = b.len();
    crate::iso_spec::lemma_iso1987_var_max_fits(k);
    assert(lnat < 1000);
    crate::ascii::lemma_dec_digits_are_digits(lnat);
    if w == 2 {
        assert(lnat < 100);
    }
    crate::ascii::lemma_dec_min_width_val(lnat, w as nat);
    let prefix = dec_min_width(lnat, w as nat);
    assert(prefix.len() == w);
    assert(wire =~= prefix + b);
    let pre = bytes.subrange(off, off + w);
    assert(pre =~= prefix) by {
        assert forall|i: int| 0 <= i < w implies pre[i] == prefix[i] by {
            assert(pre[i] == bytes[off + i]);
            assert(bytes.subrange(off, off + wire.len() as int)[i] == wire[i]);
        }
    }
    assert(forall|i: int| 0 <= i < w ==> is_digit_byte(#[trigger] pre[i]));
    assert(dec_val(chars_of_bytes(pre)) == lnat);
    let declared = lnat as int;
    assert(declared <= d.max_len);
    let raw = bytes.subrange(off + w, off + w + declared);
    assert(raw =~= b) by {
        assert forall|i: int| 0 <= i < declared implies raw[i] == b[i] by {
            assert(bytes.subrange(off, off + wire.len() as int)[w + i] == wire[w + i]);
            assert(wire[w + i] == b[i]);
        }
    }
    if d.data_type == DataType::Binary {
        assert(v is Bin);
        assert(v->Bin_0 =~= raw);
    } else {
        assert(v is Text);
        let s = v->Text_0;
        vstd::utf8::encode_utf8_valid_utf8(s);
        vstd::utf8::encode_utf8_decode_utf8(s);
        assert(raw == vstd::utf8::encode_utf8(s));
        assert(vstd::utf8::valid_utf8(raw));
        assert(vstd::utf8::decode_utf8(raw) == s);
    }
}

/// A faithful, sorted run of fields whose presence bits agree with the
/// bitmap parses back from its own wire bytes as exactly that run.
proof fn lemma_fields_wire_parse(bytes: Seq<u8>, off: int, f: int, fs: Seq<(u8, ValueView)>, bm: Seq<u8>)
    requires
        1 <= f <= 193,
        keys_sorted(fs),
        forall|i: int|
            0 <= i < fs.len() ==> data_field_num((#[trigger] fs[i]).0) && (fs[i]).0 >= f,
        forall|i: int|
            0 <= i < fs.len() ==> value_faithful((#[trigger] fs[i]).0, fs[i].1),
        forall|k: u8|
            data_field_num(k) && f <= k ==> (seq_bit(bm, k as int) <==> spec_has_key(fs, k)),
        forall|g: int| 129 <= g <= 192 && f <= g ==> !seq_bit(bm, g),
        0 <= off,
        off + spec_fields_wire(fs).len() <= bytes.len(),
        bytes.subrange(off, off + spec_fields_wire(fs).len()) == spec_fields_wire(fs),
    ensures
        spec_parse_fields(bytes, off, f, bm) matches Some((rfs, rend)) && rfs == fs && rend == off
            + spec_fields_wire(fs).len(),
    decreases 193 - f,
{
    let wlen = spec_fields_wire(fs).len() as int;
    if f > 192 {
        if fs.len() > 0 {
            assert(fs[0].0 >= f);
            assert(data_field_num(fs[0].0));
            assert(false);
        }
        assert(fs =~= Seq::<(u8, ValueView)>::empty());
        assert(spec_fields_wire(fs).len() == 0);
    } else if f == 1 || f == 65 || !seq_bit(bm, f) {
        assert forall|i: int| 0 <= i < fs.len() implies (#[trigger] fs[i]).0 >= f + 1 by {
            if fs[i].0 == f {
                if data_field_num(fs[i].0) && 2 <= f {
                    assert(spec_has_key(fs, f as u8));
                    assert(seq_bit(bm, f));
                    assert(false);
                }
            }
        }
        lemma_fields_wire_parse(bytes, off, f + 1, fs, bm);
    } else {
        // the presence bit of f is set
        if 129 <= f {
            assert(!seq_bit(bm, f));
            assert(false);
        }
        assert(data_field_num(f as u8));
        assert(spec_has_key(fs, f as u8));
        let j = choose|j: int| 0 <= j < fs.len() && (#[trigger] fs[j]).0 == f as u8;
        assert(fs[0].0 <= fs[j].0) by {
            if j > 0 {
                assert(fs[0].0 < fs[j].0);
            }
        }
        assert(fs[0].0 == f as u8);
        let head = fs[0];
        let rest = fs.drop_first();
        let hw = spec_field_wire(head.0, head.1);
        assert(spec_fields_wire(fs) == hw + spec_fields_wire(rest));
        assert(bytes.subrange(off, off + hw.len() as int) =~= hw) by {
            assert forall|i: int| 0 <= i < hw.len() implies bytes[off + i] == hw[i] by {
                assert(bytes.subrange(off, off + wlen)[i] == spec_fields_wire(fs)[i]);
            }
        }
        lemma_field_wire_parse(bytes, off, head.0, head.1);
        let mid = off + hw.len() as int;
        assert(spec_parse_field_at(bytes, off, f as u8) == Some((head.1, mid)));
        assert(keys_sorted(rest)) by {
            assert forall|a: int, b: int| 0 <= a < b < rest.len() implies (#[trigger] rest[a]).0
                < (#[trigger] rest[b]).0 by {
                assert(rest[a] == fs[a + 1] && rest[b] == fs[b + 1]);
            }
        }
        assert forall|i: int| 0 <= i < rest.len() implies data_field_num((#[trigger] rest[i]).0)
            && (rest[i]).0 >= f + 1 by {
            assert(rest[i] == fs[i + 1]);
            assert(fs[0].0 < fs[i + 1].0);
        }
        assert forall|i: int| 0 <= i < rest.len() implies value_faithful(
            (#[trigger] rest[i]).0,
            rest[i].1,
        ) by {
            assert(rest[i] == fs[i + 1]);
        }
        assert forall|k: u8| data_field_num(k) && f + 1 <= k implies (seq_bit(bm, k as int)
            <==> spec_has_key(rest, k)) by {
            lemma_cons_has_key(fs[0], rest, k);
            assert(seq![fs[0]] + rest =~= fs);
        }
        assert(bytes.subrange(mid, mid + spec_fields_wire(rest).len() as int)
            =~= spec_fields_wire(rest)) by {
            assert forall|i: int| 0 <= i < spec_fields_wire(rest).len() implies bytes[mid + i]
                == spec_fields_wire(rest)[i] by {
                let q = hw.len() + i;
                assert(bytes.subrange(off, off + wlen)[q] == spec_fields_wire(fs)[q]);
                assert(spec_fields_wire(fs)[hw.len() + i] == spec_fields_wire(rest)[i]);
            }
        }
        lemma_fields_wire_parse(bytes, mid, f + 1, rest, bm);
        assert(seq![(f as u8, head.1)] + rest =~= fs);
    }
}


/// Length-prefix bounds: a variable-length field whose declared length
/// exceeds the definition's maximum, or exceeds the bytes remaining, never
/// parses; and a successful parse consumes exactly the prefix and the
/// declared bytes, never reading past the buffer.
pub proof fn lemma_var_length_prefix_bounds(bytes: Seq<u8>, off: int, w: int, d: FieldDefinition)
    requires
        0 <= off,
        off + w <= bytes.len(),
        forall|i: int|
            0 <= i < w ==> is_digit_byte(#[trigger] bytes.subrange(off, off + w)[i]),
    ensures
        ({
            let declared = dec_val(chars_of_bytes(bytes.subrange(off, off + w))) as int;
            &&& (declared > d.max_len ==> spec_parse_var(bytes, off, w, d) is None)
            &&& (off + w + declared > bytes.len() ==> spec_parse_var(bytes, off, w, d) is None)
            &&& (spec_parse_var(bytes, off, w, d) matches Some((v, end)) ==> end == off + w
                + declared && end <= bytes.len())
        }),
{
}

/// Round trip: a well-formed message whose values fit their definitions
/// exactly parses back from its own serialized bytes with the same MTI, the
/// same fields with the same values, and the same bitmap. Combined with the
/// contracts of `to_bytes` and `from_bytes`, parsing the serialization of
/// any such message succeeds and returns an equal message.
pub proof fn lemma_message_round_trip(v: MessageView)
    requires
        view_wf(v),
        wire_faithful(v),
    ensures
        spec_parse_message(spec_message_wire(v)) matches Some(p) && p.mti == v.mti && p.fields
            == v.fields && p.bitmap == v.bitmap,
{
    let w = spec_message_wire(v);
    let bl = spec_bitmap_wire_len(v.bitmap);
    let bmw = v.bitmap.take(bl);
    let fw = spec_fields_wire(v.fields);
    assert(w =~= v.mti.spec_wire() + bmw + fw);
    assert(w.len() == 4 + bl + fw.len());
    assert(w.len() >= 12);
    // the MTI digits parse back
    assert(w.take(4) =~= v.mti.spec_wire());
    assert(chars_of_bytes(w.take(4)) =~= v.mti.spec_chars()) by {
        assert forall|j: int| 0 <= j < 4 implies chars_of_bytes(v.mti.spec_wire())[j]
            == v.mti.spec_chars()[j] by {
            let b = v.mti.spec_wire()[j];
            let c = v.mti.spec_chars()[j];
            assert(48 <= b <= 57);
            assert(c == crate::ascii::char_of_digit((b - 48) as int));
            assert((b as char) as u32 == b as u32);
            assert(((b as u32) as char) as u32 == b as u32) by {
                vstd::utf8::char_u32_cast(b as char, b as u32);
            }
        }
    }
    crate::mti::lemma_mti_round_trip(v.mti);
    // the bitmap blocks parse back
    assert forall|i: int| 0 <= i < bl implies w[4 + i] == v.bitmap[i] by {
        assert(w[4 + i] == bmw[i]);
    }
    assert(w[4] == v.bitmap[0]);
    if !seq_bit(v.bitmap, 1) {
        assert(bl == 8);
        assert(!byte_bit(w[4], 0));
        assert forall|i: int| 8 <= i < 24 implies v.bitmap[i] == 0 by {
            lemma_block_zero(v.bitmap, i);
        }
        assert(spec_parse_bitmap(w) == Some((w.subrange(4, 12) + zeros8() + zeros8(), 12int)));
        assert(w.subrange(4, 12) + zeros8() + zeros8() =~= v.bitmap);
    } else {
        assert(byte_bit(w[4], 0));
        assert(w[12] == v.bitmap[8]);
        if !seq_bit(v.bitmap, 65) {
            assert(bl == 16);
            assert(!byte_bit(w[12], 0));
            assert(w.len() >= 20);
            assert forall|i: int| 16 <= i < 24 implies v.bitmap[i] == 0 by {
                lemma_block_zero(v.bitmap, i);
            }
            assert(spec_parse_bitmap(w) == Some((w.subrange(4, 20) + zeros8(), 20int)));
            assert(w.subrange(4, 20) + zeros8() =~= v.bitmap);
        } else {
            assert(bl == 24);
            assert(byte_bit(w[12], 0));
            assert(w.len() >= 28);
            assert(spec_parse_bitmap(w) == Some((w.subrange(4, 28), 28int)));
            assert(w.subrange(4, 28) =~= v.bitmap);
        }
    }
    let off0 = 4 + bl;
    assert(spec_parse_bitmap(w) == Some((v.bitmap, off0)));
    // the fields parse back
    assert(w.subrange(off0, off0 + fw.len() as int) =~= fw) by {
        assert forall|i: int| 0 <= i < fw.len() implies w[off0 + i] == fw[i] by {}
    }
    lemma_fields_wire_parse(w, off0, 2, v.fields, v.bitmap);
}

/// A block byte is zero when the well-formedness conditions say no bit of
/// its fields can be set.
proof fn lemma_block_zero(bm: Seq<u8>, i: int)
    requires
        bm.len() == 24,
        8 <= i < 24,
        forall|f: int| 8 * i + 1 <= f <= 8 * i + 8 ==> !seq_bit(bm, f),
    ensures
        bm[i] == 0,
{
    let b = bm[i];
    assert forall|k: int| 0 <= k < 8 implies !byte_bit(b, k) by {
        let f = 8 * i + k + 1;
        assert(!seq_bit(bm, f));
        assert((f - 1) / 8 == i && (f - 1) % 8 == k);
    }
    crate::bitmap::lemma_u8_all_bits_clear(b);
}


impl ISO8583Message {
    /// Start a builder for constructing messages.
    pub fn builder() -> (r: MessageBuilder)
        ensures
            r.wf(),
            r.spec_message().fields =~= Seq::<(u8, ValueView)>::empty(),
            r.spec_message().mti == (MessageType {
                version: 0,
                class: crate::mti::MessageClass::Authorization,
                function: crate::mti::MessageFunction::Request,
                origin: crate::mti::MessageOrigin::Acquirer,
            }),
    {
        MessageBuilder::new()
    }
}

/// Builder: accumulates field values with bitmap bookkeeping, then checks
/// the required fields on build.
#[derive(Debug, Clone)]
pub struct MessageBuilder {
    message: ISO8583Message,
}

impl MessageBuilder {
    /// The message accumulated so far.
    pub closed spec fn spec_message(self) -> MessageView {
        self.message@
    }

    /// The accumulated message is always well formed.
    pub open spec fn wf(self) -> bool {
        view_wf(self.spec_message())
    }

    /// Create a builder; the message type starts as an authorization
    /// request.
    pub fn new() -> (r: Self)
        ensures
            r.wf(),
            r.spec_message().fields =~= Seq::<(u8, ValueView)>::empty(),
            r.spec_message().mti == (MessageType {
                version: 0,
                class: crate::mti::MessageClass::Authorization,
                function: crate::mti::MessageFunction::Request,
                origin: crate::mti::MessageOrigin::Acquirer,
            }),
    {
        MessageBuilder { message: ISO8583Message::new(MessageType::authorization_request()) }
    }

    /// Set the message type.
    pub fn mti(self, mti: MessageType) -> (r: Self)
        requires
            self.wf(),
            mti.wf(),
        ensures
            r.wf(),
            r.spec_message().mti == mti,
            r.spec_message().fields == self.spec_message().fields,
            r.spec_message().bitmap == self.spec_message().bitmap,
    {
        let mut message = self.message;
        message.mti = mti;
        MessageBuilder { message }
    }

    /// Store a text value for a field; a value for the indicator numbers
    /// one and sixty-five is silently ignored, as they carry no data.
    pub fn field(self, field: Field, value: &str) -> (r: Self)
        requires
            self.wf(),
        ensures
            r.wf(),
            r.spec_message().mti == self.spec_message().mti,
            data_field_num(spec_field_number(field)) ==> r.spec_message().fields =~= spec_insert(
                self.spec_message().fields,
                spec_field_number(field),
                ValueView::Text(value@),
            ),
            !data_field_num(spec_field_number(field)) ==> r.spec_message()
                == self.spec_message(),
    {
        let mut message = self.message;
        let owned = String::from_str(value);
        let res = message.set_field(field, FieldValue::from_string(owned));
        proof {
            if !data_field_num(spec_field_number(field)) {
                assert(res is Err);
            }
        }
        MessageBuilder { message }
    }

    /// Store a binary value for a field; a value for the indicator numbers
    /// one and sixty-five is silently ignored.
    pub fn binary_field(self, field: Field, value: Vec<u8>) -> (r: Self)
        requires
            self.wf(),
        ensures
            r.wf(),
            r.spec_message().mti == self.spec_message().mti,
            data_field_num(spec_field_number(field)) ==> r.spec_message().fields =~= spec_insert(
                self.spec_message().fields,
                spec_field_number(field),
                ValueView::Bin(value@),
            ),
            !data_field_num(spec_field_number(field)) ==> r.spec_message()
                == self.spec_message(),
    {
        let mut message = self.message;
        let res = message.set_field(field, FieldValue::from_binary(value));
        proof {
            if !data_field_num(spec_field_number(field)) {
                assert(res is Err);
            }
        }
        MessageBuilder { message }
    }

    /// Finish the message: succeeds, returning exactly the accumulated
    /// message, when every required field is present, and fails naming the
    /// first missing required field otherwise.
    pub fn build(self) -> (r: Result<ISO8583Message, ISO8583Error>)
        requires
            self.wf(),
        ensures
            r is Ok <==> crate::validation::spec_missing_required(self.spec_message()) is None,
            r is Ok ==> r->Ok_0@ == self.spec_message() && r->Ok_0.wf(),
            r is Err ==> r->Err_0 == ISO8583Error::MissingRequiredField(
                crate::validation::spec_missing_required(self.spec_message())->Some_0,
            ),
    {
        match crate::validation::Validator::validate_required_fields(&self.message) {
            Ok(_) => Ok(self.message),
            Err(e) => Err(e),
        }
    }
}

impl Default for MessageBuilder {
    /// An empty builder.
    fn default() -> (r: Self)
        ensures
            r.wf(),
    {
        MessageBuilder::new()
    }
}

/// Inserting at the first position whose key is not below `k` realizes the
/// abstract insertion.
proof fn lemma_insert_at(fs: Seq<(u8, ValueView)>, k: u8, v: ValueView, i: int)
    requires
        keys_sorted(fs),
        0 <= i <= fs.len(),
        forall|j: int| 0 <= j < i ==> (#[trigger] fs[j]).0 < k,
        i < fs.len() ==> fs[i].0 >= k,
    ensures
        i < fs.len() && fs[i].0 == k ==> spec_insert(fs, k, v) =~= fs.update(i, (k, v)),
        (i == fs.len() || fs[i].0 > k) ==> spec_insert(fs, k, v) =~= fs.take(i).push((k, v))
            + fs.skip(i),
    decreases i,
{
    if i == 0 {
        if fs.len() > 0 && fs[0].0 == k {
            assert(spec_insert(fs, k, v) =~= seq![(k, v)] + fs.drop_first());
            assert(seq![(k, v)] + fs.drop_first() =~= fs.update(0, (k, v)));
        } else {
            assert(spec_insert(fs, k, v) =~= seq![(k, v)] + fs);
            assert(seq![(k, v)] + fs =~= fs.take(0).push((k, v)) + fs.skip(0));
        }
    } else {
        let rest = fs.drop_first();
        assert(keys_sorted(rest)) by {
            assert forall|a: int, b: int| 0 <= a < b < rest.len() implies (#[trigger] rest[a]).0
                < (#[trigger] rest[b]).0 by {
                assert(rest[a] == fs[a + 1] && rest[b] == fs[b + 1]);
            }
        }
        assert(fs[0].0 < k);
        lemma_insert_at(rest, k, v, i - 1);
        assert(spec_insert(fs, k, v) =~= seq![fs[0]] + spec_insert(rest, k, v));
        if i < fs.len() && fs[i].0 == k {
            assert(rest[i - 1] == fs[i]);
            assert(spec_insert(rest, k, v) =~= rest.update(i - 1, (k, v)));
            assert(seq![fs[0]] + rest.update(i - 1, (k, v)) =~= fs.update(i, (k, v)));
        } else {
            assert(spec_insert(rest, k, v) =~= rest.take(i - 1).push((k, v)) + rest.skip(i - 1));
            assert(seq![fs[0]] + (rest.take(i - 1).push((k, v)) + rest.skip(i - 1)) =~= fs.take(
                i,
            ).push((k, v)) + fs.skip(i));
        }
    }
}

/// Removing at the position of the key realizes the abstract removal, and
/// removal of an absent key changes nothing.
proof fn lemma_remove_at(fs: Seq<(u8, ValueView)>, k: u8, i: int)
    requires
        keys_sorted(fs),
        0 <= i < fs.len(),
        forall|j: int| 0 <= j < i ==> (#[trigger] fs[j]).0 < k,
        fs[i].0 == k,
    ensures
        spec_remove(fs, k) =~= fs.remove(i),
    decreases i,
{
    if i == 0 {
        assert(spec_remove(fs, k) =~= fs.drop_first());
        assert(fs.drop_first() =~= fs.remove(0));
    } else {
        let rest = fs.drop_first();
        assert(keys_sorted(rest)) by {
            assert forall|a: int, b: int| 0 <= a < b < rest.len() implies (#[trigger] rest[a]).0
                < (#[trigger] rest[b]).0 by {
                assert(rest[a] == fs[a + 1] && rest[b] == fs[b + 1]);
            }
        }
        assert(rest[i - 1] == fs[i]);
        lemma_remove_at(rest, k, i - 1);
        assert(spec_remove(fs, k) =~= seq![fs[0]] + spec_remove(rest, k));
        assert(seq![fs[0]] + rest.remove(i - 1) =~= fs.remove(i));
    }
}

proof fn lemma_remove_absent(fs: Seq<(u8, ValueView)>, k: u8, i: int)
    requires
        keys_sorted(fs),
        0 <= i <= fs.len(),
        forall|j: int| 0 <= j < i ==> (#[trigger] fs[j]).0 < k,
        i < fs.len() ==> fs[i].0 > k,
    ensures
        spec_remove(fs, k) =~= fs,
    decreases fs.len(),
{
    if fs.len() > 0 {
        if fs[0].0 == k {
            assert(i > 0 ==> fs[0].0 < k);
            assert(i == 0 ==> fs[0].0 > k);
            assert(false);
        }
        let rest = fs.drop_first();
        assert(keys_sorted(rest)) by {
            assert forall|a: int, b: int| 0 <= a < b < rest.len() implies (#[trigger] rest[a]).0
                < (#[trigger] rest[b]).0 by {
                assert(rest[a] == fs[a + 1] && rest[b] == fs[b + 1]);
            }
        }
        if i == 0 {
            assert(fs[0].0 > k);
            assert forall|j: int| 0 <= j < rest.len() implies (#[trigger] rest[j]).0 > k by {
                assert(rest[j] == fs[j + 1]);
            }
            lemma_remove_absent(rest, k, 0);
        } else {
            assert forall|j: int| 0 <= j < i - 1 implies (#[trigger] rest[j]).0 < k by {
                assert(rest[j] == fs[j + 1]);
            }
            assert(i - 1 < rest.len() ==> rest[i - 1].0 > k) by {
                if i - 1 < rest.len() {
                    assert(rest[i - 1] == fs[i]);
                }
            }
            lemma_remove_absent(rest, k, i - 1);
        }
        assert(spec_remove(fs, k) =~= seq![fs[0]] + spec_remove(rest, k));
    }
}

/// Every key after insertion is the inserted key or one of the old keys.
proof fn lemma_insert_head_keys(fs: Seq<(u8, ValueView)>, k: u8, v: ValueView)
    ensures
        forall|i: int|
            0 <= i < spec_insert(fs, k, v).len() ==> ((#[trigger] spec_insert(fs, k, v)[i]).0 == k
                || spec_has_key(fs, spec_insert(fs, k, v)[i].0)),
    decreases fs.len(),
{
    let out = spec_insert(fs, k, v);
    if fs.len() == 0 {
    } else {
        let rest = fs.drop_first();
        lemma_insert_head_keys(rest, k, v);
        assert forall|i: int| 0 <= i < out.len() implies ((#[trigger] out[i]).0 == k
            || spec_has_key(fs, out[i].0)) by {
            if fs[0].0 < k {
                if i == 0 {
                    assert(out[0] == fs[0]);
                } else {
                    assert(out[i] == spec_insert(rest, k, v)[i - 1]);
                    if out[i].0 != k {
                        let j = choose|j: int|
                            0 <= j < rest.len() && (#[trigger] rest[j]).0 == out[i].0;
                        assert(fs[j + 1].0 == out[i].0);
                    }
                }
            } else if fs[0].0 == k {
                if i > 0 {
                    assert(out[i] == fs[i]);
                }
            } else {
                if i > 0 {
                    assert(out[i] == fs[i - 1]);
                }
            }
        }
    }
}

/// Insertion keeps keys sorted.
proof fn lemma_insert_sorted(fs: Seq<(u8, ValueView)>, k: u8, v: ValueView)
    requires
        keys_sorted(fs),
    ensures
        keys_sorted(spec_insert(fs, k, v)),
    decreases fs.len(),
{
    let out = spec_insert(fs, k, v);
    if fs.len() == 0 {
    } else {
        let rest = fs.drop_first();
        assert(keys_sorted(rest)) by {
            assert forall|a: int, b: int| 0 <= a < b < rest.len() implies (#[trigger] rest[a]).0
                < (#[trigger] rest[b]).0 by {
                assert(rest[a] == fs[a + 1] && rest[b] == fs[b + 1]);
            }
        }
        lemma_insert_sorted(rest, k, v);
        if fs[0].0 < k {
            lemma_insert_head_keys(rest, k, v);
            let inner = spec_insert(rest, k, v);
            assert forall|a: int, b: int| 0 <= a < b < out.len() implies (#[trigger] out[a]).0
                < (#[trigger] out[b]).0 by {
                if a == 0 {
                    assert(out[b] == inner[b - 1]);
                    if inner[b - 1].0 == k {
                    } else {
                        let j = choose|j: int|
                            0 <= j < rest.len() && (#[trigger] rest[j]).0 == inner[b - 1].0;
                        assert(fs[j + 1].0 == inner[b - 1].0);
                    }
                } else {
                    assert(out[a] == inner[a - 1] && out[b] == inner[b - 1]);
                }
            }
        } else if fs[0].0 == k {
            assert forall|a: int, b: int| 0 <= a < b < out.len() implies (#[trigger] out[a]).0
                < (#[trigger] out[b]).0 by {
                if a == 0 {
                    assert(out[b] == fs[b]);
                } else {
                    assert(out[a] == fs[a] && out[b] == fs[b]);
                }
            }
        } else {
            assert forall|a: int, b: int| 0 <= a < b < out.len() implies (#[trigger] out[a]).0
                < (#[trigger] out[b]).0 by {
                if a == 0 {
                    assert(out[b] == fs[b - 1]);
                } else {
                    assert(out[a] == fs[a - 1] && out[b] == fs[b - 1]);
                }
            }
        }
    }
}

/// A key occurs after insertion exactly when it is the inserted key or
/// occurred before.
proof fn lemma_insert_has_key(fs: Seq<(u8, ValueView)>, k: u8, v: ValueView, q: u8)
    requires
        keys_sorted(fs),
    ensures
        spec_has_key(spec_insert(fs, k, v), q) <==> (q == k || spec_has_key(fs, q)),
    decreases fs.len(),
{
    let out = spec_insert(fs, k, v);
    if fs.len() == 0 {
        assert(out =~= seq![(k, v)]);
        assert(out[0].0 == k);
    } else {
        let rest = fs.drop_first();
        assert(keys_sorted(rest)) by {
            assert forall|a: int, b: int| 0 <= a < b < rest.len() implies (#[trigger] rest[a]).0
                < (#[trigger] rest[b]).0 by {
                assert(rest[a] == fs[a + 1] && rest[b] == fs[b + 1]);
            }
        }
        lemma_insert_has_key(rest, k, v, q);
        if fs[0].0 < k {
            assert(out =~= seq![fs[0]] + spec_insert(rest, k, v));
            assert(spec_has_key(out, q) <==> (out[0].0 == q || spec_has_key(
                spec_insert(rest, k, v),
                q,
            ))) by {
                lemma_cons_has_key(fs[0], spec_insert(rest, k, v), q);
            }
            assert(spec_has_key(fs, q) <==> (fs[0].0 == q || spec_has_key(rest, q))) by {
                lemma_cons_has_key(fs[0], rest, q);
                assert(seq![fs[0]] + rest =~= fs);
            }
        } else if fs[0].0 == k {
            assert(out =~= seq![(k, v)] + rest);
            lemma_cons_has_key((k, v), rest, q);
            lemma_cons_has_key(fs[0], rest, q);
            assert(seq![fs[0]] + rest =~= fs);
        } else {
            assert(out =~= seq![(k, v)] + fs);
            lemma_cons_has_key((k, v), fs, q);
        }
    }
}

/// A key occurs after removal exactly when it occurred before and is not
/// the removed key; sorted keys are unique, so one removal suffices.
proof fn lemma_remove_has_key(fs: Seq<(u8, ValueView)>, k: u8, q: u8)
    requires
        keys_sorted(fs),
    ensures
        spec_has_key(spec_remove(fs, k), q) <==> (spec_has_key(fs, q) && q != k),
        keys_sorted(spec_remove(fs, k)),
        forall|i: int|
            0 <= i < spec_remove(fs, k).len() ==> spec_has_key(
                fs,
                (#[trigger] spec_remove(fs, k)[i]).0,
            ),
    decreases fs.len(),
{
    let out = spec_remove(fs, k);
    if fs.len() == 0 {
    } else {
        let rest = fs.drop_first();
        assert(keys_sorted(rest)) by {
            assert forall|a: int, b: int| 0 <= a < b < rest.len() implies (#[trigger] rest[a]).0
                < (#[trigger] rest[b]).0 by {
                assert(rest[a] == fs[a + 1] && rest[b] == fs[b + 1]);
            }
        }
        lemma_remove_has_key(rest, k, q);
        lemma_cons_has_key(fs[0], rest, q);
        assert(seq![fs[0]] + rest =~= fs);
        if fs[0].0 == k {
            assert(out =~= rest);
            assert(fs[0].0 == k);
            if spec_has_key(rest, k) {
                let j = choose|j: int| 0 <= j < rest.len() && (#[trigger] rest[j]).0 == k;
                assert(fs[j + 1].0 == k && fs[0].0 == k);
                assert(false);
            }
        } else {
            assert(out =~= seq![fs[0]] + spec_remove(rest, k));
            lemma_cons_has_key(fs[0], spec_remove(rest, k), q);
            assert forall|a: int, b: int| 0 <= a < b < out.len() implies (#[trigger] out[a]).0
                < (#[trigger] out[b]).0 by {
                if a == 0 {
                    let inner = spec_remove(rest, k);
                    assert(out[b] == inner[b - 1]);
                    assert(spec_has_key(rest, inner[b - 1].0));
                    let j = choose|j: int|
                        0 <= j < rest.len() && (#[trigger] rest[j]).0 == inner[b - 1].0;
                    assert(fs[j + 1].0 == inner[b - 1].0);
                } else {
                    let inner = spec_remove(rest, k);
                    assert(out[a] == inner[a - 1] && out[b] == inner[b - 1]);
                }
            }
            assert forall|i: int| 0 <= i < out.len() implies spec_has_key(
                fs,
                (#[trigger] out[i]).0,
            ) by {
                if i == 0 {
                    assert(out[0] == fs[0]);
                } else {
                    let inner = spec_remove(rest, k);
                    assert(out[i] == inner[i - 1]);
                    assert(spec_has_key(rest, inner[i - 1].0));
                    let j = choose|j: int|
                        0 <= j < rest.len() && (#[trigger] rest[j]).0 == inner[i - 1].0;
                    assert(fs[j + 1].0 == inner[i - 1].0);
                }
            }
        }
    }
}

/// Removal keeps keys sorted (wrapper used by remove_field).
proof fn lemma_remove_sorted(fs: Seq<(u8, ValueView)>, k: u8)
    requires
        keys_sorted(fs),
    ensures
        keys_sorted(spec_remove(fs, k)),
        forall|i: int|
            0 <= i < spec_remove(fs, k).len() ==> spec_has_key(
                fs,
                (#[trigger] spec_remove(fs, k)[i]).0,
            ),
{
    lemma_remove_has_key(fs, k, 0);
}

proof fn lemma_cons_has_key(h: (u8, ValueView), t: Seq<(u8, ValueView)>, q: u8)
    ensures
        spec_has_key(seq![h] + t, q) <==> (h.0 == q || spec_has_key(t, q)),
{
    let s = seq![h] + t;
    if h.0 == q {
        assert(s[0].0 == q);
    }
    if spec_has_key(t, q) {
        let j = choose|j: int| 0 <= j < t.len() && (#[trigger] t[j]).0 == q;
        assert(s[j + 1].0 == q);
    }
    if spec_has_key(s, q) {
        let j = choose|j: int| 0 <= j < s.len() && (#[trigger] s[j]).0 == q;
        if j > 0 {
            assert(t[j - 1].0 == q);
        }
    }
}

} // verus!
