//! The argument list of a remote call. On the wire it is one byte with the
//! number of arguments, then one record per argument: a position byte, a
//! type tag, and a body whose length the tag (and, for text, a 32-bit length
//! field) determines.

use vstd::prelude::*;
use crate::bytes::{
    copy_range, i32_to_u32, lemma_i32_bits_inverse, lemma_u32_le_write_read, push_bytes,
    push_u32_le, spec_i32_from_bits, spec_i32_to_bits, spec_u32_at, spec_u32_to_le, u32_at,
    u32_to_i32,
};
use crate::types::DecodeError;

verus! {

pub const TAG_FLOAT: u8 = 1;
pub const TAG_TEXT: u8 = 2;
pub const TAG_VEC2: u8 = 3;
pub const TAG_VEC3: u8 = 4;
pub const TAG_UNSIGNED: u8 = 5;
pub const TAG_SIGNED: u8 = 9;

/// One argument. Floats are kept as bit patterns, text as bytes.
#[derive(Clone, Debug, PartialEq, Eq)]
pub enum Variant {
    Float(u32),
    Text(Vec<u8>),
    Vec2(u32, u32),
    Vec3(u32, u32, u32),
    Unsigned(u32),
    Signed(i32),
}

/// What an argument holds.
pub enum VariantValue {
    Float(u32),
    Text(Seq<u8>),
    Vec2(u32, u32),
    Vec3(u32, u32, u32),
    Unsigned(u32),
    Signed(i32),
}

impl View for Variant {
    type V = VariantValue;

    open spec fn view(&self) -> VariantValue {
        match *self {
            Variant::Float(x) => VariantValue::Float(x),
            Variant::Text(t) => VariantValue::Text(t@),
            Variant::Vec2(x, y) => VariantValue::Vec2(x, y),
            Variant::Vec3(x, y, z) => VariantValue::Vec3(x, y, z),
            Variant::Unsigned(x) => VariantValue::Unsigned(x),
            Variant::Signed(x) => VariantValue::Signed(x),
        }
    }
}

/// The arguments of a call, in order.
#[derive(Clone, Debug, PartialEq, Eq)]
pub struct VariantList {
    pub items: Vec<Variant>,
}

/// What each of the arguments holds.
pub open spec fn spec_values(items: Seq<Variant>) -> Seq<VariantValue> {
    Seq::new(items.len(), |k: int| items[k]@)
}

impl View for VariantList {
    type V = Seq<VariantValue>;

    open spec fn view(&self) -> Seq<VariantValue> {
        spec_values(self.items@)
    }
}

/// `acc` put in front of a successful result; a failure stays.
pub open spec fn spec_prepend(
    acc: Seq<VariantValue>,
    r: Result<Seq<VariantValue>, DecodeError>,
) -> Result<Seq<VariantValue>, DecodeError> {
    match r {
        Ok(rest) => Ok(acc + rest),
        Err(e) => Err(e),
    }
}

/// The record that starts at offset `i` of `s`, with the offset of the
/// next one.
pub open spec fn spec_record_at(s: Seq<u8>, i: int) -> Result<(VariantValue, int), DecodeError> {
    if i + 2 > s.len() {
        Err(DecodeError::RecordOverrun)
    } else {
        let tag = s[i + 1];
        if tag == TAG_FLOAT {
            if i + 6 > s.len() {
                Err(DecodeError::RecordOverrun)
            } else {
                Ok((VariantValue::Float(spec_u32_at(s, i + 2)), i + 6))
            }
        } else if tag == TAG_TEXT {
            if i + 6 > s.len() || i + 6 + spec_u32_at(s, i + 2) > s.len() {
                Err(DecodeError::RecordOverrun)
            } else {
                let end = i + 6 + spec_u32_at(s, i + 2);
                Ok((VariantValue::Text(s.subrange(i + 6, end)), end))
            }
        } else if tag == TAG_VEC2 {
            if i + 10 > s.len() {
                Err(DecodeError::RecordOverrun)
            } else {
                Ok((VariantValue::Vec2(spec_u32_at(s, i + 2), spec_u32_at(s, i + 6)), i + 10))
            }
        } else if tag == TAG_VEC3 {
            if i + 14 > s.len() {
                Err(DecodeError::RecordOverrun)
            } else {
                Ok(
                    (
                        VariantValue::Vec3(
                            spec_u32_at(s, i + 2),
                            spec_u32_at(s, i + 6),
                            spec_u32_at(s, i + 10),
                        ),
                        i + 14,
                    ),
                )
            }
        } else if tag == TAG_UNSIGNED {
            if i + 6 > s.len() {
                Err(DecodeError::RecordOverrun)
            } else {
                Ok((VariantValue::Unsigned(spec_u32_at(s, i + 2)), i + 6))
            }
        } else if tag == TAG_SIGNED {
            if i + 6 > s.len() {
                Err(DecodeError::RecordOverrun)
            } else {
                Ok((VariantValue::Signed(spec_i32_from_bits(spec_u32_at(s, i + 2))), i + 6))
            }
        } else {
            Err(DecodeError::UnknownTag)
        }
    }
}

/// The records of `s` from offset `i` to its end, or the first failure.
pub open spec fn spec_records_from(s: Seq<u8>, i: int) -> Result<Seq<VariantValue>, DecodeError>
    decreases s.len() - i,
{
    if i < 0 || i >= s.len() {
        Ok(Seq::empty())
    } else {
        match spec_record_at(s, i) {
            Err(e) => Err(e),
            Ok((v, next)) => if next > i {
                spec_prepend(seq![v], spec_records_from(s, next))
            } else {
                Err(DecodeError::RecordOverrun)
            },
        }
    }
}

/// The list that a payload spells: the count byte, then records to the end
/// of the payload, as many as the count says.
pub open spec fn spec_deserialize(s: Seq<u8>) -> Result<Seq<VariantValue>, DecodeError> {
    if s.len() == 0 {
        Err(DecodeError::Truncated)
    } else {
        match spec_records_from(s, 1) {
            Err(e) => Err(e),
            Ok(l) => if l.len() == s[0] as nat {
                Ok(l)
            } else {
                Err(DecodeError::CountMismatch)
            },
        }
    }
}

/// The bytes of the record for the argument `v` at position `k`.
pub open spec fn spec_record_bytes(k: int, v: VariantValue) -> Seq<u8> {
    match v {
        VariantValue::Float(x) => seq![k as u8, TAG_FLOAT] + spec_u32_to_le(x),
        VariantValue::Text(t) => seq![k as u8, TAG_TEXT] + spec_u32_to_le(t.len() as u32) + t,
        VariantValue::Vec2(x, y) => seq![k as u8, TAG_VEC2] + spec_u32_to_le(x) + spec_u32_to_le(y),
        VariantValue::Vec3(x, y, z) => seq![k as u8, TAG_VEC3] + spec_u32_to_le(x)
            + spec_u32_to_le(y) + spec_u32_to_le(z),
        VariantValue::Unsigned(x) => seq![k as u8, TAG_UNSIGNED] + spec_u32_to_le(x),
        VariantValue::Signed(x) => seq![k as u8, TAG_SIGNED] + spec_u32_to_le(spec_i32_to_bits(x)),
    }
}

/// The records of the arguments from position `k` on, back to back.
pub open spec fn spec_records_bytes(l: Seq<VariantValue>, k: int) -> Seq<u8>
    decreases l.len() - k,
{
    if k < 0 || k >= l.len() {
        Seq::empty()
    } else {
        spec_record_bytes(k, l[k]) + spec_records_bytes(l, k + 1)
    }
}

/// The payload that spells a list.
pub open spec fn spec_serialize(l: Seq<VariantValue>) -> Seq<u8> {
    seq![l.len() as u8] + spec_records_bytes(l, 0)
}

/// Whether a value fits a record: a text must fit the 32-bit length field.
pub open spec fn spec_value_encodable(v: VariantValue) -> bool {
    match v {
        VariantValue::Text(t) => t.len() <= 0xFFFF_FFFF,
        _ => true,
    }
}

/// Whether a list can be written: at most 255 arguments, each fitting.
pub open spec fn spec_encodable(l: Seq<VariantValue>) -> bool {
    l.len() <= 255 && forall|k: int| 0 <= k < l.len() ==> spec_value_encodable(#[trigger] l[k])
}

/// Whether a decoded list and its model agree: the same arguments, or the
/// same error.
pub open spec fn spec_agrees(
    r: Result<VariantList, DecodeError>,
    m: Result<Seq<VariantValue>, DecodeError>,
) -> bool {
    match (r, m) {
        (Ok(a), Ok(b)) => a@ == b,
        (Err(e), Err(f)) => e == f,
        _ => false,
    }
}

proof fn lemma_prepend_step(
    acc: Seq<VariantValue>,
    v: VariantValue,
    r: Result<Seq<VariantValue>, DecodeError>,
)
    ensures
        spec_prepend(acc, spec_prepend(seq![v], r)) == spec_prepend(acc.push(v), r),
{
    match r {
        Ok(rest) => {
            assert(acc + (seq![v] + rest) =~= acc.push(v) + rest);
        },
        Err(_) => {},
    }
}

/// Reads the record at offset `i`.
fn read_record(data: &[u8], i: usize) -> (r: Result<(Variant, usize), DecodeError>)
    requires
        i < data@.len(),
    ensures
        match (r, spec_record_at(data@, i as int)) {
            (Ok((v, n)), Ok((w, m))) => v@ == w && n == m && i < n <= data@.len(),
            (Err(e), Err(f)) => e == f,
            _ => false,
        },
{
    let len: usize = data.len();
    let room: usize = len - i;
    if room < 2 {
        return Err(DecodeError::RecordOverrun);
    }
    let tag: u8 = data[i + 1];
    if tag == TAG_FLOAT {
        if room < 6 {
            return Err(DecodeError::RecordOverrun);
        }
        Ok((Variant::Float(u32_at(data, i + 2)), i + 6))
    } else if tag == TAG_TEXT {
        if room < 6 {
            return Err(DecodeError::RecordOverrun);
        }
        let n: u32 = u32_at(data, i + 2);
        if n as usize > room - 6 {
            return Err(DecodeError::RecordOverrun);
        }
        let end: usize = i + 6 + n as usize;
        Ok((Variant::Text(copy_range(data, i + 6, end)), end))
    } else if tag == TAG_VEC2 {
        if room < 10 {
            return Err(DecodeError::RecordOverrun);
        }
        Ok((Variant::Vec2(u32_at(data, i + 2), u32_at(data, i + 6)), i + 10))
    } else if tag == TAG_VEC3 {
        if room < 14 {
            return Err(DecodeError::RecordOverrun);
        }
        Ok((Variant::Vec3(u32_at(data, i + 2), u32_at(data, i + 6), u32_at(data, i + 10)), i + 14))
    } else if tag == TAG_UNSIGNED {
        if room < 6 {
            return Err(DecodeError::RecordOverrun);
        }
        Ok((Variant::Unsigned(u32_at(data, i + 2)), i + 6))
    } else if tag == TAG_SIGNED {
        if room < 6 {
            return Err(DecodeError::RecordOverrun);
        }
        Ok((Variant::Signed(u32_to_i32(u32_at(data, i + 2))), i + 6))
    } else {
        Err(DecodeError::UnknownTag)
    }
}

/// Appends the record for `v` at position `k`.
fn write_record(out: &mut Vec<u8>, k: u8, v: &Variant)
    requires
        spec_value_encodable(v@),
    ensures
        final(out)@ == old(out)@ + spec_record_bytes(k as int, v@),
{
    let ghost before = out@;
    out.push(k);
    match v {
        Variant::Float(x) => {
            out.push(TAG_FLOAT);
            push_u32_le(out, *x);
        },
        Variant::Text(t) => {
            out.push(TAG_TEXT);
            push_u32_le(out, t.len() as u32);
            push_bytes(out, t.as_slice());
        },
        Variant::Vec2(x, y) => {
            out.push(TAG_VEC2);
            push_u32_le(out, *x);
            push_u32_le(out, *y);
        },
        Variant::Vec3(x, y, z) => {
            out.push(TAG_VEC3);
            push_u32_le(out, *x);
            push_u32_le(out, *y);
            push_u32_le(out, *z);
        },
        Variant::Unsigned(x) => {
            out.push(TAG_UNSIGNED);
            push_u32_le(out, *x);
        },
        Variant::Signed(x) => {
            out.push(TAG_SIGNED);
            push_u32_le(out, i32_to_u32(*x));
        },
    }
    assert(out@ =~= before + spec_record_bytes(k as int, v@));
}

impl Variant {
    /// The text of a text argument; any other kind is an error.
    pub fn as_string(&self) -> (r: Result<Vec<u8>, DecodeError>)
        ensures
            match self@ {
                VariantValue::Text(t) => r is Ok && r->Ok_0@ == t,
                _ => r == Err::<Vec<u8>, DecodeError>(DecodeError::BadArgument),
            },
    {
        match self {
            Variant::Text(t) => Ok(copy_range(t.as_slice(), 0, t.len())),
            _ => Err(DecodeError::BadArgument),
        }
    }

    /// The value of a signed argument; any other kind is an error.
    pub fn as_int32(&self) -> (r: Result<i32, DecodeError>)
        ensures
            match self@ {
                VariantValue::Signed(x) => r == Ok::<i32, DecodeError>(x),
                _ => r == Err::<i32, DecodeError>(DecodeError::BadArgument),
            },
    {
        match self {
            Variant::Signed(x) => Ok(*x),
            _ => Err(DecodeError::BadArgument),
        }
    }

    /// The value of an unsigned argument; any other kind is an error.
    pub fn as_uint32(&self) -> (r: Result<u32, DecodeError>)
        ensures
            match self@ {
                VariantValue::Unsigned(x) => r == Ok::<u32, DecodeError>(x),
                _ => r == Err::<u32, DecodeError>(DecodeError::BadArgument),
            },
    {
        match self {
            Variant::Unsigned(x) => Ok(*x),
            _ => Err(DecodeError::BadArgument),
        }
    }

    /// The bit pattern of a float argument; any other kind is an error.
    pub fn as_float_bits(&self) -> (r: Result<u32, DecodeError>)
        ensures
            match self@ {
                VariantValue::Float(x) => r == Ok::<u32, DecodeError>(x),
                _ => r == Err::<u32, DecodeError>(DecodeError::BadArgument),
            },
    {
        match self {
            Variant::Float(x) => Ok(*x),
            _ => Err(DecodeError::BadArgument),
        }
    }
}

impl VariantList {
    /// Decodes a call payload. Succeeds exactly on a count byte followed by
    /// that many well-formed records and nothing else.
    pub fn deserialize(data: &[u8]) -> (r: Result<VariantList, DecodeError>)
        ensures
            spec_agrees(r, spec_deserialize(data@)),
    {
        if data.len() == 0 {
            return Err(DecodeError::Truncated);
        }
        let mut items: Vec<Variant> = Vec::new();
        let mut i: usize = 1;
        assert(spec_values(items@) + Seq::<VariantValue>::empty() =~= Seq::<VariantValue>::empty());
        proof {
            match spec_records_from(data@, 1) {
                Ok(rest) => {
                    assert(spec_values(items@) + rest =~= rest);
                },
                Err(_) => {},
            }
        }
        while i < data.len()
            invariant
                1 <= i <= data@.len(),
                spec_records_from(data@, 1) == spec_prepend(
                    spec_values(items@),
                    spec_records_from(data@, i as int),
                ),
            decreases data@.len() - i,
        {
            match read_record(data, i) {
                Err(e) => {
                    return Err(e);
                },
                Ok((v, next)) => {
                    proof {
                        lemma_prepend_step(
                            spec_values(items@),
                            v@,
                            spec_records_from(data@, next as int),
                        );
                        assert(spec_values(items@.push(v)) =~= spec_values(items@).push(v@));
                    }
                    items.push(v);
                    i = next;
                },
            }
        }
        assert(spec_values(items@) + Seq::<VariantValue>::empty() =~= spec_values(items@));
        if items.len() != data[0] as usize {
            return Err(DecodeError::CountMismatch);
        }
        Ok(VariantList { items })
    }

    /// Encodes the list, each record carrying its position. `None` when the
    /// list has more than 255 arguments or a text too long for its length
    /// field.
    pub fn serialize(&self) -> (r: Option<Vec<u8>>)
        ensures
            spec_encodable(self@) ==> r is Some && r->Some_0@ == spec_serialize(self@),
            !spec_encodable(self@) ==> r is None,
    {
        let n: usize = self.items.len();
        if n > 255 {
            return None;
        }
        let mut out: Vec<u8> = Vec::new();
        out.push(n as u8);
        let mut k: usize = 0;
        while k < n
            invariant
                k <= n == self.items@.len(),
                n <= 255,
                forall|j: int| 0 <= j < k ==> spec_value_encodable(#[trigger] self@[j]),
                out@ + spec_records_bytes(self@, k as int) == spec_serialize(self@),
            decreases n - k,
        {
            let v: &Variant = &self.items[k];
            let fits: bool = match v {
                Variant::Text(t) => t.len() <= 0xFFFF_FFFF,
                _ => true,
            };
            if !fits {
                assert(!spec_value_encodable(self@[k as int]));
                return None;
            }
            let ghost before = out@;
            write_record(&mut out, k as u8, v);
            assert(out@ + spec_records_bytes(self@, k + 1) =~= before + spec_records_bytes(
                self@,
                k as int,
            ));
            k += 1;
        }
        assert(out@ + Seq::<u8>::empty() =~= out@);
        Some(out)
    }

    /// The number of arguments.
    pub fn len(&self) -> (r: usize)
        ensures
            r == self@.len(),
    {
        self.items.len()
    }

    /// The argument at `index`, if the list is that long.
    pub fn get(&self, index: usize) -> (r: Option<&Variant>)
        ensures
            index < self@.len() ==> r is Some && r->Some_0@ == self@[index as int],
            index >= self@.len() ==> r is None,
    {
        if index < self.items.len() {
            Some(&self.items[index])
        } else {
            None
        }
    }
}

/// A list that was written is read back as it was: the same arguments, of
/// the same kinds, in the same order.
pub proof fn lemma_serialize_deserialize(l: Seq<VariantValue>)
    requires
        spec_encodable(l),
    ensures
        spec_deserialize(spec_serialize(l)) == Ok::<Seq<VariantValue>, DecodeError>(l),
{
    let pre = seq![l.len() as u8];
    lemma_records_round_trip(pre, l, 0);
    assert(l.subrange(0, l.len() as int) =~= l);
}

/// Every value read from a payload fits a record again.
pub proof fn lemma_records_encodable(s: Seq<u8>, i: int)
    ensures
        spec_records_from(s, i) is Ok ==> forall|k: int|
            0 <= k < spec_records_from(s, i)->Ok_0.len() ==> spec_value_encodable(
                #[trigger] spec_records_from(s, i)->Ok_0[k],
            ),
    decreases s.len() - i,
{
    if 0 <= i < s.len() {
        match spec_record_at(s, i) {
            Err(_) => {},
            Ok((v, next)) => {
                if next > i {
                    lemma_records_encodable(s, next);
                    assert(spec_value_encodable(v));
                }
            },
        }
    }
}

/// A payload that decodes can be written again from the list it gave, and
/// what is written decodes to that same list: the arguments keep their
/// order, their kinds and their values.
pub proof fn lemma_deserialize_reserialize(s: Seq<u8>)
    requires
        spec_deserialize(s) is Ok,
    ensures
        spec_encodable(spec_deserialize(s)->Ok_0),
        spec_deserialize(spec_serialize(spec_deserialize(s)->Ok_0)) == spec_deserialize(s),
{
    lemma_records_encodable(s, 1);
    lemma_serialize_deserialize(spec_deserialize(s)->Ok_0);
}

/// Records written behind any prefix are read back from the end of that
/// prefix.
pub proof fn lemma_records_round_trip(pre: Seq<u8>, l: Seq<VariantValue>, k: int)
    requires
        spec_encodable(l),
        0 <= k <= l.len(),
    ensures
        spec_records_from(pre + spec_records_bytes(l, k), pre.len() as int) == Ok::<
            Seq<VariantValue>,
            DecodeError,
        >(l.subrange(k, l.len() as int)),
    decreases l.len() - k,
{
    let s = pre + spec_records_bytes(l, k);
    let i = pre.len() as int;
    if k >= l.len() {
        assert(s =~= pre);
        assert(l.subrange(k, l.len() as int) =~= Seq::<VariantValue>::empty());
    } else {
        let v = l[k];
        let rec = spec_record_bytes(k, v);
        let rest = spec_records_bytes(l, k + 1);
        assert(spec_value_encodable(v));
        lemma_record_round_trip(pre, k, v, rest);
        assert(s =~= pre + rec + rest);
        lemma_records_round_trip(pre + rec, l, k + 1);
        assert(pre + rec + rest =~= (pre + rec) + rest);
        assert(seq![v] + l.subrange(k + 1, l.len() as int) =~= l.subrange(k, l.len() as int));
    }
}

/// One record written behind a prefix is read back from the end of that
/// prefix, whatever follows it.
pub proof fn lemma_record_round_trip(pre: Seq<u8>, k: int, v: VariantValue, rest: Seq<u8>)
    requires
        spec_value_encodable(v),
    ensures
        spec_record_bytes(k, v).len() >= 6,
        spec_record_at(pre + spec_record_bytes(k, v) + rest, pre.len() as int) == Ok::<
            (VariantValue, int),
            DecodeError,
        >((v, (pre.len() + spec_record_bytes(k, v).len()) as int)),
{
    let rec = spec_record_bytes(k, v);
    let s = pre + rec + rest;
    let i = pre.len() as int;
    match v {
        VariantValue::Float(x) => {
            lemma_u32_le_write_read(x);
            assert(s.subrange(i + 2, i + 6) =~= spec_u32_to_le(x));
        },
        VariantValue::Text(t) => {
            lemma_u32_le_write_read(t.len() as u32);
            assert(s.subrange(i + 2, i + 6) =~= spec_u32_to_le(t.len() as u32));
            assert(s.subrange(i + 6, i + 6 + t.len()) =~= t);
        },
        VariantValue::Vec2(x, y) => {
            lemma_u32_le_write_read(x);
            lemma_u32_le_write_read(y);
            assert(s.subrange(i + 2, i + 6) =~= spec_u32_to_le(x));
            assert(s.subrange(i + 6, i + 10) =~= spec_u32_to_le(y));
        },
        VariantValue::Vec3(x, y, z) => {
            lemma_u32_le_write_read(x);
            lemma_u32_le_write_read(y);
            lemma_u32_le_write_read(z);
            assert(s.subrange(i + 2, i + 6) =~= spec_u32_to_le(x));
            assert(s.subrange(i + 6, i + 10) =~= spec_u32_to_le(y));
            assert(s.subrange(i + 10, i + 14) =~= spec_u32_to_le(z));
        },
        VariantValue::Unsigned(x) => {
            lemma_u32_le_write_read(x);
            assert(s.subrange(i + 2, i + 6) =~= spec_u32_to_le(x));
        },
        VariantValue::Signed(x) => {
            lemma_u32_le_write_read(spec_i32_to_bits(x));
            lemma_i32_bits_inverse(0, x);
            assert(s.subrange(i + 2, i + 6) =~= spec_u32_to_le(spec_i32_to_bits(x)));
        },
    }
}

} // verus!
