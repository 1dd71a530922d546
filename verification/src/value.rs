//! Reply values and their encoding into one buffer.
//!
//! A reply is a tree. Its encoding is a root record and a buffer; a record is
//! a kind, a data word and a length. What does not fit the data word lies in
//! the buffer, and the data word is then its offset there: the bytes of a
//! string, or the records of the elements of a sequence. The pieces of a
//! value lie in the buffer in the order of a walk that visits the elements of
//! a sequence first, each with all that belongs to it, and then lays down
//! their records side by side.

use crate::buffering::FFIBuffer;
use vstd::bytes::{spec_u64_to_le_bytes, u64_to_le_bytes};
use vstd::prelude::*;
use vstd::string::{StrSliceExecFns, StringSliceAdditionalSpecFns};
use vstd::utf8::encode_utf8;

verus! {

/// A reply of the data store, as the client hands it over.
#[derive(Debug, PartialEq, Eq)]
pub enum ReplyValue {
    /// No value.
    Nil,
    /// An integer.
    Int(i64),
    /// A binary-safe string.
    BulkString(Vec<u8>),
    /// An ordered sequence of values.
    Array(Vec<ReplyValue>),
    /// A short text without line breaks.
    SimpleString(String),
    /// The status reply "OK".
    Okay,
    /// An ordered sequence of keys, each with its value.
    Pairs(Vec<(ReplyValue, ReplyValue)>),
    /// A set of values, in the order in which they arrived.
    Members(Vec<ReplyValue>),
    /// The IEEE 754 bit pattern of a double-precision number.
    Double(u64),
    /// A truth value.
    Boolean(bool),
    /// A text that came with a format mark; the text alone is kept.
    VerbatimString(String),
    /// An integer too large for 64 bits, as its decimal digits.
    BigNumber(Vec<u8>),
}

/// The kind of an encoded value.
#[derive(Clone, Copy, Debug, PartialEq, Eq, Structural)]
pub enum ValueKind {
    Nil,
    Int,
    BulkString,
    Array,
    SimpleString,
    Okay,
    Pairs,
    Members,
    Double,
    Boolean,
    VerbatimString,
    BigNumber,
}

/// One record of an encoded value.
///
/// `data` holds the value itself for an integer (its 64 bits), a double (its
/// bit pattern) and a truth value (1 or 0). For a string it is the offset of
/// the bytes in the buffer and `length` their count. For an array and a set
/// it is the offset of the records of the elements and `length` their count.
/// For a map it is the offset of the records of the entries, key before
/// value, and `length` the count of entries.
#[derive(Clone, Copy, Debug, PartialEq, Eq, Structural)]
pub struct Value {
    pub kind: ValueKind,
    pub data: u64,
    pub length: u64,
}

/// Why a reply could not be encoded.
#[derive(Clone, Copy, Debug, PartialEq, Eq, Structural)]
pub enum EncodeError {
    /// The encoding needs more bytes than the buffer can hold.
    TooLarge,
}

impl ValueKind {
    /// The number that stands for the kind in a record.
    pub open spec fn code(self) -> u64 {
        match self {
            ValueKind::Nil => 0,
            ValueKind::Int => 1,
            ValueKind::BulkString => 2,
            ValueKind::Array => 3,
            ValueKind::SimpleString => 4,
            ValueKind::Okay => 5,
            ValueKind::Pairs => 6,
            ValueKind::Members => 7,
            ValueKind::Double => 8,
            ValueKind::Boolean => 9,
            ValueKind::VerbatimString => 10,
            ValueKind::BigNumber => 11,
        }
    }
}

impl Value {
    /// A record in the buffer: kind, data and length, each as eight bytes,
    /// least significant first.
    pub open spec fn bytes(self) -> Seq<u8> {
        spec_u64_to_le_bytes(self.kind.code()) + spec_u64_to_le_bytes(self.data)
            + spec_u64_to_le_bytes(self.length)
    }
}

/// The bytes that the first `n` values of a sequence need in the buffer.
pub open spec fn items_size(items: Seq<ReplyValue>, n: int) -> nat
    decreases items, n,
{
    if 0 < n <= items.len() {
        items_size(items, n - 1) + items[n - 1].payload_size()
    } else {
        0
    }
}

/// The bytes that the first `n` entries of a map need in the buffer.
pub open spec fn pairs_size(pairs: Seq<(ReplyValue, ReplyValue)>, n: int) -> nat
    decreases pairs, n,
{
    if 0 < n <= pairs.len() {
        pairs_size(pairs, n - 1) + pairs[n - 1].0.payload_size() + pairs[n - 1].1.payload_size()
    } else {
        0
    }
}

/// What the first `n` values of a sequence lay into the buffer from offset
/// `base` on, one after the other.
pub open spec fn items_payload(items: Seq<ReplyValue>, n: int, base: int) -> Seq<u8>
    decreases items, n,
{
    if 0 < n <= items.len() {
        items_payload(items, n - 1, base) + items[n - 1].payload(base + items_size(items, n - 1))
    } else {
        Seq::empty()
    }
}

/// The records of the first `n` values of a sequence that was laid into the
/// buffer from offset `base` on, side by side.
pub open spec fn items_records(items: Seq<ReplyValue>, n: int, base: int) -> Seq<u8>
    decreases items, n,
{
    if 0 < n <= items.len() {
        items_records(items, n - 1, base) + items[n - 1].record(
            base + items_size(items, n - 1),
        ).bytes()
    } else {
        Seq::empty()
    }
}

/// What the first `n` entries of a map lay into the buffer from offset `base`
/// on: each key, then its value.
pub open spec fn pairs_payload(pairs: Seq<(ReplyValue, ReplyValue)>, n: int, base: int) -> Seq<u8>
    decreases pairs, n,
{
    if 0 < n <= pairs.len() {
        let at = base + pairs_size(pairs, n - 1);
        pairs_payload(pairs, n - 1, base) + pairs[n - 1].0.payload(at) + pairs[n - 1].1.payload(
            at + pairs[n - 1].0.payload_size(),
        )
    } else {
        Seq::empty()
    }
}

/// The records of the first `n` entries of a map that was laid into the
/// buffer from offset `base` on: for each entry the record of the key, then
/// that of the value.
pub open spec fn pairs_records(pairs: Seq<(ReplyValue, ReplyValue)>, n: int, base: int) -> Seq<u8>
    decreases pairs, n,
{
    if 0 < n <= pairs.len() {
        let at = base + pairs_size(pairs, n - 1);
        pairs_records(pairs, n - 1, base) + pairs[n - 1].0.record(at).bytes() + pairs[n
            - 1].1.record(at + pairs[n - 1].0.payload_size()).bytes()
    } else {
        Seq::empty()
    }
}

impl ReplyValue {
    /// The kind of the record that stands for this reply.
    pub open spec fn kind(self) -> ValueKind {
        match self {
            ReplyValue::Nil => ValueKind::Nil,
            ReplyValue::Int(_) => ValueKind::Int,
            ReplyValue::BulkString(_) => ValueKind::BulkString,
            ReplyValue::Array(_) => ValueKind::Array,
            ReplyValue::SimpleString(_) => ValueKind::SimpleString,
            ReplyValue::Okay => ValueKind::Okay,
            ReplyValue::Pairs(_) => ValueKind::Pairs,
            ReplyValue::Members(_) => ValueKind::Members,
            ReplyValue::Double(_) => ValueKind::Double,
            ReplyValue::Boolean(_) => ValueKind::Boolean,
            ReplyValue::VerbatimString(_) => ValueKind::VerbatimString,
            ReplyValue::BigNumber(_) => ValueKind::BigNumber,
        }
    }

    /// The bytes that this reply needs in the buffer, beyond its own record.
    pub open spec fn payload_size(self) -> nat
        decreases self, 0nat,
    {
        match self {
            ReplyValue::BulkString(b) => b@.len(),
            ReplyValue::BigNumber(b) => b@.len(),
            ReplyValue::SimpleString(s) => encode_utf8(s@).len(),
            ReplyValue::VerbatimString(s) => encode_utf8(s@).len(),
            ReplyValue::Array(items) => items_size(items@, items@.len() as int) + 24
                * items@.len(),
            ReplyValue::Members(items) => items_size(items@, items@.len() as int) + 24
                * items@.len(),
            ReplyValue::Pairs(pairs) => pairs_size(pairs@, pairs@.len() as int) + 48
                * pairs@.len(),
            _ => 0,
        }
    }

    /// What this reply lays into the buffer when its first byte lands at
    /// offset `base`.
    pub open spec fn payload(self, base: int) -> Seq<u8>
        decreases self, 0nat,
    {
        match self {
            ReplyValue::BulkString(b) => b@,
            ReplyValue::BigNumber(b) => b@,
            ReplyValue::SimpleString(s) => encode_utf8(s@),
            ReplyValue::VerbatimString(s) => encode_utf8(s@),
            ReplyValue::Array(items) => items_payload(items@, items@.len() as int, base)
                + items_records(items@, items@.len() as int, base),
            ReplyValue::Members(items) => items_payload(items@, items@.len() as int, base)
                + items_records(items@, items@.len() as int, base),
            ReplyValue::Pairs(pairs) => pairs_payload(pairs@, pairs@.len() as int, base)
                + pairs_records(pairs@, pairs@.len() as int, base),
            _ => Seq::empty(),
        }
    }

    /// The record that stands for this reply when what it lays into the
    /// buffer starts at offset `base`.
    pub open spec fn record(self, base: int) -> Value {
        match self {
            ReplyValue::Nil => Value { kind: ValueKind::Nil, data: 0, length: 0 },
            ReplyValue::Okay => Value { kind: ValueKind::Okay, data: 0, length: 0 },
            ReplyValue::Int(v) => Value { kind: ValueKind::Int, data: v as u64, length: 0 },
            ReplyValue::Double(bits) => Value { kind: ValueKind::Double, data: bits, length: 0 },
            ReplyValue::Boolean(v) => Value {
                kind: ValueKind::Boolean,
                data: if v {
                    1
                } else {
                    0
                },
                length: 0,
            },
            ReplyValue::BulkString(b) => Value {
                kind: ValueKind::BulkString,
                data: base as u64,
                length: b@.len() as u64,
            },
            ReplyValue::BigNumber(b) => Value {
                kind: ValueKind::BigNumber,
                data: base as u64,
                length: b@.len() as u64,
            },
            ReplyValue::SimpleString(s) => Value {
                kind: ValueKind::SimpleString,
                data: base as u64,
                length: encode_utf8(s@).len() as u64,
            },
            ReplyValue::VerbatimString(s) => Value {
                kind: ValueKind::VerbatimString,
                data: base as u64,
                length: encode_utf8(s@).len() as u64,
            },
            ReplyValue::Array(items) => Value {
                kind: ValueKind::Array,
                data: (base + items_size(items@, items@.len() as int)) as u64,
                length: items@.len() as u64,
            },
            ReplyValue::Members(items) => Value {
                kind: ValueKind::Members,
                data: (base + items_size(items@, items@.len() as int)) as u64,
                length: items@.len() as u64,
            },
            ReplyValue::Pairs(pairs) => Value {
                kind: ValueKind::Pairs,
                data: (base + pairs_size(pairs@, pairs@.len() as int)) as u64,
                length: pairs@.len() as u64,
            },
        }
    }
}

/// A longer run of values needs no fewer bytes than a shorter one.
proof fn lemma_items_size_monotonic(items: Seq<ReplyValue>, i: int, n: int)
    requires
        0 <= i <= n <= items.len(),
    ensures
        items_size(items, i) <= items_size(items, n),
    decreases n - i,
{
    if i < n {
        lemma_items_size_monotonic(items, i, n - 1);
    }
}

/// A longer run of entries needs no fewer bytes than a shorter one.
proof fn lemma_pairs_size_monotonic(pairs: Seq<(ReplyValue, ReplyValue)>, i: int, n: int)
    requires
        0 <= i <= n <= pairs.len(),
    ensures
        pairs_size(pairs, i) <= pairs_size(pairs, n),
    decreases n - i,
{
    if i < n {
        lemma_pairs_size_monotonic(pairs, i, n - 1);
    }
}

impl ValueKind {
    /// The number that stands for the kind in a record.
    pub fn to_code(&self) -> (res: u64)
        ensures
            res == self.code(),
    {
        match self {
            ValueKind::Nil => 0,
            ValueKind::Int => 1,
            ValueKind::BulkString => 2,
            ValueKind::Array => 3,
            ValueKind::SimpleString => 4,
            ValueKind::Okay => 5,
            ValueKind::Pairs => 6,
            ValueKind::Members => 7,
            ValueKind::Double => 8,
            ValueKind::Boolean => 9,
            ValueKind::VerbatimString => 10,
            ValueKind::BigNumber => 11,
        }
    }
}

/// Lays the bytes of a string into the buffer and makes its record.
fn string_record(kind: ValueKind, bytes: &[u8], buffer: &mut FFIBuffer) -> (res: Result<
    Value,
    EncodeError,
>)
    requires
        old(buffer).wf(),
    ensures
        final(buffer).wf(),
        final(buffer).is_writing() == old(buffer).is_writing(),
        final(buffer).is_writing() ==> final(buffer).size() == old(buffer).size(),
        match res {
            Ok(record) => {
                &&& old(buffer).used() + bytes@.len() <= old(buffer).capacity()
                &&& record == Value {
                    kind,
                    data: old(buffer).used() as u64,
                    length: bytes@.len() as u64,
                }
                &&& final(buffer).used() == old(buffer).used() + bytes@.len()
                &&& final(buffer).is_writing() ==> final(buffer).written() == old(
                    buffer,
                ).written() + bytes@
            },
            Err(_) => old(buffer).used() + bytes@.len() > old(buffer).capacity(),
        },
{
    match buffer.append(bytes) {
        Some(offset) => Ok(Value { kind, data: offset as u64, length: bytes.len() as u64 }),
        None => Err(EncodeError::TooLarge),
    }
}

/// Lays the values of a sequence into the buffer, then their records, and
/// hands back the offset of the first record.
fn encode_items(items: &Vec<ReplyValue>, buffer: &mut FFIBuffer) -> (res: Result<
    usize,
    EncodeError,
>)
    requires
        old(buffer).wf(),
    ensures
        final(buffer).wf(),
        final(buffer).is_writing() == old(buffer).is_writing(),
        final(buffer).is_writing() ==> final(buffer).size() == old(buffer).size(),
        match res {
            Ok(offset) => {
                &&& old(buffer).used() + items_size(items@, items@.len() as int) + 24
                    * items@.len() <= old(buffer).capacity()
                &&& offset == old(buffer).used() + items_size(items@, items@.len() as int)
                &&& final(buffer).used() == old(buffer).used() + items_size(
                    items@,
                    items@.len() as int,
                ) + 24 * items@.len()
                &&& final(buffer).is_writing() ==> final(buffer).written() == old(
                    buffer,
                ).written() + items_payload(
                    items@,
                    items@.len() as int,
                    old(buffer).used() as int,
                ) + items_records(items@, items@.len() as int, old(buffer).used() as int)
            },
            Err(_) => old(buffer).used() + items_size(items@, items@.len() as int) + 24
                * items@.len() > old(buffer).capacity(),
        },
    decreases items,
{
    let n = items.len();
    let ghost start = buffer.used() as int;
    let ghost before = buffer.written();
    let mut records: Vec<Value> = Vec::with_capacity(n);
    let mut i: usize = 0;
    while i < n
        invariant
            buffer.wf(),
            buffer.is_writing() == old(buffer).is_writing(),
            buffer.is_writing() ==> buffer.size() == old(buffer).size(),
            start == old(buffer).used(),
            before == old(buffer).written(),
            n == items@.len(),
            i <= n,
            records@.len() == i,
            buffer.used() == start + items_size(items@, i as int),
            buffer.is_writing() ==> buffer.written() == before + items_payload(
                items@,
                i as int,
                start,
            ),
            forall|j: int|
                0 <= j < i ==> #[trigger] records@[j] == items@[j].record(
                    start + items_size(items@, j),
                ),
        decreases n - i,
    {
        let ghost so_far = buffer.written();
        match Value::from_redis(&items[i], buffer) {
            Ok(record) => {
                records.push(record);
                assert(buffer.is_writing() ==> buffer.written() =~= before + items_payload(
                    items@,
                    i + 1,
                    start,
                ));
            },
            Err(e) => {
                proof {
                    lemma_items_size_monotonic(items@, i + 1, n as int);
                }
                return Err(e);
            },
        }
        i += 1;
    }
    let offset = buffer.position();
    let ghost laid = buffer.written();
    let mut j: usize = 0;
    while j < n
        invariant
            buffer.wf(),
            buffer.is_writing() == old(buffer).is_writing(),
            buffer.is_writing() ==> buffer.size() == old(buffer).size(),
            start == old(buffer).used(),
            n == items@.len(),
            j <= n,
            records@.len() == n,
            offset == start + items_size(items@, n as int),
            buffer.used() == offset + 24 * j,
            buffer.is_writing() ==> laid == old(buffer).written() + items_payload(
                items@,
                n as int,
                start,
            ),
            buffer.is_writing() ==> buffer.written() == laid + items_records(
                items@,
                j as int,
                start,
            ),
            forall|k: int|
                0 <= k < n ==> #[trigger] records@[k] == items@[k].record(
                    start + items_size(items@, k),
                ),
        decreases n - j,
    {
        let piece = records[j].to_bytes();
        match buffer.append(piece.as_slice()) {
            Some(_) => {
                assert(buffer.is_writing() ==> buffer.written() =~= laid + items_records(
                    items@,
                    j + 1,
                    start,
                ));
            },
            None => {
                return Err(EncodeError::TooLarge);
            },
        }
        j += 1;
    }
    proof {
        buffer.lemma_used_within_capacity();
    }
    assert(buffer.is_writing() ==> buffer.written() =~= old(buffer).written() + items_payload(
        items@,
        n as int,
        start,
    ) + items_records(items@, n as int, start));
    Ok(offset)
}

/// Lays one entry of a map into the buffer, the key before the value, and
/// hands back the records of both.
fn encode_pair(pair: &(ReplyValue, ReplyValue), buffer: &mut FFIBuffer) -> (res: Result<
    (Value, Value),
    EncodeError,
>)
    requires
        old(buffer).wf(),
    ensures
        final(buffer).wf(),
        final(buffer).is_writing() == old(buffer).is_writing(),
        final(buffer).is_writing() ==> final(buffer).size() == old(buffer).size(),
        match res {
            Ok(records) => {
                &&& old(buffer).used() + pair.0.payload_size() + pair.1.payload_size() <= old(
                    buffer,
                ).capacity()
                &&& records.0 == pair.0.record(old(buffer).used() as int)
                &&& records.1 == pair.1.record((old(buffer).used() + pair.0.payload_size()) as int)
                &&& final(buffer).used() == old(buffer).used() + pair.0.payload_size()
                    + pair.1.payload_size()
                &&& final(buffer).is_writing() ==> final(buffer).written() == old(
                    buffer,
                ).written() + pair.0.payload(old(buffer).used() as int) + pair.1.payload(
                    (old(buffer).used() + pair.0.payload_size()) as int,
                )
            },
            Err(_) => old(buffer).used() + pair.0.payload_size() + pair.1.payload_size() > old(
                buffer,
            ).capacity(),
        },
    decreases pair,
{
    let key = match Value::from_redis(&pair.0, buffer) {
        Ok(record) => record,
        Err(e) => {
            return Err(e);
        },
    };
    let value = match Value::from_redis(&pair.1, buffer) {
        Ok(record) => record,
        Err(e) => {
            return Err(e);
        },
    };
    Ok((key, value))
}

/// Lays the entries of a map into the buffer, each key before its value, then
/// their records, and hands back the offset of the first record.
fn encode_pairs(pairs: &Vec<(ReplyValue, ReplyValue)>, buffer: &mut FFIBuffer) -> (res: Result<
    usize,
    EncodeError,
>)
    requires
        old(buffer).wf(),
    ensures
        final(buffer).wf(),
        final(buffer).is_writing() == old(buffer).is_writing(),
        final(buffer).is_writing() ==> final(buffer).size() == old(buffer).size(),
        match res {
            Ok(offset) => {
                &&& old(buffer).used() + pairs_size(pairs@, pairs@.len() as int) + 48
                    * pairs@.len() <= old(buffer).capacity()
                &&& offset == old(buffer).used() + pairs_size(pairs@, pairs@.len() as int)
                &&& final(buffer).used() == old(buffer).used() + pairs_size(
                    pairs@,
                    pairs@.len() as int,
                ) + 48 * pairs@.len()
                &&& final(buffer).is_writing() ==> final(buffer).written() == old(
                    buffer,
                ).written() + pairs_payload(
                    pairs@,
                    pairs@.len() as int,
                    old(buffer).used() as int,
                ) + pairs_records(pairs@, pairs@.len() as int, old(buffer).used() as int)
            },
            Err(_) => old(buffer).used() + pairs_size(pairs@, pairs@.len() as int) + 48
                * pairs@.len() > old(buffer).capacity(),
        },
    decreases pairs,
{
    let n = pairs.len();
    let ghost start = buffer.used() as int;
    let ghost before = buffer.written();
    let mut records: Vec<(Value, Value)> = Vec::with_capacity(n);
    let mut i: usize = 0;
    while i < n
        invariant
            buffer.wf(),
            buffer.is_writing() == old(buffer).is_writing(),
            buffer.is_writing() ==> buffer.size() == old(buffer).size(),
            start == old(buffer).used(),
            before == old(buffer).written(),
            n == pairs@.len(),
            i <= n,
            records@.len() == i,
            buffer.used() == start + pairs_size(pairs@, i as int),
            buffer.is_writing() ==> buffer.written() == before + pairs_payload(
                pairs@,
                i as int,
                start,
            ),
            forall|j: int|
                0 <= j < i ==> #[trigger] records@[j] == (
                    pairs@[j].0.record(start + pairs_size(pairs@, j)),
                    pairs@[j].1.record(
                        start + pairs_size(pairs@, j) + pairs@[j].0.payload_size(),
                    ),
                ),
        decreases n - i,
    {
        let (key, value) = match encode_pair(&pairs[i], buffer) {
            Ok(records) => records,
            Err(e) => {
                proof {
                    lemma_pairs_size_monotonic(pairs@, i + 1, n as int);
                }
                return Err(e);
            },
        };
        records.push((key, value));
        assert(buffer.is_writing() ==> buffer.written() =~= before + pairs_payload(
            pairs@,
            i + 1,
            start,
        ));
        i += 1;
    }
    let offset = buffer.position();
    let ghost laid = buffer.written();
    let mut j: usize = 0;
    while j < n
        invariant
            buffer.wf(),
            buffer.is_writing() == old(buffer).is_writing(),
            buffer.is_writing() ==> buffer.size() == old(buffer).size(),
            start == old(buffer).used(),
            n == pairs@.len(),
            j <= n,
            records@.len() == n,
            offset == start + pairs_size(pairs@, n as int),
            buffer.used() == offset + 48 * j,
            buffer.is_writing() ==> laid == old(buffer).written() + pairs_payload(
                pairs@,
                n as int,
                start,
            ),
            buffer.is_writing() ==> buffer.written() == laid + pairs_records(
                pairs@,
                j as int,
                start,
            ),
            forall|k: int|
                0 <= k < n ==> #[trigger] records@[k] == (
                    pairs@[k].0.record(start + pairs_size(pairs@, k)),
                    pairs@[k].1.record(
                        start + pairs_size(pairs@, k) + pairs@[k].0.payload_size(),
                    ),
                ),
        decreases n - j,
    {
        let key = records[j].0.to_bytes();
        if buffer.append(key.as_slice()).is_none() {
            return Err(EncodeError::TooLarge);
        }
        let value = records[j].1.to_bytes();
        if buffer.append(value.as_slice()).is_none() {
            return Err(EncodeError::TooLarge);
        }
        assert(buffer.is_writing() ==> buffer.written() =~= laid + pairs_records(
            pairs@,
            j + 1,
            start,
        ));
        j += 1;
    }
    proof {
        buffer.lemma_used_within_capacity();
    }
    assert(buffer.is_writing() ==> buffer.written() =~= old(buffer).written() + pairs_payload(
        pairs@,
        n as int,
        start,
    ) + pairs_records(pairs@, n as int, start));
    Ok(offset)
}

impl Value {
    /// The record as it lies in the buffer.
    pub fn to_bytes(&self) -> (out: Vec<u8>)
        ensures
            out@ == self.bytes(),
            out@.len() == 24,
    {
        let mut out = u64_to_le_bytes(self.kind.to_code());
        let data = u64_to_le_bytes(self.data);
        let length = u64_to_le_bytes(self.length);
        out.extend_from_slice(data.as_slice());
        out.extend_from_slice(length.as_slice());
        out
    }

    /// Lays a reply into the buffer and makes the record that stands for it.
    ///
    /// The walk is the same whether the buffer counts or writes: it takes as
    /// many bytes of the buffer as the reply needs, and the record speaks of
    /// the same offsets. While the buffer writes, the bytes of the reply are
    /// appended to it. The walk fails exactly where the reply needs more than
    /// the buffer has left.
    pub fn from_redis(value: &ReplyValue, buffer: &mut FFIBuffer) -> (res: Result<
        Value,
        EncodeError,
    >)
        requires
            old(buffer).wf(),
        ensures
            final(buffer).wf(),
            final(buffer).is_writing() == old(buffer).is_writing(),
            final(buffer).is_writing() ==> final(buffer).size() == old(buffer).size(),
            match res {
                Ok(record) => {
                    &&& old(buffer).used() + value.payload_size() <= old(buffer).capacity()
                    &&& record == value.record(old(buffer).used() as int)
                    &&& final(buffer).used() == old(buffer).used() + value.payload_size()
                    &&& final(buffer).is_writing() ==> final(buffer).written() == old(
                        buffer,
                    ).written() + value.payload(old(buffer).used() as int)
                },
                Err(_) => old(buffer).used() + value.payload_size() > old(buffer).capacity(),
            },
        decreases value,
    {
        proof {
            buffer.lemma_used_within_capacity();
        }
        match value {
            ReplyValue::Nil => Ok(Value { kind: ValueKind::Nil, data: 0, length: 0 }),
            ReplyValue::Okay => Ok(Value { kind: ValueKind::Okay, data: 0, length: 0 }),
            ReplyValue::Int(v) => Ok(
                Value { kind: ValueKind::Int, data: #[verifier::truncate] (*v as u64), length: 0 },
            ),
            ReplyValue::Double(bits) => Ok(
                Value { kind: ValueKind::Double, data: *bits, length: 0 },
            ),
            ReplyValue::Boolean(v) => Ok(
                Value {
                    kind: ValueKind::Boolean,
                    data: if *v {
                        1
                    } else {
                        0
                    },
                    length: 0,
                },
            ),
            ReplyValue::BulkString(b) => string_record(
                ValueKind::BulkString,
                b.as_slice(),
                buffer,
            ),
            ReplyValue::BigNumber(b) => string_record(ValueKind::BigNumber, b.as_slice(), buffer),
            ReplyValue::SimpleString(s) => string_record(
                ValueKind::SimpleString,
                s.as_str().as_bytes(),
                buffer,
            ),
            ReplyValue::VerbatimString(s) => string_record(
                ValueKind::VerbatimString,
                s.as_str().as_bytes(),
                buffer,
            ),
            ReplyValue::Array(items) => match encode_items(items, buffer) {
                Ok(offset) => Ok(
                    Value {
                        kind: ValueKind::Array,
                        data: offset as u64,
                        length: items.len() as u64,
                    },
                ),
                Err(e) => Err(e),
            },
            ReplyValue::Members(items) => match encode_items(items, buffer) {
                Ok(offset) => Ok(
                    Value {
                        kind: ValueKind::Members,
                        data: offset as u64,
                        length: items.len() as u64,
                    },
                ),
                Err(e) => Err(e),
            },
            ReplyValue::Pairs(pairs) => match encode_pairs(pairs, buffer) {
                Ok(offset) => Ok(
                    Value {
                        kind: ValueKind::Pairs,
                        data: offset as u64,
                        length: pairs.len() as u64,
                    },
                ),
                Err(e) => Err(e),
            },
        }
    }
}

/// An encoded value: the root record and the one buffer that its offsets
/// point into.
#[derive(Debug, PartialEq, Eq)]
pub struct EncodedValue {
    pub value: Value,
    pub buffer: Vec<u8>,
}

/// What the first `n` values of a sequence lay into the buffer is as long as
/// what is counted for them, and their records take 24 bytes each.
proof fn lemma_items_len(items: Seq<ReplyValue>, n: int, base: int)
    requires
        0 <= n <= items.len(),
    ensures
        items_payload(items, n, base).len() == items_size(items, n),
        items_records(items, n, base).len() == 24 * n,
    decreases items, n,
{
    vstd::bytes::lemma_auto_spec_u64_to_from_le_bytes();
    if 0 < n {
        lemma_items_len(items, n - 1, base);
        lemma_payload_len(items[n - 1], base + items_size(items, n - 1));
    }
}

/// What the first `n` entries of a map lay into the buffer is as long as what
/// is counted for them, and their records take 48 bytes each.
proof fn lemma_pairs_len(pairs: Seq<(ReplyValue, ReplyValue)>, n: int, base: int)
    requires
        0 <= n <= pairs.len(),
    ensures
        pairs_payload(pairs, n, base).len() == pairs_size(pairs, n),
        pairs_records(pairs, n, base).len() == 48 * n,
    decreases pairs, n,
{
    vstd::bytes::lemma_auto_spec_u64_to_from_le_bytes();
    if 0 < n {
        let at = base + pairs_size(pairs, n - 1);
        lemma_pairs_len(pairs, n - 1, base);
        lemma_payload_len(pairs[n - 1].0, at);
        lemma_payload_len(pairs[n - 1].1, at + pairs[n - 1].0.payload_size());
    }
}

/// The two walks agree: what a reply lays into the buffer while it is written
/// is exactly as long as what was counted for it, wherever it lands.
pub proof fn lemma_payload_len(value: ReplyValue, base: int)
    ensures
        value.payload(base).len() == value.payload_size(),
    decreases value, 1nat,
{
    match value {
        ReplyValue::Array(items) => lemma_items_len(items@, items@.len() as int, base),
        ReplyValue::Members(items) => lemma_items_len(items@, items@.len() as int, base),
        ReplyValue::Pairs(pairs) => lemma_pairs_len(pairs@, pairs@.len() as int, base),
        _ => {},
    }
}

impl EncodeError {
    /// The error in words.
    pub fn to_string(&self) -> (res: String)
        ensures
            res@ == "reply does not fit into one buffer"@,
    {
        "reply does not fit into one buffer".to_owned()
    }
}

impl Value {
    /// A simple string that carries `text`, with a closing NUL behind it in
    /// the buffer. The length counts the bytes of the text alone.
    pub fn simple_string_with_null(text: &str) -> (res: EncodedValue)
        ensures
            res.value == (Value {
                kind: ValueKind::SimpleString,
                data: 0,
                length: text.spec_bytes().len() as u64,
            }),
            res.buffer@ == text.spec_bytes().push(0u8),
    {
        let mut buffer = text.as_bytes_vec();
        let length = buffer.len() as u64;
        buffer.push(0);
        EncodedValue { value: Value { kind: ValueKind::SimpleString, data: 0, length }, buffer }
    }

    /// Encodes a reply into a buffer of its own, in two walks: the first
    /// counts the bytes, the second writes them into a buffer of that size.
    ///
    /// The buffer that comes back is exactly as long as the first walk
    /// counted, and holds what the reply lays down from offset 0 on. The
    /// encoding fails only where the count does not fit the machine's
    /// largest offset.
    pub fn encode(value: &ReplyValue) -> (res: Result<EncodedValue, EncodeError>)
        ensures
            match res {
                Ok(encoded) => {
                    &&& value.payload_size() <= usize::MAX
                    &&& encoded.value == value.record(0)
                    &&& encoded.buffer@ == value.payload(0)
                    &&& encoded.buffer@.len() == value.payload_size()
                },
                Err(e) => value.payload_size() > usize::MAX && e == EncodeError::TooLarge,
            },
    {
        let mut buffer = FFIBuffer::new();
        match Value::from_redis(value, &mut buffer) {
            Ok(_) => {},
            Err(_) => {
                return Err(EncodeError::TooLarge);
            },
        }
        buffer.switch_mode();
        proof {
            lemma_payload_len(*value, 0);
        }
        match Value::from_redis(value, &mut buffer) {
            Ok(record) => {
                let bytes = buffer.into_bytes();
                assert(bytes@ =~= value.payload(0));
                Ok(EncodedValue { value: record, buffer: bytes })
            },
            Err(_) => Err(EncodeError::TooLarge),
        }
    }
}

impl ValueKind {
    /// The kind that a number stands for in a record, `None` where it stands
    /// for none. It is the kind whose code the number is.
    pub fn from_code(code: u64) -> (res: Option<ValueKind>)
        ensures
            match res {
                Some(kind) => kind.code() == code,
                None => forall|kind: ValueKind| kind.code() != code,
            },
    {
        match code {
            0 => Some(ValueKind::Nil),
            1 => Some(ValueKind::Int),
            2 => Some(ValueKind::BulkString),
            3 => Some(ValueKind::Array),
            4 => Some(ValueKind::SimpleString),
            5 => Some(ValueKind::Okay),
            6 => Some(ValueKind::Pairs),
            7 => Some(ValueKind::Members),
            8 => Some(ValueKind::Double),
            9 => Some(ValueKind::Boolean),
            10 => Some(ValueKind::VerbatimString),
            11 => Some(ValueKind::BigNumber),
            _ => None,
        }
    }
}

} // verus!
