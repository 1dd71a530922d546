//! The tagged parameter that the caller lays out, and its decoder.

use crate::apihandle::{CommandParameter, CommandParameterView};
use crate::data::Utf8OrEmptyError;
use crate::helpers::{grab_str_not_null, grab_vec, utf8_error_of};
use vstd::pervasive::unreached;
use vstd::prelude::*;
use vstd::string::StrSliceExecFns;
use vstd::utf8::{decode_utf8, valid_utf8};

verus! {

/// The discriminant of a [`Parameter`]: which field of its value is in use.
#[derive(Clone, Copy, Debug, PartialEq, Eq, Structural)]
pub enum EParameterKind {
    Bool,
    Int8,
    Uint8,
    Int16,
    Uint16,
    Int32,
    Uint32,
    Int64,
    Uint64,
    Float32,
    Float64,
    String,
    BoolArray,
    Int8Array,
    Uint8Array,
    Int16Array,
    Uint16Array,
    Int32Array,
    Uint32Array,
    Int64Array,
    Uint64Array,
    Float32Array,
    Float64Array,
    KeyValueArray,
}

/// What the value slot of a [`Parameter`] holds, one variant for each way of
/// reading it. A pointer field is held as what it points to: a string as its
/// bytes up to the closing NUL (`None` for a null pointer), an array as its
/// elements. Floating-point fields are held as their IEEE 754 bit patterns.
#[derive(Debug, PartialEq, Eq)]
pub enum ParameterValue {
    Flag(i8),
    I8(i8),
    U8(u8),
    I16(i16),
    U16(u16),
    I32(i32),
    U32(u32),
    I64(i64),
    U64(u64),
    F32(u32),
    F64(u64),
    String(Option<Vec<u8>>),
    FlagArray(Vec<i8>),
    I8Array(Vec<i8>),
    U8Array(Vec<u8>),
    I16Array(Vec<i16>),
    U16Array(Vec<u16>),
    I32Array(Vec<i32>),
    U32Array(Vec<u32>),
    I64Array(Vec<i64>),
    U64Array(Vec<u64>),
    F32Array(Vec<u32>),
    F64Array(Vec<u64>),
    KeyParameterArray(Vec<KeyParameterPair>),
}

/// One command argument as the caller describes it: a kind, the value slot
/// read by that kind, and the element count of an array.
#[derive(Debug, PartialEq, Eq)]
pub struct Parameter {
    pub kind: EParameterKind,
    pub value: ParameterValue,
    pub value_length: u32,
}

/// One entry of a key-value array: a key string and a nested parameter.
#[derive(Debug, PartialEq, Eq)]
pub struct KeyParameterPair {
    pub key: Option<Vec<u8>>,
    pub key_length: u32,
    pub value: Parameter,
}

/// The mathematical value of a [`ParameterValue`].
pub enum ParameterValueView {
    Flag(i8),
    I8(i8),
    U8(u8),
    I16(i16),
    U16(u16),
    I32(i32),
    U32(u32),
    I64(i64),
    U64(u64),
    F32(u32),
    F64(u64),
    String(Option<Seq<u8>>),
    FlagArray(Seq<i8>),
    I8Array(Seq<i8>),
    U8Array(Seq<u8>),
    I16Array(Seq<i16>),
    U16Array(Seq<u16>),
    I32Array(Seq<i32>),
    U32Array(Seq<u32>),
    I64Array(Seq<i64>),
    U64Array(Seq<u64>),
    F32Array(Seq<u32>),
    F64Array(Seq<u64>),
    KeyParameterArray(Seq<KeyParameterPairView>),
}

/// The mathematical value of a [`Parameter`].
pub struct ParameterView {
    pub kind: EParameterKind,
    pub value: ParameterValueView,
    pub value_length: u32,
}

/// The mathematical value of a [`KeyParameterPair`].
pub struct KeyParameterPairView {
    pub key: Option<Seq<u8>>,
    pub key_length: u32,
    pub value: ParameterView,
}

/// The bytes of an optional string, `None` for a null pointer.
pub open spec fn bytes_view(s: Option<Vec<u8>>) -> Option<Seq<u8>> {
    match s {
        Some(bytes) => Some(bytes@),
        None => None,
    }
}

impl ParameterValue {
    pub open spec fn view(&self) -> ParameterValueView
        decreases self,
    {
        match self {
            ParameterValue::Flag(v) => ParameterValueView::Flag(*v),
            ParameterValue::I8(v) => ParameterValueView::I8(*v),
            ParameterValue::U8(v) => ParameterValueView::U8(*v),
            ParameterValue::I16(v) => ParameterValueView::I16(*v),
            ParameterValue::U16(v) => ParameterValueView::U16(*v),
            ParameterValue::I32(v) => ParameterValueView::I32(*v),
            ParameterValue::U32(v) => ParameterValueView::U32(*v),
            ParameterValue::I64(v) => ParameterValueView::I64(*v),
            ParameterValue::U64(v) => ParameterValueView::U64(*v),
            ParameterValue::F32(v) => ParameterValueView::F32(*v),
            ParameterValue::F64(v) => ParameterValueView::F64(*v),
            ParameterValue::String(s) => ParameterValueView::String(bytes_view(*s)),
            ParameterValue::FlagArray(a) => ParameterValueView::FlagArray(a@),
            ParameterValue::I8Array(a) => ParameterValueView::I8Array(a@),
            ParameterValue::U8Array(a) => ParameterValueView::U8Array(a@),
            ParameterValue::I16Array(a) => ParameterValueView::I16Array(a@),
            ParameterValue::U16Array(a) => ParameterValueView::U16Array(a@),
            ParameterValue::I32Array(a) => ParameterValueView::I32Array(a@),
            ParameterValue::U32Array(a) => ParameterValueView::U32Array(a@),
            ParameterValue::I64Array(a) => ParameterValueView::I64Array(a@),
            ParameterValue::U64Array(a) => ParameterValueView::U64Array(a@),
            ParameterValue::F32Array(a) => ParameterValueView::F32Array(a@),
            ParameterValue::F64Array(a) => ParameterValueView::F64Array(a@),
            ParameterValue::KeyParameterArray(pairs) => ParameterValueView::KeyParameterArray(
                Seq::new(
                    pairs@.len(),
                    |i: int|
                        if 0 <= i < pairs@.len() {
                            pairs@[i].view()
                        } else {
                            arbitrary()
                        },
                ),
            ),
        }
    }
}

impl Parameter {
    pub open spec fn view(&self) -> ParameterView
        decreases self,
    {
        ParameterView {
            kind: self.kind,
            value: self.value.view(),
            value_length: self.value_length,
        }
    }
}

impl KeyParameterPair {
    pub open spec fn view(&self) -> KeyParameterPairView
        decreases self,
    {
        KeyParameterPairView {
            key: bytes_view(self.key),
            key_length: self.key_length,
            value: self.value.view(),
        }
    }
}

/// The error of a string that must be present: `Empty` for a null pointer,
/// the decoding error for bytes that are not UTF-8. `None` where the string
/// can be taken over.
pub open spec fn string_fault(s: Option<Seq<u8>>) -> Option<Utf8OrEmptyError> {
    match s {
        None => Some(Utf8OrEmptyError::Empty),
        Some(bytes) => if valid_utf8(bytes) {
            None
        } else {
            Some(Utf8OrEmptyError::Utf8Error(utf8_error_of(bytes)))
        },
    }
}

/// The first error met in the entries `from..`, each entry's key read before
/// its value.
pub open spec fn pairs_failure(pairs: Seq<KeyParameterPairView>, from: int) -> Option<Utf8OrEmptyError>
    decreases pairs, pairs.len() - from,
{
    if 0 <= from < pairs.len() {
        match pairs[from].failure() {
            Some(fault) => Some(fault),
            None => pairs_failure(pairs, from + 1),
        }
    } else {
        None
    }
}

impl KeyParameterPairView {
    /// The first error met in this entry: that of its key, else that of its
    /// value.
    pub open spec fn failure(self) -> Option<Utf8OrEmptyError>
        decreases self, 0nat,
    {
        match string_fault(self.key) {
            Some(fault) => Some(fault),
            None => self.value.failure(),
        }
    }

    /// The key and the argument that this entry decodes to.
    pub open spec fn decoded(self) -> (Seq<char>, CommandParameterView)
        decreases self,
    {
        (decode_utf8(self.key.unwrap()), self.value.decoded())
    }
}

impl ParameterView {
    /// The value slot is read by the field that the kind names, and an array
    /// holds as many elements as `value_length` declares.
    pub open spec fn wf(self) -> bool
        decreases self,
    {
        match (self.kind, self.value) {
            (EParameterKind::Bool, ParameterValueView::Flag(_)) => true,
            (EParameterKind::Int8, ParameterValueView::I8(_)) => true,
            (EParameterKind::Uint8, ParameterValueView::U8(_)) => true,
            (EParameterKind::Int16, ParameterValueView::I16(_)) => true,
            (EParameterKind::Uint16, ParameterValueView::U16(_)) => true,
            (EParameterKind::Int32, ParameterValueView::I32(_)) => true,
            (EParameterKind::Uint32, ParameterValueView::U32(_)) => true,
            (EParameterKind::Int64, ParameterValueView::I64(_)) => true,
            (EParameterKind::Uint64, ParameterValueView::U64(_)) => true,
            (EParameterKind::Float32, ParameterValueView::F32(_)) => true,
            (EParameterKind::Float64, ParameterValueView::F64(_)) => true,
            (EParameterKind::String, ParameterValueView::String(_)) => true,
            (EParameterKind::BoolArray, ParameterValueView::FlagArray(a)) => a.len() == self.value_length,
            (EParameterKind::Int8Array, ParameterValueView::I8Array(a)) => a.len() == self.value_length,
            (EParameterKind::Uint8Array, ParameterValueView::U8Array(a)) => a.len() == self.value_length,
            (EParameterKind::Int16Array, ParameterValueView::I16Array(a)) => a.len() == self.value_length,
            (EParameterKind::Uint16Array, ParameterValueView::U16Array(a)) => a.len() == self.value_length,
            (EParameterKind::Int32Array, ParameterValueView::I32Array(a)) => a.len() == self.value_length,
            (EParameterKind::Uint32Array, ParameterValueView::U32Array(a)) => a.len() == self.value_length,
            (EParameterKind::Int64Array, ParameterValueView::I64Array(a)) => a.len() == self.value_length,
            (EParameterKind::Uint64Array, ParameterValueView::U64Array(a)) => a.len() == self.value_length,
            (EParameterKind::Float32Array, ParameterValueView::F32Array(a)) => a.len() == self.value_length,
            (EParameterKind::Float64Array, ParameterValueView::F64Array(a)) => a.len() == self.value_length,
            (EParameterKind::KeyValueArray, ParameterValueView::KeyParameterArray(pairs)) => {
                &&& pairs.len() == self.value_length
                &&& forall|i: int| 0 <= i < pairs.len() ==> (#[trigger] pairs[i]).value.wf()
            },
            _ => false,
        }
    }

    /// Why this parameter cannot be decoded: the first error met among the
    /// strings it holds, read in order. `None` where decoding succeeds.
    pub open spec fn failure(self) -> Option<Utf8OrEmptyError>
        decreases self, 0nat,
    {
        match self.value {
            ParameterValueView::String(s) => string_fault(s),
            ParameterValueView::KeyParameterArray(pairs) => pairs_failure(pairs, 0),
            _ => None,
        }
    }

    /// The command argument that this parameter decodes to.
    pub open spec fn decoded(self) -> CommandParameterView
        decreases self,
    {
        match self.value {
            ParameterValueView::Flag(v) => CommandParameterView::Bool(v != 0),
            ParameterValueView::I8(v) => CommandParameterView::Int8(v),
            ParameterValueView::U8(v) => CommandParameterView::Uint8(v),
            ParameterValueView::I16(v) => CommandParameterView::Int16(v),
            ParameterValueView::U16(v) => CommandParameterView::Uint16(v),
            ParameterValueView::I32(v) => CommandParameterView::Int32(v),
            ParameterValueView::U32(v) => CommandParameterView::Uint32(v),
            ParameterValueView::I64(v) => CommandParameterView::Int64(v),
            ParameterValueView::U64(v) => CommandParameterView::Uint64(v),
            ParameterValueView::F32(v) => CommandParameterView::Float32(v),
            ParameterValueView::F64(v) => CommandParameterView::Float64(v),
            ParameterValueView::String(s) => CommandParameterView::String(decode_utf8(s.unwrap())),
            ParameterValueView::FlagArray(a) => CommandParameterView::BoolArray(
                a.map_values(|flag: i8| flag != 0),
            ),
            ParameterValueView::I8Array(a) => CommandParameterView::Int8Array(a),
            ParameterValueView::U8Array(a) => CommandParameterView::Uint8Array(a),
            ParameterValueView::I16Array(a) => CommandParameterView::Int16Array(a),
            ParameterValueView::U16Array(a) => CommandParameterView::Uint16Array(a),
            ParameterValueView::I32Array(a) => CommandParameterView::Int32Array(a),
            ParameterValueView::U32Array(a) => CommandParameterView::Uint32Array(a),
            ParameterValueView::I64Array(a) => CommandParameterView::Int64Array(a),
            ParameterValueView::U64Array(a) => CommandParameterView::Uint64Array(a),
            ParameterValueView::F32Array(a) => CommandParameterView::Float32Array(a),
            ParameterValueView::F64Array(a) => CommandParameterView::Float64Array(a),
            ParameterValueView::KeyParameterArray(pairs) => CommandParameterView::KeyValueArray(
                Seq::new(
                    pairs.len(),
                    |i: int|
                        if 0 <= i < pairs.len() {
                            pairs[i].decoded()
                        } else {
                            arbitrary()
                        },
                ),
            ),
        }
    }
}

/// Where no entry from `from` on has an error, there is no first error.
proof fn lemma_pairs_failure_none(pairs: Seq<KeyParameterPairView>, from: int)
    requires
        0 <= from <= pairs.len(),
        forall|i: int| from <= i < pairs.len() ==> (#[trigger] pairs[i]).failure() is None,
    ensures
        pairs_failure(pairs, from) is None,
    decreases pairs.len() - from,
{
    if from < pairs.len() {
        lemma_pairs_failure_none(pairs, from + 1);
    }
}

/// The first error from `from` on is that of the first entry that has one.
proof fn lemma_pairs_failure_at(pairs: Seq<KeyParameterPairView>, from: int, k: int)
    requires
        0 <= from <= k < pairs.len(),
        forall|i: int| from <= i < k ==> (#[trigger] pairs[i]).failure() is None,
        pairs[k].failure() is Some,
    ensures
        pairs_failure(pairs, from) == pairs[k].failure(),
    decreases k - from,
{
    if from < k {
        lemma_pairs_failure_at(pairs, from + 1, k);
    }
}

/// The bytes of an optional string, borrowed.
fn borrowed_bytes(s: &Option<Vec<u8>>) -> (res: Option<&[u8]>)
    ensures
        match res {
            Some(bytes) => bytes_view(*s) == Some(bytes@),
            None => bytes_view(*s) is None,
        },
{
    match s {
        Some(bytes) => Some(bytes.as_slice()),
        None => None,
    }
}

/// Copies an array of plain values of the caller.
fn grab_values<T: Copy>(input: &[T], len: usize) -> (out: Vec<T>)
    requires
        len == input@.len(),
    ensures
        out@ == input@,
{
    let copy = |x: &T| -> (r: Result<T, ()>)
        ensures
            r == Ok::<T, ()>(*x),
        { Ok(*x) };
    match grab_vec(input, len, copy) {
        Ok(out) => {
            assert(out@ =~= input@);
            out
        },
        Err(_) => unreached(),
    }
}

/// Reads an array of flags of the caller: a flag is set where its byte is not
/// zero.
fn grab_flags(input: &[i8], len: usize) -> (out: Vec<bool>)
    requires
        len == input@.len(),
    ensures
        out@ == input@.map_values(|flag: i8| flag != 0),
{
    let read = |flag: &i8| -> (r: Result<bool, ()>)
        ensures
            r == Ok::<bool, ()>(*flag != 0),
        { Ok(*flag != 0) };
    match grab_vec(input, len, read) {
        Ok(out) => {
            assert(out@ =~= input@.map_values(|flag: i8| flag != 0));
            out
        },
        Err(_) => unreached(),
    }
}

impl Parameter {
    /// Tells whether the value slot fits the kind and the declared length,
    /// here and in every nested parameter.
    pub fn is_well_formed(&self) -> (res: bool)
        ensures
            res == self@.wf(),
        decreases self,
    {
        let len = self.value_length as usize;
        match (self.kind, &self.value) {
            (EParameterKind::Bool, ParameterValue::Flag(_)) => true,
            (EParameterKind::Int8, ParameterValue::I8(_)) => true,
            (EParameterKind::Uint8, ParameterValue::U8(_)) => true,
            (EParameterKind::Int16, ParameterValue::I16(_)) => true,
            (EParameterKind::Uint16, ParameterValue::U16(_)) => true,
            (EParameterKind::Int32, ParameterValue::I32(_)) => true,
            (EParameterKind::Uint32, ParameterValue::U32(_)) => true,
            (EParameterKind::Int64, ParameterValue::I64(_)) => true,
            (EParameterKind::Uint64, ParameterValue::U64(_)) => true,
            (EParameterKind::Float32, ParameterValue::F32(_)) => true,
            (EParameterKind::Float64, ParameterValue::F64(_)) => true,
            (EParameterKind::String, ParameterValue::String(_)) => true,
            (EParameterKind::BoolArray, ParameterValue::FlagArray(a)) => a.len() == len,
            (EParameterKind::Int8Array, ParameterValue::I8Array(a)) => a.len() == len,
            (EParameterKind::Uint8Array, ParameterValue::U8Array(a)) => a.len() == len,
            (EParameterKind::Int16Array, ParameterValue::I16Array(a)) => a.len() == len,
            (EParameterKind::Uint16Array, ParameterValue::U16Array(a)) => a.len() == len,
            (EParameterKind::Int32Array, ParameterValue::I32Array(a)) => a.len() == len,
            (EParameterKind::Uint32Array, ParameterValue::U32Array(a)) => a.len() == len,
            (EParameterKind::Int64Array, ParameterValue::I64Array(a)) => a.len() == len,
            (EParameterKind::Uint64Array, ParameterValue::U64Array(a)) => a.len() == len,
            (EParameterKind::Float32Array, ParameterValue::F32Array(a)) => a.len() == len,
            (EParameterKind::Float64Array, ParameterValue::F64Array(a)) => a.len() == len,
            (EParameterKind::KeyValueArray, ParameterValue::KeyParameterArray(pairs)) => {
                if pairs.len() != len {
                    return false;
                }
                let mut i: usize = 0;
                while i < pairs.len()
                    invariant
                        i <= pairs@.len(),
                        self.value == ParameterValue::KeyParameterArray(*pairs),
                        forall|j: int| 0 <= j < i ==> (#[trigger] pairs@[j])@.value.wf(),
                    decreases pairs@.len() - i,
                {
                    if !pairs[i].value.is_well_formed() {
                        assert(self@.value->KeyParameterArray_0[i as int] == pairs@[i as int]@);
                        return false;
                    }
                    i += 1;
                }
                assert forall|j: int|
                    0 <= j < self@.value->KeyParameterArray_0.len() implies (
                #[trigger] self@.value->KeyParameterArray_0[j]).value.wf() by {
                    assert(self@.value->KeyParameterArray_0[j] == pairs@[j]@);
                }
                true
            },
            _ => false,
        }
    }

    /// Decodes the parameter into an owned command argument.
    ///
    /// A string, and the key of every entry of a key-value array, must be
    /// present and UTF-8. The first one that is not ends the decoding with its
    /// error: `Empty` for a null pointer, `Utf8Error` for bytes that are not
    /// UTF-8. An array is read to its declared length.
    pub fn to_command_parameter(&self) -> (res: Result<CommandParameter, Utf8OrEmptyError>)
        requires
            self@.wf(),
        ensures
            match res {
                Ok(decoded) => self@.failure() is None && decoded@ == self@.decoded(),
                Err(e) => self@.failure() == Some(e),
            },
        decreases self,
    {
        let len = self.value_length as usize;
        match (self.kind, &self.value) {
            (EParameterKind::Bool, ParameterValue::Flag(flag)) => Ok(
                CommandParameter::Bool(*flag != 0),
            ),
            (EParameterKind::Int8, ParameterValue::I8(v)) => Ok(CommandParameter::Int8(*v)),
            (EParameterKind::Uint8, ParameterValue::U8(v)) => Ok(CommandParameter::Uint8(*v)),
            (EParameterKind::Int16, ParameterValue::I16(v)) => Ok(CommandParameter::Int16(*v)),
            (EParameterKind::Uint16, ParameterValue::U16(v)) => Ok(CommandParameter::Uint16(*v)),
            (EParameterKind::Int32, ParameterValue::I32(v)) => Ok(CommandParameter::Int32(*v)),
            (EParameterKind::Uint32, ParameterValue::U32(v)) => Ok(CommandParameter::Uint32(*v)),
            (EParameterKind::Int64, ParameterValue::I64(v)) => Ok(CommandParameter::Int64(*v)),
            (EParameterKind::Uint64, ParameterValue::U64(v)) => Ok(CommandParameter::Uint64(*v)),
            (EParameterKind::Float32, ParameterValue::F32(v)) => Ok(CommandParameter::Float32(*v)),
            (EParameterKind::Float64, ParameterValue::F64(v)) => Ok(CommandParameter::Float64(*v)),
            (EParameterKind::String, ParameterValue::String(s)) => {
                match grab_str_not_null(borrowed_bytes(s)) {
                    Ok(text) => Ok(CommandParameter::String(text)),
                    Err(e) => Err(e),
                }
            },
            (EParameterKind::BoolArray, ParameterValue::FlagArray(a)) => Ok(
                CommandParameter::BoolArray(grab_flags(a.as_slice(), len)),
            ),
            (EParameterKind::Int8Array, ParameterValue::I8Array(a)) => Ok(
                CommandParameter::Int8Array(grab_values(a.as_slice(), len)),
            ),
            (EParameterKind::Uint8Array, ParameterValue::U8Array(a)) => Ok(
                CommandParameter::Uint8Array(grab_values(a.as_slice(), len)),
            ),
            (EParameterKind::Int16Array, ParameterValue::I16Array(a)) => Ok(
                CommandParameter::Int16Array(grab_values(a.as_slice(), len)),
            ),
            (EParameterKind::Uint16Array, ParameterValue::U16Array(a)) => Ok(
                CommandParameter::Uint16Array(grab_values(a.as_slice(), len)),
            ),
            (EParameterKind::Int32Array, ParameterValue::I32Array(a)) => Ok(
                CommandParameter::Int32Array(grab_values(a.as_slice(), len)),
            ),
            (EParameterKind::Uint32Array, ParameterValue::U32Array(a)) => Ok(
                CommandParameter::Uint32Array(grab_values(a.as_slice(), len)),
            ),
            (EParameterKind::Int64Array, ParameterValue::I64Array(a)) => Ok(
                CommandParameter::Int64Array(grab_values(a.as_slice(), len)),
            ),
            (EParameterKind::Uint64Array, ParameterValue::U64Array(a)) => Ok(
                CommandParameter::Uint64Array(grab_values(a.as_slice(), len)),
            ),
            (EParameterKind::Float32Array, ParameterValue::F32Array(a)) => Ok(
                CommandParameter::Float32Array(grab_values(a.as_slice(), len)),
            ),
            (EParameterKind::Float64Array, ParameterValue::F64Array(a)) => Ok(
                CommandParameter::Float64Array(grab_values(a.as_slice(), len)),
            ),
            (EParameterKind::KeyValueArray, ParameterValue::KeyParameterArray(pairs)) => {
                let ghost entries = self@.value->KeyParameterArray_0;
                assert forall|i: int| 0 <= i < pairs@.len() implies entries[i] == (
                #[trigger] pairs@[i])@ by {}
                let decode = |pair: &KeyParameterPair| -> (r: Result<
                    (String, CommandParameter),
                    Utf8OrEmptyError,
                >)
                    requires
                        exists|i: int| 0 <= i < pairs@.len() && pairs@[i] == *pair,
                        pair@.value.wf(),
                    ensures
                        match r {
                            Ok(entry) => {
                                &&& pair@.failure() is None
                                &&& (entry.0@, entry.1@) == pair@.decoded()
                            },
                            Err(e) => pair@.failure() == Some(e),
                        },
                    {
                        match grab_str_not_null(borrowed_bytes(&pair.key)) {
                            Ok(key) => match pair.value.to_command_parameter() {
                                Ok(value) => Ok((key, value)),
                                Err(e) => Err(e),
                            },
                            Err(e) => Err(e),
                        }
                    };
                match grab_vec(pairs.as_slice(), len, decode) {
                    Ok(arr) => {
                        proof {
                            assert forall|i: int| 0 <= i < entries.len() implies {
                                &&& (#[trigger] entries[i]).failure() is None
                                &&& (arr@[i].0@, arr@[i].1@) == entries[i].decoded()
                            } by {
                                assert(call_ensures(decode, (&pairs@[i],), Ok(arr@[i])));
                            }
                            lemma_pairs_failure_none(entries, 0);
                            assert(CommandParameter::KeyValueArray(arr)@->KeyValueArray_0
                                =~= self@.decoded()->KeyValueArray_0);
                        }
                        Ok(CommandParameter::KeyValueArray(arr))
                    },
                    Err(e) => {
                        proof {
                            let k = choose|k: int|
                                {
                                    &&& 0 <= k < len
                                    &&& call_ensures(decode, (&#[trigger] pairs@[k],), Err(e))
                                    &&& forall|i: int|
                                        0 <= i < k ==> crate::helpers::takes_over(
                                            decode,
                                            #[trigger] pairs@[i],
                                        )
                                };
                            assert forall|i: int| 0 <= i < k implies (
                            #[trigger] entries[i]).failure() is None by {
                                assert(crate::helpers::takes_over(decode, pairs@[i]));
                            }
                            lemma_pairs_failure_at(entries, 0, k);
                        }
                        Err(e)
                    },
                }
            },
            _ => unreached(),
        }
    }
}

impl EParameterKind {
    /// True of the kinds whose value lies in the value slot itself.
    pub open spec fn is_primitive(self) -> bool {
        ||| self == EParameterKind::Bool
        ||| self == EParameterKind::Int8
        ||| self == EParameterKind::Uint8
        ||| self == EParameterKind::Int16
        ||| self == EParameterKind::Uint16
        ||| self == EParameterKind::Int32
        ||| self == EParameterKind::Uint32
        ||| self == EParameterKind::Int64
        ||| self == EParameterKind::Uint64
        ||| self == EParameterKind::Float32
        ||| self == EParameterKind::Float64
    }

    /// True of the kinds whose value is an array of primitive values.
    pub open spec fn is_primitive_array(self) -> bool {
        ||| self == EParameterKind::BoolArray
        ||| self == EParameterKind::Int8Array
        ||| self == EParameterKind::Uint8Array
        ||| self == EParameterKind::Int16Array
        ||| self == EParameterKind::Uint16Array
        ||| self == EParameterKind::Int32Array
        ||| self == EParameterKind::Uint32Array
        ||| self == EParameterKind::Int64Array
        ||| self == EParameterKind::Uint64Array
        ||| self == EParameterKind::Float32Array
        ||| self == EParameterKind::Float64Array
    }
}

/// The byte that stands for a flag: 1 where it is set, 0 where it is not.
pub open spec fn flag_of(set: bool) -> i8 {
    if set {
        1i8
    } else {
        0i8
    }
}

/// The parameters that stand for the first `n` entries of a key-value array,
/// or `None` where one of them has no parameter form.
pub open spec fn encoded_entries(items: Seq<(Seq<char>, CommandParameterView)>, n: int) -> Option<
    Seq<KeyParameterPairView>,
>
    decreases items, n,
{
    if 0 < n <= items.len() {
        let key = vstd::utf8::encode_utf8(items[n - 1].0);
        match (encoded_entries(items, n - 1), items[n - 1].1.encoded()) {
            (Some(head), Some(value)) => if key.len() <= u32::MAX {
                Some(
                    head.push(
                        KeyParameterPairView { key: Some(key), key_length: key.len() as u32, value },
                    ),
                )
            } else {
                None
            },
            _ => None,
        }
    } else {
        Some(Seq::empty())
    }
}

impl CommandParameterView {
    /// The kind of parameter that decodes to this argument.
    pub open spec fn kind(self) -> EParameterKind {
        match self {
            CommandParameterView::Bool(_) => EParameterKind::Bool,
            CommandParameterView::Int8(_) => EParameterKind::Int8,
            CommandParameterView::Uint8(_) => EParameterKind::Uint8,
            CommandParameterView::Int16(_) => EParameterKind::Int16,
            CommandParameterView::Uint16(_) => EParameterKind::Uint16,
            CommandParameterView::Int32(_) => EParameterKind::Int32,
            CommandParameterView::Uint32(_) => EParameterKind::Uint32,
            CommandParameterView::Int64(_) => EParameterKind::Int64,
            CommandParameterView::Uint64(_) => EParameterKind::Uint64,
            CommandParameterView::Float32(_) => EParameterKind::Float32,
            CommandParameterView::Float64(_) => EParameterKind::Float64,
            CommandParameterView::String(_) => EParameterKind::String,
            CommandParameterView::BoolArray(_) => EParameterKind::BoolArray,
            CommandParameterView::Int8Array(_) => EParameterKind::Int8Array,
            CommandParameterView::Uint8Array(_) => EParameterKind::Uint8Array,
            CommandParameterView::Int16Array(_) => EParameterKind::Int16Array,
            CommandParameterView::Uint16Array(_) => EParameterKind::Uint16Array,
            CommandParameterView::Int32Array(_) => EParameterKind::Int32Array,
            CommandParameterView::Uint32Array(_) => EParameterKind::Uint32Array,
            CommandParameterView::Int64Array(_) => EParameterKind::Int64Array,
            CommandParameterView::Uint64Array(_) => EParameterKind::Uint64Array,
            CommandParameterView::Float32Array(_) => EParameterKind::Float32Array,
            CommandParameterView::Float64Array(_) => EParameterKind::Float64Array,
            CommandParameterView::KeyValueArray(_) => EParameterKind::KeyValueArray,
        }
    }

    /// The parameter that stands for this argument, or `None` where a length
    /// in it does not fit the 32 bits that a parameter has for one. A
    /// primitive value declares the length 0, a string its length in bytes.
    pub open spec fn encoded(self) -> Option<ParameterView>
        decreases self, 0nat,
    {
        match self {
            CommandParameterView::Bool(v) => Some(
                ParameterView {
                    kind: EParameterKind::Bool,
                    value: ParameterValueView::Flag(flag_of(v)),
                    value_length: 0,
                },
            ),
            CommandParameterView::Int8(v) => Some(
                ParameterView {
                    kind: EParameterKind::Int8,
                    value: ParameterValueView::I8(v),
                    value_length: 0,
                },
            ),
            CommandParameterView::Uint8(v) => Some(
                ParameterView {
                    kind: EParameterKind::Uint8,
                    value: ParameterValueView::U8(v),
                    value_length: 0,
                },
            ),
            CommandParameterView::Int16(v) => Some(
                ParameterView {
                    kind: EParameterKind::Int16,
                    value: ParameterValueView::I16(v),
                    value_length: 0,
                },
            ),
            CommandParameterView::Uint16(v) => Some(
                ParameterView {
                    kind: EParameterKind::Uint16,
                    value: ParameterValueView::U16(v),
                    value_length: 0,
                },
            ),
            CommandParameterView::Int32(v) => Some(
                ParameterView {
                    kind: EParameterKind::Int32,
                    value: ParameterValueView::I32(v),
                    value_length: 0,
                },
            ),
            CommandParameterView::Uint32(v) => Some(
                ParameterView {
                    kind: EParameterKind::Uint32,
                    value: ParameterValueView::U32(v),
                    value_length: 0,
                },
            ),
            CommandParameterView::Int64(v) => Some(
                ParameterView {
                    kind: EParameterKind::Int64,
                    value: ParameterValueView::I64(v),
                    value_length: 0,
                },
            ),
            CommandParameterView::Uint64(v) => Some(
                ParameterView {
                    kind: EParameterKind::Uint64,
                    value: ParameterValueView::U64(v),
                    value_length: 0,
                },
            ),
            CommandParameterView::Float32(v) => Some(
                ParameterView {
                    kind: EParameterKind::Float32,
                    value: ParameterValueView::F32(v),
                    value_length: 0,
                },
            ),
            CommandParameterView::Float64(v) => Some(
                ParameterView {
                    kind: EParameterKind::Float64,
                    value: ParameterValueView::F64(v),
                    value_length: 0,
                },
            ),
            CommandParameterView::String(s) => {
                let bytes = vstd::utf8::encode_utf8(s);
                if bytes.len() <= u32::MAX {
                    Some(
                        ParameterView {
                            kind: EParameterKind::String,
                            value: ParameterValueView::String(Some(bytes)),
                            value_length: bytes.len() as u32,
                        },
                    )
                } else {
                    None
                }
            },
            CommandParameterView::BoolArray(a) => if a.len() <= u32::MAX {
                Some(
                    ParameterView {
                        kind: EParameterKind::BoolArray,
                        value: ParameterValueView::FlagArray(a.map_values(|set: bool| flag_of(set))),
                        value_length: a.len() as u32,
                    },
                )
            } else {
                None
            },
            CommandParameterView::Int8Array(a) => if a.len() <= u32::MAX {
                Some(
                    ParameterView {
                        kind: EParameterKind::Int8Array,
                        value: ParameterValueView::I8Array(a),
                        value_length: a.len() as u32,
                    },
                )
            } else {
                None
            },
            CommandParameterView::Uint8Array(a) => if a.len() <= u32::MAX {
                Some(
                    ParameterView {
                        kind: EParameterKind::Uint8Array,
                        value: ParameterValueView::U8Array(a),
                        value_length: a.len() as u32,
                    },
                )
            } else {
                None
            },
            CommandParameterView::Int16Array(a) => if a.len() <= u32::MAX {
                Some(
                    ParameterView {
                        kind: EParameterKind::Int16Array,
                        value: ParameterValueView::I16Array(a),
                        value_length: a.len() as u32,
                    },
                )
            } else {
                None
            },
            CommandParameterView::Uint16Array(a) => if a.len() <= u32::MAX {
                Some(
                    ParameterView {
                        kind: EParameterKind::Uint16Array,
                        value: ParameterValueView::U16Array(a),
                        value_length: a.len() as u32,
                    },
                )
            } else {
                None
            },
            CommandParameterView::Int32Array(a) => if a.len() <= u32::MAX {
                Some(
                    ParameterView {
                        kind: EParameterKind::Int32Array,
                        value: ParameterValueView::I32Array(a),
                        value_length: a.len() as u32,
                    },
                )
            } else {
                None
            },
            CommandParameterView::Uint32Array(a) => if a.len() <= u32::MAX {
                Some(
                    ParameterView {
                        kind: EParameterKind::Uint32Array,
                        value: ParameterValueView::U32Array(a),
                        value_length: a.len() as u32,
                    },
                )
            } else {
                None
            },
            CommandParameterView::Int64Array(a) => if a.len() <= u32::MAX {
                Some(
                    ParameterView {
                        kind: EParameterKind::Int64Array,
                        value: ParameterValueView::I64Array(a),
                        value_length: a.len() as u32,
                    },
                )
            } else {
                None
            },
            CommandParameterView::Uint64Array(a) => if a.len() <= u32::MAX {
                Some(
                    ParameterView {
                        kind: EParameterKind::Uint64Array,
                        value: ParameterValueView::U64Array(a),
                        value_length: a.len() as u32,
                    },
                )
            } else {
                None
            },
            CommandParameterView::Float32Array(a) => if a.len() <= u32::MAX {
                Some(
                    ParameterView {
                        kind: EParameterKind::Float32Array,
                        value: ParameterValueView::F32Array(a),
                        value_length: a.len() as u32,
                    },
                )
            } else {
                None
            },
            CommandParameterView::Float64Array(a) => if a.len() <= u32::MAX {
                Some(
                    ParameterView {
                        kind: EParameterKind::Float64Array,
                        value: ParameterValueView::F64Array(a),
                        value_length: a.len() as u32,
                    },
                )
            } else {
                None
            },
            CommandParameterView::KeyValueArray(items) => match encoded_entries(
                items,
                items.len() as int,
            ) {
                Some(pairs) => if items.len() <= u32::MAX {
                    Some(
                        ParameterView {
                            kind: EParameterKind::KeyValueArray,
                            value: ParameterValueView::KeyParameterArray(pairs),
                            value_length: items.len() as u32,
                        },
                    )
                } else {
                    None
                },
                None => None,
            },
        }
    }
}

impl ParameterView {
    /// True where every flag byte in the value slot is 0 or 1, the two bytes
    /// that encoding writes for a flag.
    pub open spec fn has_canonical_flags(self) -> bool {
        match self.value {
            ParameterValueView::Flag(v) => v == 0 || v == 1,
            ParameterValueView::FlagArray(a) => forall|i: int|
                0 <= i < a.len() ==> (#[trigger] a[i]) == 0 || a[i] == 1,
            _ => true,
        }
    }
}

/// Decoding keeps the kind: a well-formed parameter decodes to an argument of
/// its own kind.
pub proof fn lemma_decoding_keeps_kind(p: ParameterView)
    requires
        p.wf(),
    ensures
        p.decoded().kind() == p.kind,
{
}

/// Decoding a well-formed parameter of a primitive or primitive-array kind and
/// encoding the result again gives the parameter back: the same kind, the same
/// value and, for an array, the same length. Flag bytes must be 0 or 1 for
/// this, since decoding keeps of a flag byte only whether it is zero.
pub proof fn lemma_decode_then_encode(p: ParameterView)
    requires
        p.wf(),
        p.kind.is_primitive() || p.kind.is_primitive_array(),
        p.has_canonical_flags(),
    ensures
        p.failure() is None,
        p.decoded().encoded() matches Some(q) && {
            &&& q.kind == p.kind
            &&& q.value == p.value
            &&& p.kind.is_primitive_array() ==> q.value_length == p.value_length
        },
{
    match p.value {
        ParameterValueView::FlagArray(a) => {
            let flags = a.map_values(|flag: i8| flag != 0);
            assert(flags.map_values(|set: bool| flag_of(set)) =~= a);
        },
        _ => {},
    }
}

/// Encoding an argument of a primitive or primitive-array kind and decoding
/// the result gives the argument back. The encoding exists exactly where the
/// length of an array fits 32 bits.
pub proof fn lemma_encode_then_decode(arg: CommandParameterView)
    requires
        arg.kind().is_primitive() || arg.kind().is_primitive_array(),
    ensures
        arg.encoded() matches Some(p) ==> {
            &&& p.wf()
            &&& p.kind == arg.kind()
            &&& p.failure() is None
            &&& p.decoded() == arg
        },
{
    match arg {
        CommandParameterView::BoolArray(a) => {
            if a.len() <= u32::MAX {
                let flags = a.map_values(|set: bool| flag_of(set));
                assert(flags.map_values(|flag: i8| flag != 0) =~= a);
            }
        },
        _ => {},
    }
}

/// Where the first `k` entries have no parameter form, no longer run of them
/// has one.
proof fn lemma_encoded_entries_none(
    items: Seq<(Seq<char>, CommandParameterView)>,
    k: int,
    n: int,
)
    requires
        0 <= k <= n <= items.len(),
        encoded_entries(items, k) is None,
    ensures
        encoded_entries(items, n) is None,
    decreases n - k,
{
    if k < n {
        lemma_encoded_entries_none(items, k, n - 1);
    }
}

/// Writes an array of flags as bytes, 1 for a set flag and 0 for the others.
fn flags_to_bytes(input: &[bool]) -> (out: Vec<i8>)
    ensures
        out@ == input@.map_values(|set: bool| flag_of(set)),
{
    let write = |set: &bool| -> (r: Result<i8, ()>)
        ensures
            r == Ok::<i8, ()>(flag_of(*set)),
        {
            if *set {
                Ok(1i8)
            } else {
                Ok(0i8)
            }
        };
    match grab_vec(input, input.len(), write) {
        Ok(out) => {
            assert(out@ =~= input@.map_values(|set: bool| flag_of(set)));
            out
        },
        Err(_) => unreached(),
    }
}

impl Parameter {
    /// Encodes an owned command argument as the parameter that decodes to it.
    ///
    /// `None` where a length in the argument does not fit the 32 bits that a
    /// parameter has for one.
    pub fn from_command_parameter(arg: &CommandParameter) -> (res: Option<Parameter>)
        ensures
            match res {
                Some(p) => arg@.encoded() == Some(p@),
                None => arg@.encoded() is None,
            },
        decreases arg,
    {
        match arg {
            CommandParameter::Bool(v) => Some(
                Parameter {
                    kind: EParameterKind::Bool,
                    value: ParameterValue::Flag(
                        if *v {
                            1i8
                        } else {
                            0i8
                        },
                    ),
                    value_length: 0,
                },
            ),
            CommandParameter::Int8(v) => Some(
                Parameter {
                    kind: EParameterKind::Int8,
                    value: ParameterValue::I8(*v),
                    value_length: 0,
                },
            ),
            CommandParameter::Uint8(v) => Some(
                Parameter {
                    kind: EParameterKind::Uint8,
                    value: ParameterValue::U8(*v),
                    value_length: 0,
                },
            ),
            CommandParameter::Int16(v) => Some(
                Parameter {
                    kind: EParameterKind::Int16,
                    value: ParameterValue::I16(*v),
                    value_length: 0,
                },
            ),
            CommandParameter::Uint16(v) => Some(
                Parameter {
                    kind: EParameterKind::Uint16,
                    value: ParameterValue::U16(*v),
                    value_length: 0,
                },
            ),
            CommandParameter::Int32(v) => Some(
                Parameter {
                    kind: EParameterKind::Int32,
                    value: ParameterValue::I32(*v),
                    value_length: 0,
                },
            ),
            CommandParameter::Uint32(v) => Some(
                Parameter {
                    kind: EParameterKind::Uint32,
                    value: ParameterValue::U32(*v),
                    value_length: 0,
                },
            ),
            CommandParameter::Int64(v) => Some(
                Parameter {
                    kind: EParameterKind::Int64,
                    value: ParameterValue::I64(*v),
                    value_length: 0,
                },
            ),
            CommandParameter::Uint64(v) => Some(
                Parameter {
                    kind: EParameterKind::Uint64,
                    value: ParameterValue::U64(*v),
                    value_length: 0,
                },
            ),
            CommandParameter::Float32(v) => Some(
                Parameter {
                    kind: EParameterKind::Float32,
                    value: ParameterValue::F32(*v),
                    value_length: 0,
                },
            ),
            CommandParameter::Float64(v) => Some(
                Parameter {
                    kind: EParameterKind::Float64,
                    value: ParameterValue::F64(*v),
                    value_length: 0,
                },
            ),
            CommandParameter::String(s) => {
                let bytes = s.as_str().as_bytes_vec();
                let len = bytes.len();
                array_parameter(EParameterKind::String, ParameterValue::String(Some(bytes)), len)
            },
            CommandParameter::BoolArray(a) => array_parameter(
                EParameterKind::BoolArray,
                ParameterValue::FlagArray(flags_to_bytes(a.as_slice())),
                a.len(),
            ),
            CommandParameter::Int8Array(a) => array_parameter(
                EParameterKind::Int8Array,
                ParameterValue::I8Array(grab_values(a.as_slice(), a.len())),
                a.len(),
            ),
            CommandParameter::Uint8Array(a) => array_parameter(
                EParameterKind::Uint8Array,
                ParameterValue::U8Array(grab_values(a.as_slice(), a.len())),
                a.len(),
            ),
            CommandParameter::Int16Array(a) => array_parameter(
                EParameterKind::Int16Array,
                ParameterValue::I16Array(grab_values(a.as_slice(), a.len())),
                a.len(),
            ),
            CommandParameter::Uint16Array(a) => array_parameter(
                EParameterKind::Uint16Array,
                ParameterValue::U16Array(grab_values(a.as_slice(), a.len())),
                a.len(),
            ),
            CommandParameter::Int32Array(a) => array_parameter(
                EParameterKind::Int32Array,
                ParameterValue::I32Array(grab_values(a.as_slice(), a.len())),
                a.len(),
            ),
            CommandParameter::Uint32Array(a) => array_parameter(
                EParameterKind::Uint32Array,
                ParameterValue::U32Array(grab_values(a.as_slice(), a.len())),
                a.len(),
            ),
            CommandParameter::Int64Array(a) => array_parameter(
                EParameterKind::Int64Array,
                ParameterValue::I64Array(grab_values(a.as_slice(), a.len())),
                a.len(),
            ),
            CommandParameter::Uint64Array(a) => array_parameter(
                EParameterKind::Uint64Array,
                ParameterValue::U64Array(grab_values(a.as_slice(), a.len())),
                a.len(),
            ),
            CommandParameter::Float32Array(a) => array_parameter(
                EParameterKind::Float32Array,
                ParameterValue::F32Array(grab_values(a.as_slice(), a.len())),
                a.len(),
            ),
            CommandParameter::Float64Array(a) => array_parameter(
                EParameterKind::Float64Array,
                ParameterValue::F64Array(grab_values(a.as_slice(), a.len())),
                a.len(),
            ),
            CommandParameter::KeyValueArray(items) => {
                assert(arg@->KeyValueArray_0 =~= entries_view(items@));
                match encode_entries(items) {
                    Some(pairs) => {
                        assert(ParameterValue::KeyParameterArray(pairs)@->KeyParameterArray_0
                            =~= pairs_view(pairs@));
                        array_parameter(
                            EParameterKind::KeyValueArray,
                            ParameterValue::KeyParameterArray(pairs),
                            items.len(),
                        )
                    },
                    None => None,
                }
            },
        }
    }
}

/// A parameter that declares `len` elements, or `None` where `len` does not
/// fit the 32 bits that a parameter has for it.
fn array_parameter(kind: EParameterKind, value: ParameterValue, len: usize) -> (res: Option<
    Parameter,
>)
    ensures
        match res {
            Some(p) => len <= u32::MAX && p.kind == kind && p.value == value && p.value_length
                == len,
            None => len > u32::MAX,
        },
{
    if len > u32::MAX as usize {
        None
    } else {
        Some(Parameter { kind, value, value_length: len as u32 })
    }
}

/// The mathematical value of the entries of a key-value argument.
pub open spec fn entries_view(items: Seq<(String, CommandParameter)>) -> Seq<
    (Seq<char>, CommandParameterView),
> {
    Seq::new(items.len(), |i: int| (items[i].0@, items[i].1@))
}

/// The mathematical value of the entries of a key-value parameter.
pub open spec fn pairs_view(pairs: Seq<KeyParameterPair>) -> Seq<KeyParameterPairView> {
    Seq::new(pairs.len(), |i: int| pairs[i]@)
}

/// Encodes the entries of a key-value argument, in order.
fn encode_entries(items: &Vec<(String, CommandParameter)>) -> (res: Option<Vec<KeyParameterPair>>)
    ensures
        match res {
            Some(pairs) => encoded_entries(entries_view(items@), items@.len() as int) == Some(
                pairs_view(pairs@),
            ),
            None => encoded_entries(entries_view(items@), items@.len() as int) is None,
        },
    decreases items,
{
    let n = items.len();
    let ghost entries = entries_view(items@);
    let mut pairs: Vec<KeyParameterPair> = Vec::with_capacity(n);
    let mut i: usize = 0;
    while i < n
        invariant
            i <= n,
            n == items@.len(),
            entries == entries_view(items@),
            encoded_entries(entries, i as int) == Some(pairs_view(pairs@)),
            pairs@.len() == i,
        decreases n - i,
    {
        let ghost head = pairs_view(pairs@);
        let key = items[i].0.as_str().as_bytes_vec();
        if key.len() > u32::MAX as usize {
            proof {
                lemma_encoded_entries_none(entries, i + 1, n as int);
            }
            return None;
        }
        let key_length = key.len() as u32;
        match Parameter::from_command_parameter(&items[i].1) {
            Some(value) => {
                let pair = KeyParameterPair { key: Some(key), key_length, value };
                let ghost pair_view = pair@;
                pairs.push(pair);
                assert(pairs_view(pairs@) =~= head.push(pair_view));
            },
            None => {
                proof {
                    lemma_encoded_entries_none(entries, i + 1, n as int);
                }
                return None;
            },
        }
        i += 1;
    }
    Some(pairs)
}

/// The mathematical values of a list of parameters.
pub open spec fn parameters_view(params: Seq<Parameter>) -> Seq<ParameterView> {
    Seq::new(params.len(), |i: int| params[i]@)
}

/// The first error met in the parameters `from..` of a list, read in order.
pub open spec fn parameters_failure(params: Seq<ParameterView>, from: int) -> Option<Utf8OrEmptyError>
    decreases params.len() - from,
{
    if 0 <= from < params.len() {
        match params[from].failure() {
            Some(fault) => Some(fault),
            None => parameters_failure(params, from + 1),
        }
    } else {
        None
    }
}

/// The arguments that the parameters of a list decode to, in order.
pub open spec fn parameters_decoded(params: Seq<ParameterView>) -> Seq<CommandParameterView> {
    Seq::new(params.len(), |i: int| params[i].decoded())
}

/// Where no parameter from `from` on has an error, there is no first error.
proof fn lemma_parameters_failure_none(params: Seq<ParameterView>, from: int)
    requires
        0 <= from <= params.len(),
        forall|i: int| from <= i < params.len() ==> (#[trigger] params[i]).failure() is None,
    ensures
        parameters_failure(params, from) is None,
    decreases params.len() - from,
{
    if from < params.len() {
        lemma_parameters_failure_none(params, from + 1);
    }
}

/// The first error from `from` on is that of the first parameter that has
/// one.
proof fn lemma_parameters_failure_at(params: Seq<ParameterView>, from: int, k: int)
    requires
        0 <= from <= k < params.len(),
        forall|i: int| from <= i < k ==> (#[trigger] params[i]).failure() is None,
        params[k].failure() is Some,
    ensures
        parameters_failure(params, from) == params[k].failure(),
    decreases k - from,
{
    if from < k {
        lemma_parameters_failure_at(params, from + 1, k);
    }
}

/// Decodes the parameters of a command, in order. The first one that cannot
/// be decoded ends the decoding with its error, and no argument is handed
/// back.
pub fn to_command_parameters(params: &[Parameter]) -> (res: Result<
    Vec<CommandParameter>,
    Utf8OrEmptyError,
>)
    requires
        forall|i: int| 0 <= i < params@.len() ==> (#[trigger] params@[i])@.wf(),
    ensures
        match res {
            Ok(args) => {
                &&& parameters_failure(parameters_view(params@), 0) is None
                &&& crate::apihandle::args_view(args@) == parameters_decoded(
                    parameters_view(params@),
                )
            },
            Err(e) => parameters_failure(parameters_view(params@), 0) == Some(e),
        },
{
    let ghost views = parameters_view(params@);
    let decode = |param: &Parameter| -> (r: Result<CommandParameter, Utf8OrEmptyError>)
        requires
            param@.wf(),
        ensures
            match r {
                Ok(decoded) => param@.failure() is None && decoded@ == param@.decoded(),
                Err(e) => param@.failure() == Some(e),
            },
        { param.to_command_parameter() };
    match grab_vec(params, params.len(), decode) {
        Ok(args) => {
            proof {
                assert forall|i: int| 0 <= i < views.len() implies {
                    &&& (#[trigger] views[i]).failure() is None
                    &&& args@[i]@ == views[i].decoded()
                } by {
                    assert(call_ensures(decode, (&params@[i],), Ok(args@[i])));
                }
                lemma_parameters_failure_none(views, 0);
                assert(crate::apihandle::args_view(args@) =~= parameters_decoded(views));
            }
            Ok(args)
        },
        Err(e) => {
            proof {
                let k = choose|k: int|
                    {
                        &&& 0 <= k < params@.len()
                        &&& call_ensures(decode, (&#[trigger] params@[k],), Err(e))
                        &&& forall|i: int|
                            0 <= i < k ==> crate::helpers::takes_over(
                                decode,
                                #[trigger] params@[i],
                            )
                    };
                assert forall|i: int| 0 <= i < k implies (#[trigger] views[i]).failure() is None by {
                    assert(crate::helpers::takes_over(decode, params@[i]));
                }
                lemma_parameters_failure_at(views, 0, k);
            }
            Err(e)
        },
    }
}

/// The parameter that holds a string of the caller: its bytes, or `None` for
/// a null pointer.
pub open spec fn string_parameter(bytes: Option<Seq<u8>>) -> ParameterView {
    ParameterView {
        kind: EParameterKind::String,
        value: ParameterValueView::String(bytes),
        value_length: 0,
    }
}

impl Parameter {
    /// Makes the parameter that holds a string of the caller.
    pub fn string(bytes: Option<&[u8]>) -> (res: Parameter)
        ensures
            res@ == string_parameter(
                match bytes {
                    Some(b) => Some(b@),
                    None => None,
                },
            ),
            res@.wf(),
    {
        let value = match bytes {
            Some(b) => Some(grab_values(b, b.len())),
            None => None,
        };
        Parameter { kind: EParameterKind::String, value: ParameterValue::String(value), value_length: 0 }
    }
}

} // verus!
