//! Owned command arguments and how they go onto the wire.

use vstd::prelude::*;

verus! {

/// One decoded command argument, holding its own storage.
#[derive(Debug, PartialEq, Eq)]
pub enum CommandParameter {
    Bool(bool),
    Int8(i8),
    Uint8(u8),
    Int16(i16),
    Uint16(u16),
    Int32(i32),
    Uint32(u32),
    Int64(i64),
    Uint64(u64),
    /// The IEEE 754 bit pattern of a single-precision number.
    Float32(u32),
    /// The IEEE 754 bit pattern of a double-precision number.
    Float64(u64),
    String(String),
    BoolArray(Vec<bool>),
    Int8Array(Vec<i8>),
    Uint8Array(Vec<u8>),
    Int16Array(Vec<i16>),
    Uint16Array(Vec<u16>),
    Int32Array(Vec<i32>),
    Uint32Array(Vec<u32>),
    Int64Array(Vec<i64>),
    Uint64Array(Vec<u64>),
    /// IEEE 754 bit patterns of single-precision numbers.
    Float32Array(Vec<u32>),
    /// IEEE 754 bit patterns of double-precision numbers.
    Float64Array(Vec<u64>),
    KeyValueArray(Vec<(String, CommandParameter)>),
}

/// The mathematical value of a [`CommandParameter`].
pub enum CommandParameterView {
    Bool(bool),
    Int8(i8),
    Uint8(u8),
    Int16(i16),
    Uint16(u16),
    Int32(i32),
    Uint32(u32),
    Int64(i64),
    Uint64(u64),
    Float32(u32),
    Float64(u64),
    String(Seq<char>),
    BoolArray(Seq<bool>),
    Int8Array(Seq<i8>),
    Uint8Array(Seq<u8>),
    Int16Array(Seq<i16>),
    Uint16Array(Seq<u16>),
    Int32Array(Seq<i32>),
    Uint32Array(Seq<u32>),
    Int64Array(Seq<i64>),
    Uint64Array(Seq<u64>),
    Float32Array(Seq<u32>),
    Float64Array(Seq<u64>),
    KeyValueArray(Seq<(Seq<char>, CommandParameterView)>),
}

impl CommandParameter {
    pub open spec fn view(&self) -> CommandParameterView
        decreases self,
    {
        match self {
            CommandParameter::Bool(v) => CommandParameterView::Bool(*v),
            CommandParameter::Int8(v) => CommandParameterView::Int8(*v),
            CommandParameter::Uint8(v) => CommandParameterView::Uint8(*v),
            CommandParameter::Int16(v) => CommandParameterView::Int16(*v),
            CommandParameter::Uint16(v) => CommandParameterView::Uint16(*v),
            CommandParameter::Int32(v) => CommandParameterView::Int32(*v),
            CommandParameter::Uint32(v) => CommandParameterView::Uint32(*v),
            CommandParameter::Int64(v) => CommandParameterView::Int64(*v),
            CommandParameter::Uint64(v) => CommandParameterView::Uint64(*v),
            CommandParameter::Float32(v) => CommandParameterView::Float32(*v),
            CommandParameter::Float64(v) => CommandParameterView::Float64(*v),
            CommandParameter::String(v) => CommandParameterView::String(v@),
            CommandParameter::BoolArray(v) => CommandParameterView::BoolArray(v@),
            CommandParameter::Int8Array(v) => CommandParameterView::Int8Array(v@),
            CommandParameter::Uint8Array(v) => CommandParameterView::Uint8Array(v@),
            CommandParameter::Int16Array(v) => CommandParameterView::Int16Array(v@),
            CommandParameter::Uint16Array(v) => CommandParameterView::Uint16Array(v@),
            CommandParameter::Int32Array(v) => CommandParameterView::Int32Array(v@),
            CommandParameter::Uint32Array(v) => CommandParameterView::Uint32Array(v@),
            CommandParameter::Int64Array(v) => CommandParameterView::Int64Array(v@),
            CommandParameter::Uint64Array(v) => CommandParameterView::Uint64Array(v@),
            CommandParameter::Float32Array(v) => CommandParameterView::Float32Array(v@),
            CommandParameter::Float64Array(v) => CommandParameterView::Float64Array(v@),
            CommandParameter::KeyValueArray(v) => CommandParameterView::KeyValueArray(
                Seq::new(
                    v@.len(),
                    |i: int|
                        if 0 <= i < v@.len() {
                            (v@[i].0@, v@[i].1.view())
                        } else {
                            arbitrary()
                        },
                ),
            ),
        }
    }
}

#[verifier::external_type_specification]
#[verifier::external_body]
pub struct ExCmd(redis::Cmd);

/// The arguments that a command holds, in order, each as its bytes. The
/// place that a command keeps for a cursor counts as an argument without
/// bytes.
pub uninterp spec fn cmd_args(cmd: redis::Cmd) -> Seq<Seq<u8>>;

/// The digits of `n` in base ten, without leading zeros.
pub open spec fn decimal_digits(n: nat) -> Seq<u8>
    decreases n,
{
    if n < 10 {
        seq![(48 + n) as u8]
    } else {
        decimal_digits(n / 10).push((48 + n % 10) as u8)
    }
}

/// An integer written in base ten, with a leading `-` where it is negative.
pub open spec fn decimal_text(v: int) -> Seq<u8> {
    if v < 0 {
        seq![45u8] + decimal_digits((-v) as nat)
    } else {
        decimal_digits(v as nat)
    }
}

/// A flag written for the wire: `1` where it is set, `0` where it is not.
pub open spec fn bool_text(v: bool) -> Seq<u8> {
    if v {
        seq![49u8]
    } else {
        seq![48u8]
    }
}

/// `redis::ToRedisArgs::write_redis_args` for `bool`, writing into a list of
/// arguments: one argument is appended, the digit 1 for `true` and the digit
/// 0 for `false`.
#[verifier::external_body]
fn write_bool_arg(v: bool, out: &mut Vec<Vec<u8>>)
    ensures
        final(out).deep_view() == old(out).deep_view().push(bool_text(v)),
{
    redis::ToRedisArgs::write_redis_args(&v, out)
}

/// `redis::ToRedisArgs::write_redis_args` for `i64`, writing into a list of
/// arguments: one argument is appended, the integer in base ten as the `itoa`
/// crate prints it.
#[verifier::external_body]
fn write_i64_arg(v: i64, out: &mut Vec<Vec<u8>>)
    ensures
        final(out).deep_view() == old(out).deep_view().push(decimal_text(v as int)),
{
    redis::ToRedisArgs::write_redis_args(&v, out)
}

/// `redis::ToRedisArgs::write_redis_args` for `u64`, writing into a list of
/// arguments: one argument is appended, the integer in base ten as the `itoa`
/// crate prints it.
#[verifier::external_body]
fn write_u64_arg(v: u64, out: &mut Vec<Vec<u8>>)
    ensures
        final(out).deep_view() == old(out).deep_view().push(decimal_text(v as int)),
{
    redis::ToRedisArgs::write_redis_args(&v, out)
}

/// `redis::ToRedisArgs::write_redis_args` for `String`, writing into a list
/// of arguments: one argument is appended, the bytes of the string.
#[verifier::external_body]
fn write_string_arg(v: &String, out: &mut Vec<Vec<u8>>)
    ensures
        final(out).deep_view() == old(out).deep_view().push(vstd::utf8::encode_utf8(v@)),
{
    redis::ToRedisArgs::write_redis_args(v, out)
}

/// `redis::ToRedisArgs::write_redis_args` for `Vec<u8>`, writing into a list
/// of arguments: the bytes are appended as one argument, not one for each.
#[verifier::external_body]
fn write_bytes_arg(v: &Vec<u8>, out: &mut Vec<Vec<u8>>)
    ensures
        final(out).deep_view() == old(out).deep_view().push(v@),
{
    redis::ToRedisArgs::write_redis_args(v, out)
}

/// `redis::Cmd::arg` with a slice of bytes: the bytes are appended to the
/// command as one argument.
#[verifier::external_body]
fn cmd_arg(cmd: &mut redis::Cmd, arg: &[u8])
    ensures
        cmd_args(*final(cmd)) == cmd_args(*old(cmd)).push(arg@),
{
    cmd.arg(arg);
}

/// Writes each flag of an array as an argument of its own.
fn write_bool_array(items: &Vec<bool>, out: &mut Vec<Vec<u8>>)
    ensures
        final(out).deep_view() == old(out).deep_view() + items@.map_values(|v: bool| bool_text(v)),
{
    let mut i: usize = 0;
    while i < items.len()
        invariant
            i <= items@.len(),
            out.deep_view() == old(out).deep_view() + items@.subrange(0, i as int).map_values(
                |v: bool| bool_text(v),
            ),
        decreases items@.len() - i,
    {
        write_bool_arg(items[i], out);
        assert(out.deep_view() =~= old(out).deep_view() + items@.subrange(
            0,
            i + 1,
        ).map_values(|v: bool| bool_text(v)));
        i += 1;
    }
    assert(items@.subrange(0, i as int) =~= items@);
}

/// Writes each integer of an array as an argument of its own.
fn write_i8_array(items: &Vec<i8>, out: &mut Vec<Vec<u8>>)
    ensures
        final(out).deep_view() == old(out).deep_view() + items@.map_values(
            |v: i8| decimal_text(v as int),
        ),
{
    let mut i: usize = 0;
    while i < items.len()
        invariant
            i <= items@.len(),
            out.deep_view() == old(out).deep_view() + items@.subrange(0, i as int).map_values(
                |v: i8| decimal_text(v as int),
            ),
        decreases items@.len() - i,
    {
        write_i64_arg(items[i] as i64, out);
        assert(out.deep_view() =~= old(out).deep_view() + items@.subrange(
            0,
            i + 1,
        ).map_values(|v: i8| decimal_text(v as int)));
        i += 1;
    }
    assert(items@.subrange(0, i as int) =~= items@);
}

/// Writes each integer of an array as an argument of its own.
fn write_i16_array(items: &Vec<i16>, out: &mut Vec<Vec<u8>>)
    ensures
        final(out).deep_view() == old(out).deep_view() + items@.map_values(
            |v: i16| decimal_text(v as int),
        ),
{
    let mut i: usize = 0;
    while i < items.len()
        invariant
            i <= items@.len(),
            out.deep_view() == old(out).deep_view() + items@.subrange(0, i as int).map_values(
                |v: i16| decimal_text(v as int),
            ),
        decreases items@.len() - i,
    {
        write_i64_arg(items[i] as i64, out);
        assert(out.deep_view() =~= old(out).deep_view() + items@.subrange(
            0,
            i + 1,
        ).map_values(|v: i16| decimal_text(v as int)));
        i += 1;
    }
    assert(items@.subrange(0, i as int) =~= items@);
}

/// Writes each integer of an array as an argument of its own.
fn write_u16_array(items: &Vec<u16>, out: &mut Vec<Vec<u8>>)
    ensures
        final(out).deep_view() == old(out).deep_view() + items@.map_values(
            |v: u16| decimal_text(v as int),
        ),
{
    let mut i: usize = 0;
    while i < items.len()
        invariant
            i <= items@.len(),
            out.deep_view() == old(out).deep_view() + items@.subrange(0, i as int).map_values(
                |v: u16| decimal_text(v as int),
            ),
        decreases items@.len() - i,
    {
        write_u64_arg(items[i] as u64, out);
        assert(out.deep_view() =~= old(out).deep_view() + items@.subrange(
            0,
            i + 1,
        ).map_values(|v: u16| decimal_text(v as int)));
        i += 1;
    }
    assert(items@.subrange(0, i as int) =~= items@);
}

/// Writes each integer of an array as an argument of its own.
fn write_i32_array(items: &Vec<i32>, out: &mut Vec<Vec<u8>>)
    ensures
        final(out).deep_view() == old(out).deep_view() + items@.map_values(
            |v: i32| decimal_text(v as int),
        ),
{
    let mut i: usize = 0;
    while i < items.len()
        invariant
            i <= items@.len(),
            out.deep_view() == old(out).deep_view() + items@.subrange(0, i as int).map_values(
                |v: i32| decimal_text(v as int),
            ),
        decreases items@.len() - i,
    {
        write_i64_arg(items[i] as i64, out);
        assert(out.deep_view() =~= old(out).deep_view() + items@.subrange(
            0,
            i + 1,
        ).map_values(|v: i32| decimal_text(v as int)));
        i += 1;
    }
    assert(items@.subrange(0, i as int) =~= items@);
}

/// Writes each integer of an array as an argument of its own.
fn write_u32_array(items: &Vec<u32>, out: &mut Vec<Vec<u8>>)
    ensures
        final(out).deep_view() == old(out).deep_view() + items@.map_values(
            |v: u32| decimal_text(v as int),
        ),
{
    let mut i: usize = 0;
    while i < items.len()
        invariant
            i <= items@.len(),
            out.deep_view() == old(out).deep_view() + items@.subrange(0, i as int).map_values(
                |v: u32| decimal_text(v as int),
            ),
        decreases items@.len() - i,
    {
        write_u64_arg(items[i] as u64, out);
        assert(out.deep_view() =~= old(out).deep_view() + items@.subrange(
            0,
            i + 1,
        ).map_values(|v: u32| decimal_text(v as int)));
        i += 1;
    }
    assert(items@.subrange(0, i as int) =~= items@);
}

/// Writes each integer of an array as an argument of its own.
fn write_i64_array(items: &Vec<i64>, out: &mut Vec<Vec<u8>>)
    ensures
        final(out).deep_view() == old(out).deep_view() + items@.map_values(
            |v: i64| decimal_text(v as int),
        ),
{
    let mut i: usize = 0;
    while i < items.len()
        invariant
            i <= items@.len(),
            out.deep_view() == old(out).deep_view() + items@.subrange(0, i as int).map_values(
                |v: i64| decimal_text(v as int),
            ),
        decreases items@.len() - i,
    {
        write_i64_arg(items[i], out);
        assert(out.deep_view() =~= old(out).deep_view() + items@.subrange(
            0,
            i + 1,
        ).map_values(|v: i64| decimal_text(v as int)));
        i += 1;
    }
    assert(items@.subrange(0, i as int) =~= items@);
}

/// Writes each integer of an array as an argument of its own.
fn write_u64_array(items: &Vec<u64>, out: &mut Vec<Vec<u8>>)
    ensures
        final(out).deep_view() == old(out).deep_view() + items@.map_values(
            |v: u64| decimal_text(v as int),
        ),
{
    let mut i: usize = 0;
    while i < items.len()
        invariant
            i <= items@.len(),
            out.deep_view() == old(out).deep_view() + items@.subrange(0, i as int).map_values(
                |v: u64| decimal_text(v as int),
            ),
        decreases items@.len() - i,
    {
        write_u64_arg(items[i], out);
        assert(out.deep_view() =~= old(out).deep_view() + items@.subrange(
            0,
            i + 1,
        ).map_values(|v: u64| decimal_text(v as int)));
        i += 1;
    }
    assert(items@.subrange(0, i as int) =~= items@);
}

/// The wire arguments of the first `n` entries of a key-value array: for each
/// entry, in order, the bytes of the key as one argument and then the wire
/// arguments of the value.
pub open spec fn entries_wire_args(items: Seq<(Seq<char>, CommandParameterView)>, n: int) -> Seq<
    Seq<u8>,
>
    decreases items, n,
{
    if 0 < n <= items.len() {
        entries_wire_args(items, n - 1).push(vstd::utf8::encode_utf8(items[n - 1].0)) + items[n
            - 1].1.wire_args()
    } else {
        Seq::empty()
    }
}

impl CommandParameterView {
    /// True of the arguments that this library writes for the wire itself:
    /// all but floating-point values, whose text is not made here, and
    /// key-value arrays that hold such a value.
    pub open spec fn has_wire_form(self) -> bool
        decreases self,
    {
        match self {
            CommandParameterView::Float32(_) => false,
            CommandParameterView::Float64(_) => false,
            CommandParameterView::Float32Array(_) => false,
            CommandParameterView::Float64Array(_) => false,
            CommandParameterView::KeyValueArray(items) => forall|i: int|
                0 <= i < items.len() ==> (#[trigger] items[i]).1.has_wire_form(),
            _ => true,
        }
    }

    /// The wire arguments that stand for this argument, in order: a flag as
    /// the digit 1 or 0, an integer in base ten, a string as its bytes, an
    /// array of bytes as one argument, any other array as one argument for
    /// each element, a key-value array as the key and then the value of each
    /// entry.
    pub open spec fn wire_args(self) -> Seq<Seq<u8>>
        decreases self, 0nat,
    {
        match self {
            CommandParameterView::Bool(v) => seq![bool_text(v)],
            CommandParameterView::Int8(v) => seq![decimal_text(v as int)],
            CommandParameterView::Uint8(v) => seq![decimal_text(v as int)],
            CommandParameterView::Int16(v) => seq![decimal_text(v as int)],
            CommandParameterView::Uint16(v) => seq![decimal_text(v as int)],
            CommandParameterView::Int32(v) => seq![decimal_text(v as int)],
            CommandParameterView::Uint32(v) => seq![decimal_text(v as int)],
            CommandParameterView::Int64(v) => seq![decimal_text(v as int)],
            CommandParameterView::Uint64(v) => seq![decimal_text(v as int)],
            CommandParameterView::String(s) => seq![vstd::utf8::encode_utf8(s)],
            CommandParameterView::BoolArray(a) => a.map_values(|v: bool| bool_text(v)),
            CommandParameterView::Uint8Array(a) => seq![a],
            CommandParameterView::Int8Array(a) => a.map_values(|v: i8| decimal_text(v as int)),
            CommandParameterView::Int16Array(a) => a.map_values(|v: i16| decimal_text(v as int)),
            CommandParameterView::Uint16Array(a) => a.map_values(|v: u16| decimal_text(v as int)),
            CommandParameterView::Int32Array(a) => a.map_values(|v: i32| decimal_text(v as int)),
            CommandParameterView::Uint32Array(a) => a.map_values(|v: u32| decimal_text(v as int)),
            CommandParameterView::Int64Array(a) => a.map_values(|v: i64| decimal_text(v as int)),
            CommandParameterView::Uint64Array(a) => a.map_values(|v: u64| decimal_text(v as int)),
            CommandParameterView::KeyValueArray(items) => entries_wire_args(
                items,
                items.len() as int,
            ),
            _ => Seq::empty(),
        }
    }
}

/// The wire arguments of the first `n` arguments of a list, in order.
pub open spec fn wire_args_of(args: Seq<CommandParameterView>, n: int) -> Seq<Seq<u8>>
    decreases n,
{
    if 0 < n <= args.len() {
        wire_args_of(args, n - 1) + args[n - 1].wire_args()
    } else {
        Seq::empty()
    }
}

/// The mathematical values of a list of arguments.
pub open spec fn args_view(args: Seq<CommandParameter>) -> Seq<CommandParameterView> {
    Seq::new(args.len(), |i: int| args[i]@)
}

/// Tells whether every value of a key-value array has a wire form.
fn entries_have_wire_form(items: &Vec<(String, CommandParameter)>) -> (res: bool)
    ensures
        res == forall|i: int| 0 <= i < items@.len() ==> (#[trigger] items@[i]).1@.has_wire_form(),
    decreases items,
{
    let mut i: usize = 0;
    while i < items.len()
        invariant
            i <= items@.len(),
            forall|j: int| 0 <= j < i ==> (#[trigger] items@[j]).1@.has_wire_form(),
        decreases items@.len() - i,
    {
        if !items[i].1.has_wire_form() {
            return false;
        }
        i += 1;
    }
    true
}

/// Writes the entries of a key-value array, in order: the key of each as one
/// argument, then the wire arguments of its value.
fn write_entries(items: &Vec<(String, CommandParameter)>, out: &mut Vec<Vec<u8>>)
    requires
        forall|i: int| 0 <= i < items@.len() ==> (#[trigger] items@[i]).1@.has_wire_form(),
    ensures
        final(out).deep_view() == old(out).deep_view() + entries_wire_args(
            crate::parameter::entries_view(items@),
            items@.len() as int,
        ),
    decreases items,
{
    let ghost before = out.deep_view();
    let ghost entries = crate::parameter::entries_view(items@);
    let mut i: usize = 0;
    while i < items.len()
        invariant
            i <= items@.len(),
            before == old(out).deep_view(),
            entries == crate::parameter::entries_view(items@),
            forall|j: int| 0 <= j < items@.len() ==> (#[trigger] items@[j]).1@.has_wire_form(),
            out.deep_view() == before + entries_wire_args(entries, i as int),
        decreases items@.len() - i,
    {
        write_string_arg(&items[i].0, out);
        items[i].1.write_redis_args(out);
        assert(out.deep_view() =~= before + entries_wire_args(entries, i + 1));
        i += 1;
    }
}

impl CommandParameter {
    /// Tells whether this argument is one that [`Self::write_redis_args`]
    /// writes.
    pub fn has_wire_form(&self) -> (res: bool)
        ensures
            res == self@.has_wire_form(),
        decreases self,
    {
        match self {
            CommandParameter::Float32(_) => false,
            CommandParameter::Float64(_) => false,
            CommandParameter::Float32Array(_) => false,
            CommandParameter::Float64Array(_) => false,
            CommandParameter::KeyValueArray(items) => {
                let res = entries_have_wire_form(items);
                proof {
                    let entries = self@->KeyValueArray_0;
                    if res {
                        assert forall|i: int| 0 <= i < entries.len() implies (
                        #[trigger] entries[i]).1.has_wire_form() by {
                            assert(entries[i].1 == items@[i].1@);
                        }
                    } else if self@.has_wire_form() {
                        assert forall|i: int| 0 <= i < items@.len() implies (
                        #[trigger] items@[i]).1@.has_wire_form() by {
                            assert(entries[i].1 == items@[i].1@);
                        }
                    }
                }
                res
            },
            _ => true,
        }
    }

    /// Appends the wire arguments of this argument to `out`.
    ///
    /// Every integer goes through the writer for 64 bits of its signedness;
    /// widening an integer does not change how it reads in base ten.
    pub fn write_redis_args(&self, out: &mut Vec<Vec<u8>>)
        requires
            self@.has_wire_form(),
        ensures
            final(out).deep_view() == old(out).deep_view() + self@.wire_args(),
        decreases self,
    {
        let ghost before = out.deep_view();
        match self {
            CommandParameter::Bool(value) => write_bool_arg(*value, out),
            CommandParameter::Int8(value) => write_i64_arg(*value as i64, out),
            CommandParameter::Uint8(value) => write_u64_arg(*value as u64, out),
            CommandParameter::Int16(value) => write_i64_arg(*value as i64, out),
            CommandParameter::Uint16(value) => write_u64_arg(*value as u64, out),
            CommandParameter::Int32(value) => write_i64_arg(*value as i64, out),
            CommandParameter::Uint32(value) => write_u64_arg(*value as u64, out),
            CommandParameter::Int64(value) => write_i64_arg(*value, out),
            CommandParameter::Uint64(value) => write_u64_arg(*value, out),
            CommandParameter::String(value) => write_string_arg(value, out),
            CommandParameter::BoolArray(value) => write_bool_array(value, out),
            CommandParameter::Uint8Array(value) => write_bytes_arg(value, out),
            CommandParameter::Int8Array(value) => write_i8_array(value, out),
            CommandParameter::Int16Array(value) => write_i16_array(value, out),
            CommandParameter::Uint16Array(value) => write_u16_array(value, out),
            CommandParameter::Int32Array(value) => write_i32_array(value, out),
            CommandParameter::Uint32Array(value) => write_u32_array(value, out),
            CommandParameter::Int64Array(value) => write_i64_array(value, out),
            CommandParameter::Uint64Array(value) => write_u64_array(value, out),
            CommandParameter::KeyValueArray(items) => {
                let ghost entries = self@->KeyValueArray_0;
                assert(entries =~= crate::parameter::entries_view(items@));
                assert forall|i: int| 0 <= i < items@.len() implies (
                #[trigger] items@[i]).1@.has_wire_form() by {
                    assert(entries[i].1 == items@[i].1@);
                }
                write_entries(items, out)
            },
            _ => {},
        }
        assert(out.deep_view() =~= before + self@.wire_args());
    }
}

/// Appends the wire arguments of one argument to a command.
pub fn append_argument(cmd: &mut redis::Cmd, arg: &CommandParameter)
    requires
        arg@.has_wire_form(),
    ensures
        cmd_args(*final(cmd)) == cmd_args(*old(cmd)) + arg@.wire_args(),
{
    let mut out: Vec<Vec<u8>> = Vec::new();
    arg.write_redis_args(&mut out);
    assert(out.deep_view() =~= arg@.wire_args());
    let mut i: usize = 0;
    while i < out.len()
        invariant
            i <= out@.len(),
            out.deep_view() == arg@.wire_args(),
            cmd_args(*cmd) == cmd_args(*old(cmd)) + arg@.wire_args().subrange(0, i as int),
        decreases out@.len() - i,
    {
        cmd_arg(cmd, out[i].as_slice());
        assert(out.deep_view()[i as int] == out@[i as int]@);
        assert(cmd_args(*cmd) =~= cmd_args(*old(cmd)) + arg@.wire_args().subrange(0, i + 1));
        i += 1;
    }
    assert(arg@.wire_args().subrange(0, i as int) =~= arg@.wire_args());
}

/// Appends the wire arguments of every argument of a list to a command, in
/// the order of the list, and hands the command back.
pub fn command_with_arguments(cmd: redis::Cmd, args: &[CommandParameter]) -> (res: redis::Cmd)
    requires
        forall|i: int| 0 <= i < args@.len() ==> (#[trigger] args@[i])@.has_wire_form(),
    ensures
        cmd_args(res) == cmd_args(cmd) + wire_args_of(args_view(args@), args@.len() as int),
{
    let mut cmd = cmd;
    let ghost start = cmd_args(cmd);
    let mut i: usize = 0;
    while i < args.len()
        invariant
            i <= args@.len(),
            forall|j: int| 0 <= j < args@.len() ==> (#[trigger] args@[j])@.has_wire_form(),
            cmd_args(cmd) == start + wire_args_of(args_view(args@), i as int),
        decreases args@.len() - i,
    {
        append_argument(&mut cmd, &args[i]);
        assert(cmd_args(cmd) =~= start + wire_args_of(args_view(args@), i + 1));
        i += 1;
    }
    cmd
}

} // verus!
