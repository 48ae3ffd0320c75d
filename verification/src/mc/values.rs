//! Values in the memory of a controller: the bytes that each type is read from
//! and written as, and how many words of which device an access takes.

use super::codec::{json_bytes, number_width, stands_for, value_bytes, JsonScalar};
use super::driver::parsed_write_spec;
use super::handle::{
    at_least_one, parameter_at_spec, planner_limits, point_write_at_spec, read_spec, target_spec,
    words_spec, AccessFor, Refusal, ResolvedParameter, TypedPointReadSpec, WriteOf,
};
use super::protocol::frame::addr::{parsed, McLogicalAddress};
use super::protocol::frame::format::device_units;
use super::types::{McChannelConfig, McPoint};
use crate::gateway::{DataType, NGValue};
use crate::wire::{bytes_content, lemma_le2, lemma_le4, lemma_le_bytes_len, twos};
use vstd::prelude::*;
use vstd::utf8::encode_utf8;

verus! {

/// The number in the first `n` bytes, low byte first.
pub open spec fn number_in(p: Seq<u8>, n: nat) -> int
    decreases n,
{
    if n == 0 {
        0
    } else {
        number_in(p, (n - 1) as nat) + p[n - 1] * place_value((n - 1) as nat)
    }
}

/// What a byte at this place counts.
pub open spec fn place_value(place: nat) -> int {
    if place == 0 {
        1
    } else if place == 1 {
        0x100
    } else if place == 2 {
        0x1_0000
    } else if place == 3 {
        0x100_0000
    } else if place == 4 {
        0x1_0000_0000
    } else if place == 5 {
        0x100_0000_0000
    } else if place == 6 {
        0x1_0000_0000_0000
    } else {
        0x100_0000_0000_0000
    }
}

/// The number in the first `n` bytes as two's complement: with the top bit
/// set it is negative.
pub open spec fn signed_in(p: Seq<u8>, n: nat) -> int {
    if p[n - 1] < 128 {
        number_in(p, n)
    } else {
        number_in(p, n) - 256 * place_value((n - 1) as nat)
    }
}

proof fn lemma_number_in(p: Seq<u8>)
    ensures
        number_in(p, 1) == p[0],
        number_in(p, 2) == p[0] + 0x100 * p[1],
        number_in(p, 4) == p[0] + 0x100 * p[1] + 0x1_0000 * p[2] + 0x100_0000 * p[3],
        number_in(p, 8) == p[0] + 0x100 * p[1] + 0x1_0000 * p[2] + 0x100_0000 * p[3]
            + 0x1_0000_0000 * p[4] + 0x100_0000_0000 * p[5] + 0x1_0000_0000_0000 * p[6]
            + 0x100_0000_0000_0000 * p[7],
{
    reveal_with_fuel(number_in, 9);
}

/// Integers are read from the front of a payload, low byte first, in as many
/// bytes as their type has; those with a sign as two's complement.
pub proof fn integers_are_read_from_the_front(v: NGValue, t: DataType, p: Seq<u8>)
    requires
        stands_for(v, t, p),
        p.len() >= 8,
    ensures
        t is UInt8 ==> (v matches NGValue::UInt8(x) && x == number_in(p, 1)),
        t is UInt16 ==> (v matches NGValue::UInt16(x) && x == number_in(p, 2)),
        t is UInt32 ==> (v matches NGValue::UInt32(x) && x == number_in(p, 4)),
        t is UInt64 ==> (v matches NGValue::UInt64(x) && x == number_in(p, 8)),
        t is Int8 ==> (v matches NGValue::Int8(x) && x == signed_in(p, 1)),
        t is Int16 ==> (v matches NGValue::Int16(x) && x == signed_in(p, 2)),
        t is Int32 ==> (v matches NGValue::Int32(x) && x == signed_in(p, 4)),
        t is Int64 ==> (v matches NGValue::Int64(x) && x == signed_in(p, 8)),
{
    lemma_number_in(p);
}

/// Floats are read as the bit patterns in the first four or eight bytes, low
/// byte first; a boolean is set where the first byte is not 0; binaries are the
/// whole payload. Time stamps are not read.
pub proof fn other_values_are_read(v: NGValue, t: DataType, p: Seq<u8>)
    requires
        stands_for(v, t, p),
        p.len() >= 8,
    ensures
        t is Float32 ==> (v matches NGValue::Float32(x) && x == number_in(p, 4)),
        t is Float64 ==> (v matches NGValue::Float64(x) && x == number_in(p, 8)),
        t is Boolean ==> (v matches NGValue::Boolean(x) && x == (p[0] != 0)),
        t is Binary ==> (v matches NGValue::Binary(x) && bytes_content(x) == p),
        t is String ==> v is String,
        !(t is Timestamp),
{
    lemma_number_in(p);
}

/// The widths of numbers in bytes.
pub proof fn widths_of_numbers(t: DataType)
    ensures
        number_width(t) == if t is Int8 || t is UInt8 {
            1nat
        } else if t is Int16 || t is UInt16 {
            2
        } else if t is Int32 || t is UInt32 || t is Float32 {
            4
        } else if t is Int64 || t is UInt64 || t is Float64 {
            8
        } else {
            0
        },
{
}

/// Numbers are written in as many bytes as their type has; a boolean is one
/// byte, 0 or 1; text is its UTF-8 bytes; a time stamp is written like a
/// 64-bit integer.
pub proof fn written_values_have_their_width(v: NGValue)
    ensures
        !(v is Boolean || v is String || v is Binary || v is Timestamp) ==> value_bytes(v).len()
            == number_width(v.type_spec()),
        v matches NGValue::Boolean(b) ==> value_bytes(v) == seq![
            if b {
                1u8
            } else {
                0u8
            },
        ],
        v matches NGValue::String(s) ==> value_bytes(v) == encode_utf8(s@),
        v matches NGValue::Binary(b) ==> value_bytes(v) == bytes_content(b),
        v matches NGValue::Timestamp(i) ==> value_bytes(v) == value_bytes(NGValue::Int64(i)),
{
    broadcast use lemma_le_bytes_len;

}

/// The bytes of 16-bit and 32-bit numbers on the wire, low byte first.
pub proof fn written_words(i: i16, u: u16, n: u32, f: u32)
    ensures
        ({
            let b = value_bytes(NGValue::Int16(i));
            b[0] + 256 * b[1] == if i < 0 {
                i + 65536
            } else {
                i as int
            }
        }),
        ({
            let b = value_bytes(NGValue::UInt16(u));
            b[0] + 256 * b[1] == u
        }),
        ({
            let b = value_bytes(NGValue::UInt32(n));
            b[0] + 256 * b[1] + 65536 * b[2] + 16777216 * b[3] == n
        }),
        ({
            let b = value_bytes(NGValue::Float32(f));
            b[0] + 256 * b[1] + 65536 * b[2] + 16777216 * b[3] == f
        }),
{
    lemma_le2(twos(i as int));
    lemma_le2(u as nat);
    lemma_le4(n as nat);
    lemma_le4(f as nat);
}

/// A JSON value is written like the typed value that it stands for, and is
/// refused where it is none of the type; binaries and time stamps always are.
pub proof fn json_values_are_written_alike(t: DataType, v: JsonScalar)
    ensures
        t is Boolean ==> (json_bytes(t, v) is Some <==> v.boolean is Some),
        t is Boolean && v.boolean is Some ==> json_bytes(t, v) == Some(
            value_bytes(NGValue::Boolean(v.boolean->0)),
        ),
        t is Int8 || t is Int16 || t is Int32 || t is Int64 ==> (json_bytes(t, v) is Some
            <==> v.int is Some),
        t is UInt8 || t is UInt16 || t is UInt32 || t is UInt64 ==> (json_bytes(t, v) is Some
            <==> v.uint is Some),
        v.int matches Some(i) ==> {
            &&& i8::MIN <= i <= i8::MAX ==> json_bytes(DataType::Int8, v) == Some(
                value_bytes(NGValue::Int8(i as i8)),
            )
            &&& i16::MIN <= i <= i16::MAX ==> json_bytes(DataType::Int16, v) == Some(
                value_bytes(NGValue::Int16(i as i16)),
            )
            &&& i32::MIN <= i <= i32::MAX ==> json_bytes(DataType::Int32, v) == Some(
                value_bytes(NGValue::Int32(i as i32)),
            )
            &&& json_bytes(DataType::Int64, v) == Some(value_bytes(NGValue::Int64(i)))
        },
        v.uint matches Some(u) ==> {
            &&& u <= u8::MAX ==> json_bytes(DataType::UInt8, v) == Some(
                value_bytes(NGValue::UInt8(u as u8)),
            )
            &&& u <= u16::MAX ==> json_bytes(DataType::UInt16, v) == Some(
                value_bytes(NGValue::UInt16(u as u16)),
            )
            &&& u <= u32::MAX ==> json_bytes(DataType::UInt32, v) == Some(
                value_bytes(NGValue::UInt32(u as u32)),
            )
            &&& json_bytes(DataType::UInt64, v) == Some(value_bytes(NGValue::UInt64(u)))
        },
        t is Float32 ==> json_bytes(t, v) == match v.float32 {
            Some(f) => Some(value_bytes(NGValue::Float32(f))),
            None => None::<Seq<u8>>,
        },
        t is Float64 ==> json_bytes(t, v) == match v.float64 {
            Some(f) => Some(value_bytes(NGValue::Float64(f))),
            None => None::<Seq<u8>>,
        },
        t is String ==> json_bytes(t, v) == match v.text {
            Some(s) => Some(value_bytes(NGValue::String(s))),
            None => None::<Seq<u8>>,
        },
        t is Binary || t is Timestamp ==> json_bytes(t, v) is None,
{
}

/// Words that a value takes: booleans and numbers of up to 16 bits one, of 32
/// bits two, of 64 bits four; a text half as many as it has bytes, rounded up,
/// and at least one.
pub proof fn words_of_a_value(t: DataType, string_len_bytes: Option<u16>)
    ensures
        ({
            let w = words_spec(t, string_len_bytes);
            &&& t is Boolean || t is Int8 || t is UInt8 || t is Int16 || t is UInt16 ==> w == Ok::<
                u16,
                Seq<char>,
            >(1)
            &&& t is Int32 || t is UInt32 || t is Float32 ==> w == Ok::<u16, Seq<char>>(2)
            &&& t is Int64 || t is UInt64 || t is Float64 ==> w == Ok::<u16, Seq<char>>(4)
            &&& t is String ==> (w is Ok <==> string_len_bytes is Some)
            &&& t is String && string_len_bytes is Some ==> {
                let n = string_len_bytes->0;
                &&& n > 0 ==> 2 * w->Ok_0 - 1 <= n <= 2 * w->Ok_0
                &&& n == 0 ==> w->Ok_0 == 1
            }
            &&& t is Binary || t is Timestamp ==> w is Err
        }),
{
}

/// An access takes one bit of a bit device for a boolean, and the words of the
/// value of a word or double word device. Bit indices are refused, so is any
/// other type on a bit device, and so are the devices that stand outside of
/// batches.
pub proof fn accesses_take_the_words_of_their_value(
    a: AccessFor,
    addr: McLogicalAddress,
    raw: Seq<char>,
    t: DataType,
    string_len_bytes: Option<u16>,
)
    ensures
        ({
            let d = addr.device;
            let r = target_spec(a, addr, raw, t, string_len_bytes);
            let outside = d is LZ || (!(a is Collect) && (d is LTN || d is LSTN));
            let wide = d is SD || d is D || d is W || d is TN || d is STN || d is CN || d is SW || d
                is Z || d is R || d is ZR || d is RD || d is LTN || d is LSTN || d is LCN || d
                is LZ;
            &&& r matches Ok((n, code)) ==> code == d.code_3e_spec()
            &&& addr.bit is Some ==> r is Err
            &&& !wide && addr.bit is None ==> (r is Ok <==> t is Boolean)
            &&& !wide ==> (r matches Ok((n, code)) ==> n == 1)
            &&& wide && addr.bit is None ==> (r is Ok <==> !outside && words_spec(
                t,
                string_len_bytes,
            ) is Ok)
            &&& wide ==> (r matches Ok((n, code)) ==> words_spec(t, string_len_bytes) == Ok::<
                u16,
                Seq<char>,
            >(n))
        }),
{
    device_units(addr.device);
}

/// A point is read where its address says, in the words of its type, and its
/// reading bears its index and its type.
pub proof fn points_are_read_at_their_address(index: int, p: McPoint, s: TypedPointReadSpec)
    requires
        read_spec(index, p) == Ok::<TypedPointReadSpec, Seq<char>>(s),
        0 <= index <= usize::MAX,
    ensures
        s.index == index,
        s.data_type == p.data_type,
        p.address.logical == Some(s.addr),
        s.device_code == s.addr.device.code_3e_spec(),
        target_spec(
            AccessFor::Collect(p.key@),
            s.addr,
            p.address.raw@,
            p.data_type,
            p.string_len_bytes,
        ) == Ok::<(u16, u16), Seq<char>>((s.word_len, s.device_code)),
{
    accesses_take_the_words_of_their_value(
        AccessFor::Collect(p.key@),
        s.addr,
        p.address.raw@,
        p.data_type,
        p.string_len_bytes,
    );
}

/// A write goes to the address of its point or parameter, with the bytes of
/// its value; a point that takes no writes is refused, so is one without
/// address and a value that could not be turned into bytes.
pub proof fn writes_go_to_their_address(
    p: McPoint,
    logical: Option<McLogicalAddress>,
    value_type: DataType,
    data: Result<Seq<u8>, Seq<char>>,
    action: Seq<char>,
    param: ResolvedParameter,
)
    ensures
        point_write_at_spec(p, logical, value_type, data) matches Ok(w) ==> {
            &&& p.access_mode is Write || p.access_mode is ReadWrite
            &&& logical == Some(w.addr)
            &&& data == Ok::<Seq<u8>, Seq<char>>(w.data)
            &&& w.device_code == w.addr.device.code_3e_spec()
        },
        !(p.access_mode is Write || p.access_mode is ReadWrite) ==> (point_write_at_spec(
            p,
            logical,
            value_type,
            data,
        ) matches Err(why) && why is Validation),
        parameter_at_spec(action, param, logical) matches Ok(w) ==> {
            &&& logical == Some(w.addr)
            &&& param.cast matches Ok(v) && w.data == value_bytes(v)
            &&& w.device_code == w.addr.device.code_3e_spec()
        },
        logical is None || data is Err ==> point_write_at_spec(p, logical, value_type, data) is Err,
        logical is None || param.cast is Err ==> parameter_at_spec(action, param, logical) is Err,
{
    if logical is Some {
        accesses_take_the_words_of_their_value(
            AccessFor::Write,
            logical->0,
            p.address.raw@,
            p.data_type,
            p.string_len_bytes,
        );
        accesses_take_the_words_of_their_value(
            AccessFor::Action(action),
            logical->0,
            param.param.address.raw@,
            param.param.data_type,
            param.param.string_len_bytes,
        );
    }
}

/// A write whose address is parsed anew goes to the address that the text of
/// the point stands for.
pub proof fn parsed_writes_go_where_the_text_says(
    p: McPoint,
    valid: bool,
    value_type: DataType,
    data: Result<Seq<u8>, Seq<char>>,
    w: WriteOf,
)
    requires
        parsed_write_spec(p, valid, value_type, data) == Ok::<WriteOf, Refusal>(w),
    ensures
        valid,
        p.access_mode is Write || p.access_mode is ReadWrite,
        parsed(p.address.raw@) == Ok::<McLogicalAddress, Seq<char>>(w.addr),
        data == Ok::<Seq<u8>, Seq<char>>(w.data),
{
}

/// The limits of a channel: what is configured, else what the series allows
/// and 4096 bytes, but at least 1; the pool has at least one connection.
pub proof fn limits_of_a_channel(c: McChannelConfig)
    ensures
        ({
            let (points, bytes) = planner_limits(c);
            &&& points >= 1 && bytes >= 1
            &&& c.max_points_per_batch matches Some(n) ==> n >= 1 ==> points == n
            &&& c.max_points_per_batch == Some(0u16) ==> points == 1
            &&& c.max_points_per_batch is None && c.series is A ==> points == 10
            &&& c.max_points_per_batch is None && c.series is QnA ==> points == 480
            &&& c.max_points_per_batch is None && (c.series is QL || c.series is IQR) ==> points
                == 960
            &&& c.max_bytes_per_frame matches Some(n) ==> n >= 1 ==> bytes == n
            &&& c.max_bytes_per_frame is None ==> bytes == 4096
        }),
        c.concurrent_requests matches Some(n) ==> n >= 1 ==> at_least_one(c.concurrent_requests) == n,
        c.concurrent_requests is None ==> at_least_one(c.concurrent_requests) == 1,
        at_least_one(Some(0)) == 1,
{
}

} // verus!
