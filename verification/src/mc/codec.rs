//! Values of the gateway as MC payload bytes and back.

use crate::gateway::{execution_error, DataType, DriverError, NGValue};
use crate::text::message;
use crate::text::parts_text;
use crate::wire::{
    bytes_as_slice, bytes_content, bytes_from_vec, le16, le16_at, le32, le32_at, le64, le64_at,
    le_bytes, le_vec, lemma_le_bytes_len, lemma_le_read, signed, to_i16, to_i32, to_i64, to_i8, twos, twos_of,
};
use vstd::prelude::*;
use vstd::slice::slice_to_vec;
use vstd::string::*;
use vstd::utf8::{
    decode_utf8, encode_utf8, encode_utf8_decode_utf8, encode_utf8_valid_utf8, valid_utf8,
};

verus! {

/// A JSON value, as far as the codec asks for it: what each accessor of the
/// JSON library returns for it. Floating-point numbers are held as their bit
/// patterns.
#[derive(Debug, Clone)]
pub struct JsonScalar {
    /// The boolean.
    pub boolean: Option<bool>,
    /// The number as a signed 64-bit integer.
    pub int: Option<i64>,
    /// The number as an unsigned 64-bit integer.
    pub uint: Option<u64>,
    /// The number as a single precision float.
    pub float32: Option<u32>,
    /// The number as a double precision float.
    pub float64: Option<u64>,
    /// The string.
    pub text: Option<String>,
}

/// The text that `String::from_utf8_lossy` makes of bytes.
pub uninterp spec fn utf8_lossy(b: Seq<u8>) -> Seq<char>;

/// `String::from_utf8_lossy`: for valid UTF-8 the text that the bytes encode.
#[verifier::external_body]
fn lossy_text(b: &[u8]) -> (r: String)
    ensures
        r@ == utf8_lossy(b@),
        valid_utf8(b@) ==> r@ == decode_utf8(b@),
{
    String::from_utf8_lossy(b).into_owned()
}

/// Number of bytes of an integer or float type; 0 for the other types.
pub open spec fn number_width(t: DataType) -> nat {
    match t {
        DataType::Int8 | DataType::UInt8 => 1,
        DataType::Int16 | DataType::UInt16 => 2,
        DataType::Int32 | DataType::UInt32 | DataType::Float32 => 4,
        DataType::Int64 | DataType::UInt64 | DataType::Float64 => 8,
        _ => 0,
    }
}

/// The bytes of a JSON value for a data type: the low bytes of a number, low
/// byte first; the UTF-8 bytes of a string; one byte 0 or 1 for a boolean.
/// `None` where the value is not of that type, and for binary and time stamp
/// values.
pub open spec fn json_bytes(t: DataType, v: JsonScalar) -> Option<Seq<u8>> {
    match t {
        DataType::Boolean => match v.boolean {
            Some(b) => Some(
                seq![
                    if b {
                        1u8
                    } else {
                        0u8
                    },
                ],
            ),
            None => None,
        },
        DataType::Int8 | DataType::Int16 | DataType::Int32 | DataType::Int64 => match v.int {
            Some(i) => Some(le_bytes(twos(i as int), number_width(t))),
            None => None,
        },
        DataType::UInt8 | DataType::UInt16 | DataType::UInt32 | DataType::UInt64 => match v.uint {
            Some(u) => Some(le_bytes(u as nat, number_width(t))),
            None => None,
        },
        DataType::Float32 => match v.float32 {
            Some(f) => Some(le_bytes(f as nat, 4)),
            None => None,
        },
        DataType::Float64 => match v.float64 {
            Some(f) => Some(le_bytes(f as nat, 8)),
            None => None,
        },
        DataType::String => match v.text {
            Some(s) => Some(encode_utf8(s@)),
            None => None,
        },
        DataType::Binary | DataType::Timestamp => None,
    }
}

/// The text of the error with which a JSON value is refused.
pub open spec fn json_refusal(t: DataType) -> Seq<char> {
    match t {
        DataType::Boolean => "MC encode: expected boolean JSON value for DataType::Boolean"@,
        DataType::Int8 => "MC encode: expected integer JSON value for DataType::Int8"@,
        DataType::UInt8 => "MC encode: expected unsigned integer JSON value for DataType::UInt8"@,
        DataType::Int16 => "MC encode: expected integer JSON value for DataType::Int16"@,
        DataType::UInt16 =>
            "MC encode: expected unsigned integer JSON value for DataType::UInt16"@,
        DataType::Int32 => "MC encode: expected integer JSON value for DataType::Int32"@,
        DataType::UInt32 =>
            "MC encode: expected unsigned integer JSON value for DataType::UInt32"@,
        DataType::Int64 => "MC encode: expected integer JSON value for DataType::Int64"@,
        DataType::UInt64 =>
            "MC encode: expected unsigned integer JSON value for DataType::UInt64"@,
        DataType::Float32 => "MC encode: expected number JSON value for DataType::Float32"@,
        DataType::Float64 => "MC encode: expected number JSON value for DataType::Float64"@,
        DataType::String => "MC encode: expected string JSON value for DataType::String"@,
        DataType::Binary | DataType::Timestamp =>
            "MC encode: DataType::Binary/Timestamp is not supported yet"@,
    }
}

/// The bytes of a typed value.
pub open spec fn value_bytes(v: NGValue) -> Seq<u8> {
    match v {
        NGValue::Boolean(b) => seq![
            if b {
                1u8
            } else {
                0u8
            },
        ],
        NGValue::Int8(i) => le_bytes(twos(i as int), 1),
        NGValue::UInt8(u) => le_bytes(u as nat, 1),
        NGValue::Int16(i) => le_bytes(twos(i as int), 2),
        NGValue::UInt16(u) => le_bytes(u as nat, 2),
        NGValue::Int32(i) => le_bytes(twos(i as int), 4),
        NGValue::UInt32(u) => le_bytes(u as nat, 4),
        NGValue::Int64(i) => le_bytes(twos(i as int), 8),
        NGValue::UInt64(u) => le_bytes(u as nat, 8),
        NGValue::Float32(f) => le_bytes(f as nat, 4),
        NGValue::Float64(f) => le_bytes(f as nat, 8),
        NGValue::String(s) => encode_utf8(s@),
        NGValue::Binary(b) => bytes_content(b),
        NGValue::Timestamp(i) => le_bytes(twos(i as int), 8),
    }
}

/// The text before the reason in the error for a value that cannot be cast.
pub open spec fn cast_refusal(t: DataType) -> Seq<char> {
    match t {
        DataType::Boolean => "MC encode: expected bool: "@,
        DataType::Int8 => "MC encode: expected i8: "@,
        DataType::UInt8 => "MC encode: expected u8: "@,
        DataType::Int16 => "MC encode: expected i16: "@,
        DataType::UInt16 => "MC encode: expected u16: "@,
        DataType::Int32 => "MC encode: expected i32: "@,
        DataType::UInt32 => "MC encode: expected u32: "@,
        DataType::Int64 => "MC encode: expected i64: "@,
        DataType::UInt64 => "MC encode: expected u64: "@,
        DataType::Float32 => "MC encode: expected f32: "@,
        DataType::Float64 => "MC encode: expected f64: "@,
        DataType::String => "MC encode: expected string for DataType::String"@,
        DataType::Binary => "MC encode: expected binary for DataType::Binary"@,
        DataType::Timestamp => "MC encode: expected timestamp(i64 ms): "@,
    }
}

/// The whole text of the error for a value that cannot be cast: the reason is
/// given but for strings and binaries.
pub open spec fn cast_error_text(t: DataType, reason: Seq<char>) -> Seq<char> {
    if t is String || t is Binary {
        cast_refusal(t)
    } else {
        cast_refusal(t) + reason
    }
}

/// Number of payload bytes that a value of a data type takes at least.
pub open spec fn least_payload(t: DataType) -> nat {
    number_width(t)
}

/// The text of the error for a payload that is too short.
pub open spec fn short_payload(t: DataType) -> Seq<char> {
    match t {
        DataType::Int8 => "MC decode: insufficient bytes for DataType::Int8"@,
        DataType::UInt8 => "MC decode: insufficient bytes for DataType::UInt8"@,
        DataType::Int16 => "MC decode: insufficient bytes for DataType::Int16"@,
        DataType::UInt16 => "MC decode: insufficient bytes for DataType::UInt16"@,
        DataType::Int32 => "MC decode: insufficient bytes for DataType::Int32"@,
        DataType::UInt32 => "MC decode: insufficient bytes for DataType::UInt32"@,
        DataType::Int64 => "MC decode: insufficient bytes for DataType::Int64"@,
        DataType::UInt64 => "MC decode: insufficient bytes for DataType::UInt64"@,
        DataType::Float32 => "MC decode: insufficient bytes for DataType::Float32"@,
        _ => "MC decode: insufficient bytes for DataType::Float64"@,
    }
}

/// The value stands for the payload `p` of a data type: a boolean is set where
/// the first byte is not 0, numbers are read from the front, low byte first,
/// text and binary take the whole payload.
pub open spec fn stands_for(v: NGValue, t: DataType, p: Seq<u8>) -> bool {
    match t {
        DataType::Boolean => v == NGValue::Boolean(p.len() > 0 && p[0] != 0),
        DataType::Int8 => v == NGValue::Int8(signed(p[0] as int, 8) as i8),
        DataType::UInt8 => v == NGValue::UInt8(p[0]),
        DataType::Int16 => v == NGValue::Int16(signed(le16(p, 0) as int, 16) as i16),
        DataType::UInt16 => v == NGValue::UInt16(le16(p, 0)),
        DataType::Int32 => v == NGValue::Int32(signed(le32(p, 0) as int, 32) as i32),
        DataType::UInt32 => v == NGValue::UInt32(le32(p, 0)),
        DataType::Int64 => v == NGValue::Int64(signed(le64(p, 0) as int, 64) as i64),
        DataType::UInt64 => v == NGValue::UInt64(le64(p, 0)),
        DataType::Float32 => v == NGValue::Float32(le32(p, 0)),
        DataType::Float64 => v == NGValue::Float64(le64(p, 0)),
        DataType::String => v matches NGValue::String(s) && s@ == utf8_lossy(p) && (valid_utf8(p)
            ==> s@ == decode_utf8(p)),
        DataType::Binary => v matches NGValue::Binary(b) && bytes_content(b) == p,
        DataType::Timestamp => false,
    }
}

/// MC value codec for converting between raw MC bytes and gateway values.
pub struct McCodec;

fn refused(text: &str) -> (r: DriverError)
    ensures
        execution_error(r, text@),
{
    DriverError::ExecutionError(text.to_owned())
}

fn one_byte(b: bool) -> (r: Vec<u8>)
    ensures
        r@ == seq![
            if b {
                1u8
            } else {
                0u8
            },
        ],
{
    let mut v: Vec<u8> = Vec::new();
    v.push(
        if b {
            1
        } else {
            0
        },
    );
    assert(v@ =~= seq![
        if b {
            1u8
        } else {
            0u8
        },
    ]);
    v
}

fn int_bytes(v: Option<i64>, n: usize, refusal: &str) -> (r: Result<Vec<u8>, DriverError>)
    requires
        n <= 8,
    ensures
        match v {
            Some(i) => r matches Ok(b) && b@ == le_bytes(twos(i as int), n as nat),
            None => r matches Err(e) && execution_error(e, refusal@),
        },
{
    match v {
        Some(i) => Ok(le_vec(twos_of(i), n)),
        None => Err(refused(refusal)),
    }
}

fn uint_bytes(v: Option<u64>, n: usize, refusal: &str) -> (r: Result<Vec<u8>, DriverError>)
    requires
        n <= 8,
    ensures
        match v {
            Some(u) => r matches Ok(b) && b@ == le_bytes(u as nat, n as nat),
            None => r matches Err(e) && execution_error(e, refusal@),
        },
{
    match v {
        Some(u) => Ok(le_vec(u, n)),
        None => Err(refused(refusal)),
    }
}

impl McCodec {
    /// Encode a JSON value into MC raw bytes according to the given data type.
    pub fn encode(data_type: DataType, value: &JsonScalar) -> (r: Result<Vec<u8>, DriverError>)
        ensures
            match json_bytes(data_type, *value) {
                Some(b) => r matches Ok(v) && v@ == b,
                None => r matches Err(e) && execution_error(e, json_refusal(data_type)),
            },
    {
        match data_type {
            DataType::Boolean => match value.boolean {
                Some(b) => Ok(one_byte(b)),
                None => Err(
                    refused("MC encode: expected boolean JSON value for DataType::Boolean"),
                ),
            },
            DataType::Int8 => int_bytes(
                value.int,
                1,
                "MC encode: expected integer JSON value for DataType::Int8",
            ),
            DataType::UInt8 => uint_bytes(
                value.uint,
                1,
                "MC encode: expected unsigned integer JSON value for DataType::UInt8",
            ),
            DataType::Int16 => int_bytes(
                value.int,
                2,
                "MC encode: expected integer JSON value for DataType::Int16",
            ),
            DataType::UInt16 => uint_bytes(
                value.uint,
                2,
                "MC encode: expected unsigned integer JSON value for DataType::UInt16",
            ),
            DataType::Int32 => int_bytes(
                value.int,
                4,
                "MC encode: expected integer JSON value for DataType::Int32",
            ),
            DataType::UInt32 => uint_bytes(
                value.uint,
                4,
                "MC encode: expected unsigned integer JSON value for DataType::UInt32",
            ),
            DataType::Int64 => int_bytes(
                value.int,
                8,
                "MC encode: expected integer JSON value for DataType::Int64",
            ),
            DataType::UInt64 => uint_bytes(
                value.uint,
                8,
                "MC encode: expected unsigned integer JSON value for DataType::UInt64",
            ),
            DataType::Float32 => match value.float32 {
                Some(f) => Ok(le_vec(f as u64, 4)),
                None => Err(
                    refused("MC encode: expected number JSON value for DataType::Float32"),
                ),
            },
            DataType::Float64 => uint_bytes(
                value.float64,
                8,
                "MC encode: expected number JSON value for DataType::Float64",
            ),
            DataType::String => match &value.text {
                Some(s) => Ok(slice_to_vec(s.as_str().as_bytes())),
                None => Err(
                    refused("MC encode: expected string JSON value for DataType::String"),
                ),
            },
            DataType::Binary | DataType::Timestamp => Err(
                refused("MC encode: DataType::Binary/Timestamp is not supported yet"),
            ),
        }
    }

    /// Encode a typed value into MC raw bytes. `cast` is the outcome of
    /// casting the value to the data type: the value of that type, or the
    /// reason why there is none.
    pub fn encode_typed(data_type: DataType, cast: &Result<NGValue, String>) -> (r: Result<
        Vec<u8>,
        DriverError,
    >)
        requires
            cast matches Ok(v) ==> v.type_spec() == data_type,
        ensures
            match cast {
                Ok(v) => r matches Ok(b) && b@ == value_bytes(*v),
                Err(reason) => r matches Err(e) && execution_error(
                    e,
                    cast_error_text(data_type, reason@),
                ),
            },
    {
        match cast {
            Ok(v) => Ok(Self::bytes_of(v)),
            Err(reason) => {
                let why = reason.as_str();
                match data_type {
                    DataType::String => Err(
                        refused("MC encode: expected string for DataType::String"),
                    ),
                    DataType::Binary => Err(
                        refused("MC encode: expected binary for DataType::Binary"),
                    ),
                    _ => {
                        let lead = Self::cast_lead(data_type);
                        let text = message(&[lead, why]);
                        proof {
                            reveal_with_fuel(parts_text, 3);
                            assert(text@ =~= lead@ + why@);
                        }
                        Err(DriverError::ExecutionError(text))
                    },
                }
            },
        }
    }

    fn cast_lead(t: DataType) -> (r: &'static str)
        ensures
            r@ == cast_refusal(t),
    {
        match t {
            DataType::Boolean => "MC encode: expected bool: ",
            DataType::Int8 => "MC encode: expected i8: ",
            DataType::UInt8 => "MC encode: expected u8: ",
            DataType::Int16 => "MC encode: expected i16: ",
            DataType::UInt16 => "MC encode: expected u16: ",
            DataType::Int32 => "MC encode: expected i32: ",
            DataType::UInt32 => "MC encode: expected u32: ",
            DataType::Int64 => "MC encode: expected i64: ",
            DataType::UInt64 => "MC encode: expected u64: ",
            DataType::Float32 => "MC encode: expected f32: ",
            DataType::Float64 => "MC encode: expected f64: ",
            DataType::String => "MC encode: expected string for DataType::String",
            DataType::Binary => "MC encode: expected binary for DataType::Binary",
            DataType::Timestamp => "MC encode: expected timestamp(i64 ms): ",
        }
    }

    fn bytes_of(v: &NGValue) -> (r: Vec<u8>)
        ensures
            r@ == value_bytes(*v),
    {
        match v {
            NGValue::Boolean(b) => one_byte(*b),
            NGValue::Int8(i) => le_vec(twos_of(*i as i64), 1),
            NGValue::UInt8(u) => le_vec(*u as u64, 1),
            NGValue::Int16(i) => le_vec(twos_of(*i as i64), 2),
            NGValue::UInt16(u) => le_vec(*u as u64, 2),
            NGValue::Int32(i) => le_vec(twos_of(*i as i64), 4),
            NGValue::UInt32(u) => le_vec(*u as u64, 4),
            NGValue::Int64(i) => le_vec(twos_of(*i), 8),
            NGValue::UInt64(u) => le_vec(*u, 8),
            NGValue::Float32(f) => le_vec(*f as u64, 4),
            NGValue::Float64(f) => le_vec(*f, 8),
            NGValue::String(s) => slice_to_vec(s.as_str().as_bytes()),
            NGValue::Binary(b) => slice_to_vec(bytes_as_slice(b)),
            NGValue::Timestamp(i) => le_vec(twos_of(*i), 8),
        }
    }

    /// Decode MC raw bytes into a value of the given data type. Bytes behind
    /// a number are ignored.
    pub fn decode(data_type: DataType, payload: &[u8]) -> (r: Result<NGValue, DriverError>)
        ensures
            if data_type is Timestamp {
                r matches Err(e) && execution_error(
                    e,
                    "MC decode: DataType::Timestamp is not supported yet"@,
                )
            } else if payload@.len() < least_payload(data_type) {
                r matches Err(e) && execution_error(e, short_payload(data_type))
            } else {
                r matches Ok(v) && stands_for(v, data_type, payload@)
            },
    {
        let n: usize = payload.len();
        match data_type {
            DataType::Boolean => Ok(NGValue::Boolean(n > 0 && payload[0] != 0)),
            DataType::Int8 => if n < 1 {
                Err(refused("MC decode: insufficient bytes for DataType::Int8"))
            } else {
                Ok(NGValue::Int8(to_i8(payload[0])))
            },
            DataType::UInt8 => if n < 1 {
                Err(refused("MC decode: insufficient bytes for DataType::UInt8"))
            } else {
                Ok(NGValue::UInt8(payload[0]))
            },
            DataType::Int16 => if n < 2 {
                Err(refused("MC decode: insufficient bytes for DataType::Int16"))
            } else {
                Ok(NGValue::Int16(to_i16(le16_at(payload, 0))))
            },
            DataType::UInt16 => if n < 2 {
                Err(refused("MC decode: insufficient bytes for DataType::UInt16"))
            } else {
                Ok(NGValue::UInt16(le16_at(payload, 0)))
            },
            DataType::Int32 => if n < 4 {
                Err(refused("MC decode: insufficient bytes for DataType::Int32"))
            } else {
                Ok(NGValue::Int32(to_i32(le32_at(payload, 0))))
            },
            DataType::UInt32 => if n < 4 {
                Err(refused("MC decode: insufficient bytes for DataType::UInt32"))
            } else {
                Ok(NGValue::UInt32(le32_at(payload, 0)))
            },
            DataType::Int64 => if n < 8 {
                Err(refused("MC decode: insufficient bytes for DataType::Int64"))
            } else {
                Ok(NGValue::Int64(to_i64(le64_at(payload, 0))))
            },
            DataType::UInt64 => if n < 8 {
                Err(refused("MC decode: insufficient bytes for DataType::UInt64"))
            } else {
                Ok(NGValue::UInt64(le64_at(payload, 0)))
            },
            DataType::Float32 => if n < 4 {
                Err(refused("MC decode: insufficient bytes for DataType::Float32"))
            } else {
                Ok(NGValue::Float32(le32_at(payload, 0)))
            },
            DataType::Float64 => if n < 8 {
                Err(refused("MC decode: insufficient bytes for DataType::Float64"))
            } else {
                Ok(NGValue::Float64(le64_at(payload, 0)))
            },
            DataType::String => Ok(NGValue::String(lossy_text(payload))),
            DataType::Binary => Ok(NGValue::Binary(bytes_from_vec(slice_to_vec(payload)))),
            DataType::Timestamp => Err(
                refused("MC decode: DataType::Timestamp is not supported yet"),
            ),
        }
    }
}

/// Two values of the same type with the same content.
pub open spec fn same_value(a: NGValue, b: NGValue) -> bool {
    match a {
        NGValue::String(s) => b matches NGValue::String(t) && s@ == t@,
        NGValue::Binary(x) => b matches NGValue::Binary(y) && bytes_content(x) == bytes_content(y),
        _ => a == b,
    }
}

/// What is encoded is decoded again: a value that is decoded from the bytes of
/// `v` is `v`, for every type but time stamps, which are not decoded. Behind
/// a boolean or a number further bytes may follow, as they do where a device
/// is read in whole words.
pub proof fn encoded_values_are_read_back(v: NGValue, rest: Seq<u8>, back: NGValue)
    requires
        !(v is Timestamp),
        v is String || v is Binary ==> rest.len() == 0,
        stands_for(back, v.type_spec(), value_bytes(v) + rest),
    ensures
        same_value(v, back),
{
    let p = value_bytes(v) + rest;
    match v {
        NGValue::String(s) => {
            assert(p =~= encode_utf8(s@));
            encode_utf8_valid_utf8(s@);
            encode_utf8_decode_utf8(s@);
        },
        NGValue::Binary(b) => {
            assert(p =~= bytes_content(b));
        },
        _ => {
            lemma_number_read_back(v, rest, back);
        },
    }
}

proof fn lemma_number_read_back(v: NGValue, rest: Seq<u8>, back: NGValue)
    requires
        !(v is Timestamp || v is String || v is Binary),
        stands_for(back, v.type_spec(), value_bytes(v) + rest),
    ensures
        v == back,
{
    match v {
        NGValue::Int8(i) => {
            lemma_le_bytes_len(twos(i as int), 1);
            lemma_le_read(twos(i as int), 1, rest);
        },
        NGValue::UInt8(u) => {
            lemma_le_bytes_len(u as nat, 1);
            lemma_le_read(u as nat, 1, rest);
        },
        NGValue::Int16(i) => {
            lemma_le_read(twos(i as int), 2, rest);
        },
        NGValue::UInt16(u) => {
            lemma_le_read(u as nat, 2, rest);
        },
        NGValue::Int32(i) => {
            lemma_le_read(twos(i as int), 4, rest);
        },
        NGValue::UInt32(u) => {
            lemma_le_read(u as nat, 4, rest);
        },
        NGValue::Int64(i) => {
            lemma_le_read(twos(i as int), 8, rest);
        },
        NGValue::UInt64(u) => {
            lemma_le_read(u as nat, 8, rest);
        },
        NGValue::Float32(f) => {
            lemma_le_read(f as nat, 4, rest);
        },
        NGValue::Float64(f) => {
            lemma_le_read(f as nat, 8, rest);
        },
        _ => {},
    }
}

} // verus!
