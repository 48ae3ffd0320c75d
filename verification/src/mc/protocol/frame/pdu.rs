//! MC protocol data units: request bodies and their wire form, response
//! bodies.

use super::super::types::McSeries;
use super::command::{McCommandCode, McCommandKind};
use crate::wire::{
    buf_content, buf_extend, buf_freeze, buf_new, buf_put_u16_le, buf_put_u8, buf_put_uint_le,
    bytes_as_slice, bytes_content, le_bytes, lemma_le_bytes_len,
};
use bytes::{Bytes, BytesMut};
use vstd::prelude::*;
use vstd::slice::slice_to_vec;

verus! {

/// MC request body.
#[derive(Debug, Clone)]
pub enum McRequestBody {
    /// Device access: batch read units (3E/4E), a continuous block of elements
    /// from the head device number on.
    DeviceAccessBatchReadUnits {
        /// Head device number.
        head: u32,
        /// Number of points to read.
        points: u16,
        /// Raw device code as defined by the MC protocol.
        device_code: u16,
    },
    /// Device access: batch write units (3E/4E), a continuous block of
    /// elements from the head device number on.
    DeviceAccessBatchWriteUnits {
        /// Head device number.
        head: u32,
        /// Number of points to write.
        points: u16,
        /// Raw device code as defined by the MC protocol.
        device_code: u16,
        /// Encoded payload bytes.
        data: Bytes,
    },
    /// Device access: random read units (3E/4E), single word and dword units
    /// at any addresses.
    DeviceAccessRandomReadUnits {
        /// Word-sized device addresses (head device number + device code).
        word_addrs: Vec<(u32, u16)>,
        /// Dword-sized device addresses (head device number + device code).
        dword_addrs: Vec<(u32, u16)>,
    },
    /// Device access: random write units (3E/4E), single word and dword units
    /// at any addresses, each with its payload.
    DeviceAccessRandomWriteUnits {
        /// Word-sized `(head, device_code, data)`.
        word_items: Vec<(u32, u16, Bytes)>,
        /// Dword-sized `(head, device_code, data)`.
        dword_items: Vec<(u32, u16, Bytes)>,
    },
    /// Raw request payload for commands that are not modeled.
    Raw {
        /// Fully encoded MC request payload bytes.
        payload: Vec<u8>,
    },
    /// Any other command.
    Unsupported,
}

/// MC response body grouped by command kind.
#[derive(Debug, Clone)]
pub enum McResponseBody {
    /// Device access: batch read units ack (3E/4E).
    DeviceAccessBatchReadUnits {
        /// Raw payload bytes returned by the PLC for the requested block.
        payload: Vec<u8>,
    },
    /// Device access: batch write units ack (3E/4E).
    DeviceAccessBatchWriteUnits {
        /// End code; 0 is success.
        end_code: u16,
    },
    /// Raw response payload for commands that are not modeled.
    Raw {
        /// Fully encoded MC response payload bytes.
        payload: Vec<u8>,
    },
    /// Any other command.
    Unsupported,
}

/// Request or response payload.
#[derive(Debug, Clone)]
pub enum McBody {
    Request(McRequestBody),
    Response(McResponseBody),
}

/// MC protocol data unit (PDU).
#[derive(Debug, Clone)]
pub struct McPdu {
    /// PLC series for this PDU, from which subcommand and address layout
    /// follow.
    pub series: McSeries,
    /// Semantic command kind.
    pub command: McCommandKind,
    /// Typed request/response body.
    pub body: McBody,
}

/// Length of a device address without points count.
pub open spec fn device_addr_len_spec(series: McSeries) -> nat {
    match series {
        McSeries::QnA | McSeries::QL => 4,
        McSeries::IQR | McSeries::A => 6,
    }
}

/// A device address without points count: QnA/Q/L have a 3-byte head number
/// and a 1-byte device code, iQ-R/A a 4-byte head number and a 2-byte code.
pub open spec fn device_addr(series: McSeries, head: u32, device_code: u16) -> Seq<u8> {
    match series {
        McSeries::QnA | McSeries::QL => le_bytes(head as nat, 3) + le_bytes(device_code as nat, 1),
        McSeries::IQR | McSeries::A => le_bytes(head as nat, 4) + le_bytes(device_code as nat, 2),
    }
}

/// The first `n` addresses end to end.
pub open spec fn addrs_encoded(series: McSeries, addrs: Seq<(u32, u16)>, n: int) -> Seq<u8>
    decreases n,
{
    if n <= 0 {
        Seq::empty()
    } else {
        addrs_encoded(series, addrs, n - 1) + device_addr(
            series,
            addrs[n - 1].0,
            addrs[n - 1].1,
        )
    }
}

/// The first `n` addresses, each followed by its data, end to end.
pub open spec fn writes_encoded(series: McSeries, items: Seq<(u32, u16, Bytes)>, n: int) -> Seq<
    u8,
>
    decreases n,
{
    if n <= 0 {
        Seq::empty()
    } else {
        writes_encoded(series, items, n - 1) + device_addr(
            series,
            items[n - 1].0,
            items[n - 1].1,
        ) + bytes_content(items[n - 1].2)
    }
}

/// A count that a single byte holds: at most 255.
pub open spec fn byte_count(n: nat) -> u8 {
    if n <= 255 {
        n as u8
    } else {
        255
    }
}

impl McPdu {
    /// Command code (for the codes of 3E/4E frames) and subcommand.
    pub open spec fn command_bytes(self) -> Seq<u8> {
        (match self.command.code_spec() {
            McCommandCode::Code3E4E(code) => le_bytes(code as nat, 2),
            McCommandCode::Code1E(_) => Seq::empty(),
        }) + le_bytes(self.command.subcommand_spec(self.series) as nat, 2)
    }

    /// The request on the wire: command, subcommand and the command-specific
    /// part. Counts of random access go into one byte, so that items from the
    /// 256th on are left out. Responses and unmodeled requests are empty.
    pub open spec fn encoded(self) -> Seq<u8> {
        match self.body {
            McBody::Request(McRequestBody::DeviceAccessBatchReadUnits {
                head,
                points,
                device_code,
            }) => self.command_bytes() + le_bytes(head as nat, 4) + le_bytes(points as nat, 2)
                + le_bytes(device_code as nat, 2),
            McBody::Request(McRequestBody::DeviceAccessBatchWriteUnits {
                head,
                points,
                device_code,
                data,
            }) => self.command_bytes() + le_bytes(head as nat, 4) + le_bytes(points as nat, 2)
                + le_bytes(device_code as nat, 2) + bytes_content(data),
            McBody::Request(McRequestBody::DeviceAccessRandomReadUnits {
                word_addrs,
                dword_addrs,
            }) => {
                let w = byte_count(word_addrs@.len());
                let d = byte_count(dword_addrs@.len());
                self.command_bytes() + seq![w, d] + addrs_encoded(
                    self.series,
                    word_addrs@,
                    w as int,
                ) + addrs_encoded(self.series, dword_addrs@, d as int)
            },
            McBody::Request(McRequestBody::DeviceAccessRandomWriteUnits {
                word_items,
                dword_items,
            }) => {
                let w = byte_count(word_items@.len());
                let d = byte_count(dword_items@.len());
                self.command_bytes() + seq![w, d] + writes_encoded(
                    self.series,
                    word_items@,
                    w as int,
                ) + writes_encoded(self.series, dword_items@, d as int)
            },
            McBody::Request(McRequestBody::Raw { payload }) => payload@,
            _ => Seq::empty(),
        }
    }

    /// Create a new PDU instance for the given series, command kind and body.
    pub fn new(series: McSeries, command: McCommandKind, body: McBody) -> (r: Self)
        ensures
            r == (McPdu { series, command, body }),
    {
        Self { series, command, body }
    }

    fn put_command(&self, out: &mut BytesMut)
        ensures
            buf_content(*final(out)) == buf_content(*old(out)) + self.command_bytes(),
    {
        if let McCommandCode::Code3E4E(code) = self.command.to_code() {
            buf_put_u16_le(out, code);
        }
        buf_put_u16_le(out, self.command.default_subcommand(self.series));
        assert(buf_content(*out) =~= buf_content(*old(out)) + self.command_bytes());
    }

    /// Encode this PDU into a binary payload buffer (command body only).
    pub fn encode_to_bytes(&self) -> (r: Bytes)
        ensures
            bytes_content(r) == self.encoded(),
    {
        let mut v: BytesMut = buf_new();
        if let McBody::Request(body) = &self.body {
            match body {
                McRequestBody::DeviceAccessBatchReadUnits { head, points, device_code } => {
                    self.put_command(&mut v);
                    buf_put_uint_le(&mut v, *head as u64, 4);
                    buf_put_u16_le(&mut v, *points);
                    buf_put_u16_le(&mut v, *device_code);
                },
                McRequestBody::DeviceAccessBatchWriteUnits { head, points, device_code, data } => {
                    self.put_command(&mut v);
                    buf_put_uint_le(&mut v, *head as u64, 4);
                    buf_put_u16_le(&mut v, *points);
                    buf_put_u16_le(&mut v, *device_code);
                    buf_extend(&mut v, bytes_as_slice(data));
                },
                McRequestBody::DeviceAccessRandomReadUnits { word_addrs, dword_addrs } => {
                    let w: u8 = count_byte(word_addrs.len());
                    let d: u8 = count_byte(dword_addrs.len());
                    self.put_command(&mut v);
                    buf_put_u8(&mut v, w);
                    buf_put_u8(&mut v, d);
                    put_addrs(self.series, word_addrs, w, &mut v);
                    put_addrs(self.series, dword_addrs, d, &mut v);
                },
                McRequestBody::DeviceAccessRandomWriteUnits { word_items, dword_items } => {
                    let w: u8 = count_byte(word_items.len());
                    let d: u8 = count_byte(dword_items.len());
                    self.put_command(&mut v);
                    buf_put_u8(&mut v, w);
                    buf_put_u8(&mut v, d);
                    put_writes(self.series, word_items, w, &mut v);
                    put_writes(self.series, dword_items, d, &mut v);
                },
                McRequestBody::Raw { payload } => {
                    buf_extend(&mut v, payload.as_slice());
                },
                McRequestBody::Unsupported => {},
            }
        }
        assert(buf_content(v) =~= self.encoded());
        buf_freeze(v)
    }

    /// Decode an MC PDU from raw payload bytes and a known command kind. The
    /// series of the result is QnA; a batch write has end code 0, since the
    /// header carries the real one.
    pub fn decode_from_bytes(kind: McCommandKind, payload: Bytes) -> (r: Self)
        ensures
            r.series is QnA,
            r.command == kind,
            match kind {
                McCommandKind::DeviceAccessBatchReadUnits => r.body matches McBody::Response(
                    McResponseBody::DeviceAccessBatchReadUnits { payload: p },
                ) && p@ == bytes_content(payload),
                McCommandKind::DeviceAccessBatchWriteUnits => r.body matches McBody::Response(
                    McResponseBody::DeviceAccessBatchWriteUnits { end_code },
                ) && end_code == 0,
                _ => r.body matches McBody::Response(McResponseBody::Raw { payload: p }) && p@
                    == bytes_content(payload),
            },
    {
        let body = match kind {
            McCommandKind::DeviceAccessBatchReadUnits => {
                McResponseBody::DeviceAccessBatchReadUnits {
                    payload: slice_to_vec(bytes_as_slice(&payload)),
                }
            },
            McCommandKind::DeviceAccessBatchWriteUnits => {
                McResponseBody::DeviceAccessBatchWriteUnits { end_code: 0 }
            },
            _ => McResponseBody::Raw { payload: slice_to_vec(bytes_as_slice(&payload)) },
        };
        McPdu::new(McSeries::QnA, kind, McBody::Response(body))
    }
}

fn count_byte(n: usize) -> (r: u8)
    ensures
        r == byte_count(n as nat),
        r <= n,
{
    if n <= 255 {
        n as u8
    } else {
        255
    }
}

/// The on-wire byte length of a device address (without points count) for the
/// given PLC series.
pub fn device_addr_len(series: McSeries) -> (r: usize)
    ensures
        r == device_addr_len_spec(series),
{
    match series {
        McSeries::QnA | McSeries::QL => 3 + 1,
        McSeries::IQR | McSeries::A => 4 + 2,
    }
}

/// An encoded device address is as long as `device_addr_len` says.
pub proof fn device_addr_has_its_length(series: McSeries, head: u32, device_code: u16)
    ensures
        device_addr(series, head, device_code).len() == device_addr_len_spec(series),
{
    broadcast use lemma_le_bytes_len;

}

/// Encode a device address (without points count) into the provided buffer.
fn encode_device_addr_without_points(
    series: McSeries,
    head: u32,
    device_code: u16,
    out: &mut BytesMut,
)
    ensures
        buf_content(*final(out)) == buf_content(*old(out)) + device_addr(series, head, device_code),
{
    match series {
        McSeries::QnA | McSeries::QL => {
            buf_put_uint_le(out, head as u64, 3);
            buf_put_uint_le(out, device_code as u64, 1);
        },
        McSeries::IQR | McSeries::A => {
            buf_put_uint_le(out, head as u64, 4);
            buf_put_u16_le(out, device_code);
        },
    }
    assert(buf_content(*out) =~= buf_content(*old(out)) + device_addr(series, head, device_code));
}

fn put_addrs(series: McSeries, addrs: &Vec<(u32, u16)>, n: u8, out: &mut BytesMut)
    requires
        n <= addrs@.len(),
    ensures
        buf_content(*final(out)) == buf_content(*old(out)) + addrs_encoded(series, addrs@, n as int),
{
    assert(buf_content(*out) + addrs_encoded(series, addrs@, 0) =~= buf_content(*out));
    for i in 0..n
        invariant
            n <= addrs@.len(),
            buf_content(*out) == buf_content(*old(out)) + addrs_encoded(series, addrs@, i as int),
    {
        let a = addrs[i as usize];
        encode_device_addr_without_points(series, a.0, a.1, out);
        assert(buf_content(*out) =~= buf_content(*old(out)) + addrs_encoded(
            series,
            addrs@,
            i + 1,
        ));
    }
}

fn put_writes(series: McSeries, items: &Vec<(u32, u16, Bytes)>, n: u8, out: &mut BytesMut)
    requires
        n <= items@.len(),
    ensures
        buf_content(*final(out)) == buf_content(*old(out)) + writes_encoded(
            series,
            items@,
            n as int,
        ),
{
    assert(buf_content(*out) + writes_encoded(series, items@, 0) =~= buf_content(*out));
    for i in 0..n
        invariant
            n <= items@.len(),
            buf_content(*out) == buf_content(*old(out)) + writes_encoded(series, items@, i as int),
    {
        let a = &items[i as usize];
        encode_device_addr_without_points(series, a.0, a.1, out);
        buf_extend(out, bytes_as_slice(&a.2));
        assert(buf_content(*out) =~= buf_content(*old(out)) + writes_encoded(
            series,
            items@,
            i + 1,
        ));
    }
}

} // verus!
