//! Binary framing of the MC protocol (1E/3E/4E).

use super::frame::{
    header::{
        McHeader, McHeader1EAck, McHeader1EReq, McHeader3EAck, McHeader3EReq, McHeader4EAck,
        McHeader4EReq, McHeaderAckCommon, McHeaderReqCommon,
    },
    message::{McAppBody, McMessage},
    route::{McRoute1E, McRoute3E4E},
};
use super::types::McFrameVariant;
use crate::wire::{
    buf_as_slice, buf_content, buf_extend, buf_freeze, buf_new, buf_put_u16_le, buf_put_u8,
    buf_split_to, bytes_as_slice, bytes_content, bytes_slice, le16, le16_at, le_bytes, lemma_le2,
    lemma_le_bytes_len,
};
use bytes::BytesMut;
use vstd::prelude::*;
use vstd::slice::slice_subrange;

verus! {

/// Error of header (de)serialization.
#[derive(Debug, Clone, Copy, PartialEq, Eq, Structural)]
pub enum McCodecError {
    /// Input buffer is too short for the expected header.
    BufferTooShort { expected: usize, actual: usize },
    /// Unsupported frame variant for the requested operation.
    UnsupportedVariant(McFrameVariant),
}

/// Reason why a stream cannot be decoded.
#[derive(Debug, Clone, Copy, PartialEq, Eq, Structural)]
pub enum McStreamError {
    /// Streams of 1E frames are not supported.
    Frame1E,
    /// ASCII frames are not supported.
    Ascii,
}

impl McStreamError {
    /// Text of the error.
    pub open spec fn text(self) -> Seq<char> {
        match self {
            McStreamError::Frame1E => "MC 1E frame decoding is not supported by McCodec"@,
            McStreamError::Ascii => "MC ASCII 3E/4E frame decoding is not supported"@,
        }
    }

    /// Text of the error.
    pub fn message(&self) -> (r: &'static str)
        ensures
            r@ == self.text(),
    {
        match self {
            McStreamError::Frame1E => "MC 1E frame decoding is not supported by McCodec",
            McStreamError::Ascii => "MC ASCII 3E/4E frame decoding is not supported",
        }
    }
}

/// MC codec for binary frames.
#[derive(Debug, Clone, Copy, PartialEq, Eq, Structural)]
pub struct Codec {
    /// Frame variant to decode (1E/3E/4E, binary/ASCII).
    pub frame_variant: McFrameVariant,
}

impl Default for Codec {
    fn default() -> (r: Self)
        ensures
            r.frame_variant is Frame3EBinary,
    {
        Self { frame_variant: McFrameVariant::Frame3EBinary }
    }
}

/// The route at `i`.
pub open spec fn route_at(b: Seq<u8>, i: int) -> McRoute3E4E {
    McRoute3E4E {
        network_number: b[i],
        pc_number: b[i + 1],
        module_io_number: le16(b, i + 2),
        station_number: b[i + 4],
    }
}

/// The 3E acknowledge header at the front of `b`.
pub open spec fn ack_3e_of(b: Seq<u8>) -> McHeader3EAck {
    McHeader3EAck {
        common: McHeaderAckCommon { frame_variant: McFrameVariant::Frame3EBinary },
        sub_header: le16(b, 0),
        route: route_at(b, 2),
        data_length: le16(b, 7),
        end_code: le16(b, 9),
    }
}

/// The 4E acknowledge header at the front of `b`.
pub open spec fn ack_4e_of(b: Seq<u8>) -> McHeader4EAck {
    McHeader4EAck {
        common: McHeaderAckCommon { frame_variant: McFrameVariant::Frame4EBinary },
        sub_header: le16(b, 0),
        serial_number: le16(b, 2),
        fixed_number: le16(b, 4),
        route: route_at(b, 6),
        data_length: le16(b, 11),
        end_code: le16(b, 13),
    }
}

/// Encode a 3E/4E route into the buffer.
fn put_route_3e4e(buf: &mut BytesMut, route: McRoute3E4E)
    ensures
        buf_content(*final(buf)) == buf_content(*old(buf)) + route.encoded(),
{
    buf_put_u8(buf, route.network_number);
    buf_put_u8(buf, route.pc_number);
    buf_put_u16_le(buf, route.module_io_number);
    buf_put_u8(buf, route.station_number);
    assert(buf_content(*buf) =~= buf_content(*old(buf)) + route.encoded());
}

/// Encode a 1E binary request header.
pub fn encode_header_1e_req(header: &McHeader1EReq) -> (r: BytesMut)
    ensures
        buf_content(r) == header.encoded(),
{
    let mut buf: BytesMut = buf_new();
    buf_put_u8(&mut buf, header.sub_header);
    buf_put_u8(&mut buf, header.route.pc_number);
    buf_put_u16_le(&mut buf, header.common.monitoring_timer);
    assert(buf_content(buf) =~= header.encoded());
    buf
}

/// Encode a 3E binary request header.
pub fn encode_header_3e_req(header: &McHeader3EReq) -> (r: BytesMut)
    ensures
        buf_content(r) == header.encoded(),
{
    let mut buf: BytesMut = buf_new();
    buf_put_u16_le(&mut buf, header.sub_header);
    put_route_3e4e(&mut buf, header.route);
    buf_put_u16_le(&mut buf, header.data_length);
    buf_put_u16_le(&mut buf, header.common.monitoring_timer);
    assert(buf_content(buf) =~= header.encoded());
    buf
}

/// Encode a 4E binary request header.
pub fn encode_header_4e_req(header: &McHeader4EReq) -> (r: BytesMut)
    ensures
        buf_content(r) == header.encoded(),
{
    let mut buf: BytesMut = buf_new();
    buf_put_u16_le(&mut buf, header.sub_header);
    buf_put_u16_le(&mut buf, header.serial_number);
    buf_put_u16_le(&mut buf, header.fixed_number);
    put_route_3e4e(&mut buf, header.route);
    buf_put_u16_le(&mut buf, header.data_length);
    buf_put_u16_le(&mut buf, header.common.monitoring_timer);
    assert(buf_content(buf) =~= header.encoded());
    buf
}

/// Parse a 3E/4E route from a 5-byte slice.
fn parse_route_3e4e(buf: &[u8]) -> (r: McRoute3E4E)
    requires
        buf@.len() >= 5,
    ensures
        r == route_at(buf@, 0),
{
    McRoute3E4E {
        network_number: buf[0],
        pc_number: buf[1],
        module_io_number: le16_at(buf, 2),
        station_number: buf[4],
    }
}

/// Decode a 1E binary acknowledge header from a byte slice.
pub fn decode_header_1e_ack(buf: &[u8], variant: McFrameVariant) -> (r: Result<
    McHeader1EAck,
    McCodecError,
>)
    ensures
        r == if !(variant is Frame1EBinary) {
            Err(McCodecError::UnsupportedVariant(variant))
        } else if buf@.len() < 2 {
            Err(McCodecError::BufferTooShort { expected: 2, actual: buf@.len() as usize })
        } else {
            Ok(
                McHeader1EAck {
                    common: McHeaderAckCommon { frame_variant: variant },
                    sub_header: buf@[0],
                    end_code: buf@[1],
                },
            )
        },
{
    if !matches!(variant, McFrameVariant::Frame1EBinary) {
        return Err(McCodecError::UnsupportedVariant(variant));
    }
    let expected: usize = 2;
    if buf.len() < expected {
        return Err(McCodecError::BufferTooShort { expected, actual: buf.len() });
    }
    Ok(
        McHeader1EAck {
            common: McHeaderAckCommon { frame_variant: variant },
            sub_header: buf[0],
            end_code: buf[1],
        },
    )
}

/// Decode a 3E binary acknowledge header from a byte slice.
pub fn decode_header_3e_ack(buf: &[u8], variant: McFrameVariant) -> (r: Result<
    McHeader3EAck,
    McCodecError,
>)
    ensures
        r == if !(variant is Frame3EBinary) {
            Err(McCodecError::UnsupportedVariant(variant))
        } else if buf@.len() < 11 {
            Err(McCodecError::BufferTooShort { expected: 11, actual: buf@.len() as usize })
        } else {
            Ok(ack_3e_of(buf@))
        },
{
    if !matches!(variant, McFrameVariant::Frame3EBinary) {
        return Err(McCodecError::UnsupportedVariant(variant));
    }
    let expected: usize = 2 + McRoute3E4E::byte_len() + 2 + 2;
    if buf.len() < expected {
        return Err(McCodecError::BufferTooShort { expected, actual: buf.len() });
    }
    let route_len: usize = McRoute3E4E::byte_len();
    let mut idx: usize = 0;
    let sub_header: u16 = le16_at(buf, idx);
    idx += 2;
    let route = parse_route_3e4e(slice_subrange(buf, idx, idx + route_len));
    idx += route_len;
    let data_length: u16 = le16_at(buf, idx);
    idx += 2;
    let end_code: u16 = le16_at(buf, idx);
    Ok(
        McHeader3EAck {
            common: McHeaderAckCommon { frame_variant: variant },
            sub_header,
            route,
            data_length,
            end_code,
        },
    )
}

/// Decode a 4E binary acknowledge header from a byte slice.
pub fn decode_header_4e_ack(buf: &[u8], variant: McFrameVariant) -> (r: Result<
    McHeader4EAck,
    McCodecError,
>)
    ensures
        r == if !(variant is Frame4EBinary) {
            Err(McCodecError::UnsupportedVariant(variant))
        } else if buf@.len() < 15 {
            Err(McCodecError::BufferTooShort { expected: 15, actual: buf@.len() as usize })
        } else {
            Ok(ack_4e_of(buf@))
        },
{
    if !matches!(variant, McFrameVariant::Frame4EBinary) {
        return Err(McCodecError::UnsupportedVariant(variant));
    }
    let expected: usize = 2 + 2 + 2 + McRoute3E4E::byte_len() + 2 + 2;
    if buf.len() < expected {
        return Err(McCodecError::BufferTooShort { expected, actual: buf.len() });
    }
    let route_len: usize = McRoute3E4E::byte_len();
    let mut idx: usize = 0;
    let sub_header: u16 = le16_at(buf, idx);
    idx += 2;
    let serial_number: u16 = le16_at(buf, idx);
    idx += 2;
    let fixed_number: u16 = le16_at(buf, idx);
    idx += 2;
    let route = parse_route_3e4e(slice_subrange(buf, idx, idx + route_len));
    idx += route_len;
    let data_length: u16 = le16_at(buf, idx);
    idx += 2;
    let end_code: u16 = le16_at(buf, idx);
    Ok(
        McHeader4EAck {
            common: McHeaderAckCommon { frame_variant: variant },
            sub_header,
            serial_number,
            fixed_number,
            route,
            data_length,
            end_code,
        },
    )
}

/// Size of the acknowledge header of a frame variant, end code included.
pub open spec fn ack_header_len(variant: McFrameVariant) -> int {
    if variant is Frame4EBinary {
        15
    } else {
        11
    }
}

/// Length field of the acknowledge frame at the front of `b`.
pub open spec fn ack_data_length(variant: McFrameVariant, b: Seq<u8>) -> int {
    if variant is Frame4EBinary {
        ack_4e_of(b).data_length as int
    } else {
        ack_3e_of(b).data_length as int
    }
}

/// Bytes of the acknowledge frame at the front of `b`: the header without the
/// end code, and what the length field counts.
pub open spec fn ack_frame_len(variant: McFrameVariant, b: Seq<u8>) -> int {
    ack_header_len(variant) - 2 + ack_data_length(variant, b)
}

/// A whole header and all bytes that its length field counts are there.
pub open spec fn ack_complete(variant: McFrameVariant, b: Seq<u8>) -> bool {
    b.len() >= ack_header_len(variant) && b.len() >= ack_frame_len(variant, b)
}

/// Payload of the acknowledge frame at the front of `b`: what follows the
/// header up to the end of the frame.
pub open spec fn ack_payload(variant: McFrameVariant, b: Seq<u8>) -> Seq<u8> {
    if ack_frame_len(variant, b) > ack_header_len(variant) {
        b.subrange(ack_header_len(variant), ack_frame_len(variant, b))
    } else {
        Seq::empty()
    }
}

/// Streaming decode of 3E binary acknowledge frames.
fn decode_3e_ack(src: &mut BytesMut) -> (r: Option<McMessage>)
    ensures
        ({
            let v = McFrameVariant::Frame3EBinary;
            let b = buf_content(*old(src));
            match r {
                None => !ack_complete(v, b) && buf_content(*final(src)) == b,
                Some(m) => {
                    &&& ack_complete(v, b)
                    &&& buf_content(*final(src)) == b.skip(ack_frame_len(v, b))
                    &&& m.header == McHeader::Ack3E(ack_3e_of(b))
                    &&& m.body matches Some(McAppBody::Raw(p)) && bytes_content(p) == ack_payload(
                        v,
                        b,
                    )
                },
            }
        }),
{
    let header_len: usize = 2 + McRoute3E4E::byte_len() + 2 + 2;
    let fixed_without_end: usize = 2 + McRoute3E4E::byte_len() + 2;
    let ghost b = buf_content(*src);
    if buf_as_slice(src).len() < header_len {
        return None;
    }
    let header = match decode_header_3e_ack(buf_as_slice(src), McFrameVariant::Frame3EBinary) {
        Ok(h) => h,
        Err(_) => {
            return None;
        },
    };
    let frame_len: usize = fixed_without_end + header.data_length as usize;
    if buf_as_slice(src).len() < frame_len {
        return None;
    }
    let frame = buf_freeze(buf_split_to(src, frame_len));
    let payload = if frame_len > header_len {
        let p = bytes_slice(&frame, header_len, frame_len);
        assert(bytes_content(p) =~= b.subrange(header_len as int, frame_len as int));
        p
    } else {
        buf_freeze(buf_new())
    };
    Some(McMessage { header: McHeader::Ack3E(header), body: Some(McAppBody::Raw(payload)) })
}

/// Streaming decode of 4E binary acknowledge frames.
fn decode_4e_ack(src: &mut BytesMut) -> (r: Option<McMessage>)
    ensures
        ({
            let v = McFrameVariant::Frame4EBinary;
            let b = buf_content(*old(src));
            match r {
                None => !ack_complete(v, b) && buf_content(*final(src)) == b,
                Some(m) => {
                    &&& ack_complete(v, b)
                    &&& buf_content(*final(src)) == b.skip(ack_frame_len(v, b))
                    &&& m.header == McHeader::Ack4E(ack_4e_of(b))
                    &&& m.body matches Some(McAppBody::Raw(p)) && bytes_content(p) == ack_payload(
                        v,
                        b,
                    )
                },
            }
        }),
{
    let header_len: usize = 2 + 2 + 2 + McRoute3E4E::byte_len() + 2 + 2;
    let fixed_without_end: usize = 2 + 2 + 2 + McRoute3E4E::byte_len() + 2;
    let ghost b = buf_content(*src);
    if buf_as_slice(src).len() < header_len {
        return None;
    }
    let header = match decode_header_4e_ack(buf_as_slice(src), McFrameVariant::Frame4EBinary) {
        Ok(h) => h,
        Err(_) => {
            return None;
        },
    };
    let frame_len: usize = fixed_without_end + header.data_length as usize;
    if buf_as_slice(src).len() < frame_len {
        return None;
    }
    let frame = buf_freeze(buf_split_to(src, frame_len));
    let payload = if frame_len > header_len {
        let p = bytes_slice(&frame, header_len, frame_len);
        assert(bytes_content(p) =~= b.subrange(header_len as int, frame_len as int));
        p
    } else {
        buf_freeze(buf_new())
    };
    Some(McMessage { header: McHeader::Ack4E(header), body: Some(McAppBody::Raw(payload)) })
}

/// The length field of a request: the monitoring timer and the body, at most
/// what 16 bits hold.
pub open spec fn request_length(body_len: nat) -> u16 {
    if body_len + 2 <= 0xFFFF {
        (body_len + 2) as u16
    } else {
        0xFFFF
    }
}

/// The bytes that a message is sent as. Requests of the 3E and 4E frame with
/// a PDU carry their length; acknowledges with a raw payload are written with
/// the field widths of a request header, for diagnostics. Every other
/// combination is written as nothing.
pub open spec fn message_bytes(m: McMessage) -> Seq<u8> {
    match (m.header, m.body) {
        (McHeader::Ack1E(h), Some(McAppBody::Raw(p))) => seq![h.sub_header, 0u8, 0u8, 0u8]
            + bytes_content(p),
        (McHeader::Ack3E(h), Some(McAppBody::Raw(p))) => le_bytes(h.sub_header as nat, 2)
            + h.route.encoded() + le_bytes(h.data_length as nat, 2) + seq![0u8, 0u8]
            + bytes_content(p),
        (McHeader::Ack4E(h), Some(McAppBody::Raw(p))) => le_bytes(h.sub_header as nat, 2)
            + le_bytes(h.serial_number as nat, 2) + le_bytes(h.fixed_number as nat, 2)
            + h.route.encoded() + le_bytes(h.data_length as nat, 2) + seq![0u8, 0u8]
            + bytes_content(p),
        (McHeader::Req3E(h), Some(McAppBody::Parsed(pdu))) => McHeader3EReq {
            data_length: request_length(pdu.encoded().len()),
            ..h
        }.encoded() + pdu.encoded(),
        (McHeader::Req4E(h), Some(McAppBody::Parsed(pdu))) => McHeader4EReq {
            data_length: request_length(pdu.encoded().len()),
            ..h
        }.encoded() + pdu.encoded(),
        _ => Seq::empty(),
    }
}

fn length_field(body_len: usize) -> (r: u16)
    ensures
        r == request_length(body_len as nat),
{
    if body_len <= 0xFFFD {
        body_len as u16 + 2
    } else {
        0xFFFF
    }
}

impl Codec {
    /// Take one acknowledge frame off the stream. `Ok(None)` where the frame
    /// is not complete yet; the stream is then left as it is.
    pub fn decode(&self, src: &mut BytesMut) -> (r: Result<Option<McMessage>, McStreamError>)
        ensures
            ({
                let v = self.frame_variant;
                let b = buf_content(*old(src));
                match r {
                    Err(e) => {
                        &&& buf_content(*final(src)) == b
                        &&& match v {
                            McFrameVariant::Frame1EBinary => e is Frame1E,
                            McFrameVariant::Frame3EAscii | McFrameVariant::Frame4EAscii => e
                                is Ascii,
                            _ => false,
                        }
                    },
                    Ok(None) => {
                        &&& v is Frame3EBinary || v is Frame4EBinary
                        &&& !ack_complete(v, b)
                        &&& buf_content(*final(src)) == b
                    },
                    Ok(Some(m)) => {
                        &&& v is Frame3EBinary || v is Frame4EBinary
                        &&& ack_complete(v, b)
                        &&& buf_content(*final(src)) == b.skip(ack_frame_len(v, b))
                        &&& m.header == if v is Frame3EBinary {
                            McHeader::Ack3E(ack_3e_of(b))
                        } else {
                            McHeader::Ack4E(ack_4e_of(b))
                        }
                        &&& m.body matches Some(McAppBody::Raw(p)) && bytes_content(p)
                            == ack_payload(v, b)
                    },
                }
            }),
    {
        match self.frame_variant {
            McFrameVariant::Frame3EBinary => Ok(decode_3e_ack(src)),
            McFrameVariant::Frame4EBinary => Ok(decode_4e_ack(src)),
            McFrameVariant::Frame1EBinary => Err(McStreamError::Frame1E),
            McFrameVariant::Frame3EAscii | McFrameVariant::Frame4EAscii => Err(
                McStreamError::Ascii,
            ),
        }
    }

    /// Append the bytes of a message to the output.
    pub fn encode(&self, item: McMessage, dst: &mut BytesMut)
        ensures
            buf_content(*final(dst)) == buf_content(*old(dst)) + message_bytes(item),
    {
        let ghost d0 = buf_content(*dst);
        match (item.header, item.body) {
            (McHeader::Ack1E(header), Some(McAppBody::Raw(payload))) => {
                let h = encode_header_1e_req(
                    &McHeader1EReq {
                        common: McHeaderReqCommon { monitoring_timer: 0 },
                        sub_header: header.sub_header,
                        route: McRoute1E { pc_number: 0 },
                    },
                );
                buf_extend(dst, buf_as_slice(&h));
                buf_extend(dst, bytes_as_slice(&payload));
                proof {
                    lemma_le2(0);
                }
            },
            (McHeader::Ack3E(header), Some(McAppBody::Raw(payload))) => {
                let h = encode_header_3e_req(
                    &McHeader3EReq {
                        common: McHeaderReqCommon { monitoring_timer: 0 },
                        sub_header: header.sub_header,
                        route: header.route,
                        data_length: header.data_length,
                    },
                );
                buf_extend(dst, buf_as_slice(&h));
                buf_extend(dst, bytes_as_slice(&payload));
                proof {
                    lemma_le2(0);
                }
            },
            (McHeader::Ack4E(header), Some(McAppBody::Raw(payload))) => {
                let h = encode_header_4e_req(
                    &McHeader4EReq {
                        common: McHeaderReqCommon { monitoring_timer: 0 },
                        sub_header: header.sub_header,
                        serial_number: header.serial_number,
                        fixed_number: header.fixed_number,
                        route: header.route,
                        data_length: header.data_length,
                    },
                );
                buf_extend(dst, buf_as_slice(&h));
                buf_extend(dst, bytes_as_slice(&payload));
                proof {
                    lemma_le2(0);
                }
            },
            (McHeader::Req3E(header), Some(McAppBody::Parsed(pdu))) => {
                let body = pdu.encode_to_bytes();
                let mut h = header;
                h.data_length = length_field(bytes_as_slice(&body).len());
                let buf = encode_header_3e_req(&h);
                buf_extend(dst, buf_as_slice(&buf));
                buf_extend(dst, bytes_as_slice(&body));
            },
            (McHeader::Req4E(header), Some(McAppBody::Parsed(pdu))) => {
                let body = pdu.encode_to_bytes();
                let mut h = header;
                h.data_length = length_field(bytes_as_slice(&body).len());
                let buf = encode_header_4e_req(&h);
                buf_extend(dst, buf_as_slice(&buf));
                buf_extend(dst, bytes_as_slice(&body));
            },
            _ => {},
        }
        assert(buf_content(*dst) =~= d0 + message_bytes(item));
    }
}

/// A 3E acknowledge that a PLC sends is read back as it was sent: where the
/// stream starts with the bytes of a header whose length field counts the end
/// code and the payload, followed by the payload, then the frame is complete,
/// and header, payload and the rest of the stream come out.
pub proof fn sent_3e_ack_is_read_back(h: McHeader3EAck, payload: Seq<u8>, rest: Seq<u8>)
    requires
        h.common.frame_variant is Frame3EBinary,
        h.data_length == payload.len() + 2,
    ensures
        ({
            let v = McFrameVariant::Frame3EBinary;
            let b = h.encoded() + payload + rest;
            &&& ack_complete(v, b)
            &&& ack_3e_of(b) == h
            &&& ack_payload(v, b) == payload
            &&& b.skip(ack_frame_len(v, b)) == rest
        }),
{
    lemma_le2(h.sub_header as nat);
    lemma_le2(h.route.module_io_number as nat);
    lemma_le2(h.data_length as nat);
    lemma_le2(h.end_code as nat);
    let v = McFrameVariant::Frame3EBinary;
    let b = h.encoded() + payload + rest;
    assert(h.encoded().len() == 11);
    assert(ack_3e_of(b) == h);
    assert(ack_payload(v, b) =~= payload);
    assert(b.skip(ack_frame_len(v, b)) =~= rest);
}

/// A 4E acknowledge that a PLC sends is read back as it was sent, as for 3E.
pub proof fn sent_4e_ack_is_read_back(h: McHeader4EAck, payload: Seq<u8>, rest: Seq<u8>)
    requires
        h.common.frame_variant is Frame4EBinary,
        h.data_length == payload.len() + 2,
    ensures
        ({
            let v = McFrameVariant::Frame4EBinary;
            let b = h.encoded() + payload + rest;
            &&& ack_complete(v, b)
            &&& ack_4e_of(b) == h
            &&& ack_payload(v, b) == payload
            &&& b.skip(ack_frame_len(v, b)) == rest
        }),
{
    lemma_le2(h.sub_header as nat);
    lemma_le2(h.serial_number as nat);
    lemma_le2(h.fixed_number as nat);
    lemma_le2(h.route.module_io_number as nat);
    lemma_le2(h.data_length as nat);
    lemma_le2(h.end_code as nat);
    let v = McFrameVariant::Frame4EBinary;
    let b = h.encoded() + payload + rest;
    assert(h.encoded().len() == 15);
    assert(ack_4e_of(b) == h);
    assert(ack_payload(v, b) =~= payload);
    assert(b.skip(ack_frame_len(v, b)) =~= rest);
}

/// The length field of a 3E request that is sent counts the bytes behind it,
/// as long as the body fits the field.
pub proof fn request_length_counts_what_follows(m: McMessage)
    requires
        m.header is Req3E,
        m.body matches Some(McAppBody::Parsed(pdu)) && pdu.encoded().len() + 2 <= 0xFFFF,
    ensures
        le16(message_bytes(m), 7) == message_bytes(m).len() - 9,
{
    broadcast use lemma_le_bytes_len;

    let h = m.header->Req3E_0;
    let pdu = m.body->Some_0->Parsed_0;
    lemma_le2(request_length(pdu.encoded().len()) as nat);
    let sent = McHeader3EReq { data_length: request_length(pdu.encoded().len()), ..h };
    assert(message_bytes(m) == sent.encoded() + pdu.encoded());
    assert(sent.encoded().len() == 11);
    assert(message_bytes(m)[7] == le_bytes(sent.data_length as nat, 2)[0]);
    assert(message_bytes(m)[8] == le_bytes(sent.data_length as nat, 2)[1]);
}

} // verus!
