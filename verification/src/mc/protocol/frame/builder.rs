//! Builders of 3E request messages.

use super::super::types::{McFrameVariant, McSeries};
use super::{
    command::McCommandKind,
    header::{McHeader, McHeader3EReq, McHeaderReqCommon},
    message::{McAppBody, McMessage},
    pdu::{McBody, McPdu, McRequestBody},
    route::McRoute3E4E,
};
use crate::wire::bytes_content;
use bytes::Bytes;
use vstd::prelude::*;
use vstd::slice::slice_to_vec;

verus! {

/// Monitoring timer for a timeout: units of 250 ms, at least one, at most what
/// 16 bits hold.
pub open spec fn timer_units(timeout_ms: u32) -> u16 {
    if timeout_ms / 250 < 1 {
        1
    } else if timeout_ms / 250 > 0xFFFF {
        0xFFFF
    } else {
        (timeout_ms / 250) as u16
    }
}

/// The 3E request header for a frame variant and monitoring timeout, with the
/// default route. The data length is filled in when the frame is encoded.
pub open spec fn req_header_3e(
    frame_variant: McFrameVariant,
    monitoring_timeout_ms: u32,
) -> McHeader3EReq {
    McHeader3EReq {
        common: McHeaderReqCommon { monitoring_timer: timer_units(monitoring_timeout_ms) },
        sub_header: frame_variant.sub_header_spec(),
        route: McRoute3E4E {
            network_number: 0x00,
            pc_number: 0xFF,
            module_io_number: 0x03FF,
            station_number: 0x00,
        },
        data_length: 0,
    }
}

/// The message is a 3E request with this PDU series, command and header.
pub open spec fn is_request(
    m: McMessage,
    series: McSeries,
    command: McCommandKind,
    frame_variant: McFrameVariant,
    monitoring_timeout_ms: u32,
) -> bool {
    &&& m.header == McHeader::Req3E(req_header_3e(frame_variant, monitoring_timeout_ms))
    &&& m.body matches Some(McAppBody::Parsed(pdu)) && pdu.series == series && pdu.command
        == command
}

/// The request body of a message that carries one.
pub open spec fn request_body(m: McMessage) -> Option<McRequestBody> {
    match m.body {
        Some(McAppBody::Parsed(McPdu { series, command, body: McBody::Request(b) })) => Some(b),
        _ => None,
    }
}

/// Build a 3E request header for a given frame variant and monitoring timeout.
pub fn build_3e_req_header(frame_variant: McFrameVariant, monitoring_timeout_ms: u32) -> (r:
    McHeader3EReq)
    ensures
        r == req_header_3e(frame_variant, monitoring_timeout_ms),
{
    let units: u32 = monitoring_timeout_ms / 250;
    let timer: u16 = if units < 1 {
        1
    } else if units > 0xFFFF {
        0xFFFF
    } else {
        units as u16
    };
    McHeader3EReq {
        common: McHeaderReqCommon { monitoring_timer: timer },
        sub_header: frame_variant.sub_header(),
        route: McRoute3E4E::default(),
        data_length: 0,
    }
}

/// Build a 3E batch word/dword read message.
pub fn build_device_batch_read_message(
    series: McSeries,
    frame_variant: McFrameVariant,
    monitoring_timeout_ms: u32,
    head: u32,
    points: u16,
    device_code: u16,
) -> (r: McMessage)
    ensures
        is_request(
            r,
            series,
            McCommandKind::DeviceAccessBatchReadUnits,
            frame_variant,
            monitoring_timeout_ms,
        ),
        request_body(r) == Some(
            McRequestBody::DeviceAccessBatchReadUnits { head, points, device_code },
        ),
{
    let pdu = McPdu::new(
        series,
        McCommandKind::DeviceAccessBatchReadUnits,
        McBody::Request(McRequestBody::DeviceAccessBatchReadUnits { head, points, device_code }),
    );
    let header = build_3e_req_header(frame_variant, monitoring_timeout_ms);
    McMessage { header: McHeader::Req3E(header), body: Some(McAppBody::Parsed(pdu)) }
}

/// Build a 3E batch word/dword write message.
pub fn build_device_batch_write_message(
    series: McSeries,
    frame_variant: McFrameVariant,
    monitoring_timeout_ms: u32,
    head: u32,
    points: u16,
    device_code: u16,
    data: Bytes,
) -> (r: McMessage)
    ensures
        is_request(
            r,
            series,
            McCommandKind::DeviceAccessBatchWriteUnits,
            frame_variant,
            monitoring_timeout_ms,
        ),
        request_body(r) == Some(
            McRequestBody::DeviceAccessBatchWriteUnits { head, points, device_code, data },
        ),
{
    let pdu = McPdu::new(
        series,
        McCommandKind::DeviceAccessBatchWriteUnits,
        McBody::Request(
            McRequestBody::DeviceAccessBatchWriteUnits { head, points, device_code, data },
        ),
    );
    let header = build_3e_req_header(frame_variant, monitoring_timeout_ms);
    McMessage { header: McHeader::Req3E(header), body: Some(McAppBody::Parsed(pdu)) }
}

/// Build a 3E random read message from word/dword address lists.
pub fn build_device_random_read_message(
    series: McSeries,
    frame_variant: McFrameVariant,
    monitoring_timeout_ms: u32,
    word_addrs: &[(u32, u16)],
    dword_addrs: &[(u32, u16)],
) -> (r: McMessage)
    ensures
        is_request(
            r,
            series,
            McCommandKind::DeviceAccessRandomReadUnits,
            frame_variant,
            monitoring_timeout_ms,
        ),
        request_body(r) matches Some(
            McRequestBody::DeviceAccessRandomReadUnits { word_addrs: w, dword_addrs: d },
        ) && w@ == word_addrs@ && d@ == dword_addrs@,
{
    let pdu = McPdu::new(
        series,
        McCommandKind::DeviceAccessRandomReadUnits,
        McBody::Request(
            McRequestBody::DeviceAccessRandomReadUnits {
                word_addrs: slice_to_vec(word_addrs),
                dword_addrs: slice_to_vec(dword_addrs),
            },
        ),
    );
    let header = build_3e_req_header(frame_variant, monitoring_timeout_ms);
    McMessage { header: McHeader::Req3E(header), body: Some(McAppBody::Parsed(pdu)) }
}

/// A random write item as mathematical data.
pub open spec fn item_content(x: (u32, u16, Bytes)) -> (u32, u16, Seq<u8>) {
    (x.0, x.1, bytes_content(x.2))
}

/// Random write items as mathematical data.
pub open spec fn items_content(s: Seq<(u32, u16, Bytes)>) -> Seq<(u32, u16, Seq<u8>)> {
    s.map_values(|x: (u32, u16, Bytes)| item_content(x))
}

fn copy_items(items: &[(u32, u16, Bytes)]) -> (r: Vec<(u32, u16, Bytes)>)
    ensures
        items_content(r@) == items_content(items@),
{
    let mut out: Vec<(u32, u16, Bytes)> = Vec::with_capacity(items.len());
    for i in 0..items.len()
        invariant
            out@.len() == i,
            forall|j: int|
                0 <= j < i ==> item_content(#[trigger] out@[j]) == item_content(items@[j]),
    {
        let x = &items[i];
        out.push((x.0, x.1, x.2.clone()));
    }
    assert(items_content(out@) =~= items_content(items@));
    out
}

/// Build a 3E random write message from word/dword item lists.
pub fn build_device_random_write_message(
    series: McSeries,
    frame_variant: McFrameVariant,
    monitoring_timeout_ms: u32,
    word_items: &[(u32, u16, Bytes)],
    dword_items: &[(u32, u16, Bytes)],
) -> (r: McMessage)
    ensures
        is_request(
            r,
            series,
            McCommandKind::DeviceAccessRandomWriteUnits,
            frame_variant,
            monitoring_timeout_ms,
        ),
        request_body(r) matches Some(
            McRequestBody::DeviceAccessRandomWriteUnits { word_items: w, dword_items: d },
        ) && items_content(w@) == items_content(word_items@) && items_content(d@) == items_content(
            dword_items@,
        ),
{
    let pdu = McPdu::new(
        series,
        McCommandKind::DeviceAccessRandomWriteUnits,
        McBody::Request(
            McRequestBody::DeviceAccessRandomWriteUnits {
                word_items: copy_items(word_items),
                dword_items: copy_items(dword_items),
            },
        ),
    );
    let header = build_3e_req_header(frame_variant, monitoring_timeout_ms);
    McMessage { header: McHeader::Req3E(header), body: Some(McAppBody::Parsed(pdu)) }
}

} // verus!
