//! Request and acknowledge headers of the 1E, 3E and 4E frames.

use super::super::types::McFrameVariant;
use super::route::{McRoute1E, McRoute3E4E};
use crate::wire::le_bytes;
use vstd::prelude::*;

verus! {

/// Common header fields shared by all MC request headers.
#[derive(Debug, Clone, Copy, PartialEq, Eq, Structural)]
pub struct McHeaderReqCommon {
    /// Monitoring timer in 250 ms units.
    pub monitoring_timer: u16,
}

/// 1E frame request header (binary mode).
#[derive(Debug, Clone, Copy, PartialEq, Eq, Structural)]
pub struct McHeader1EReq {
    /// Common header fields.
    pub common: McHeaderReqCommon,
    /// Sub-header (command code) for 1E frames (1 byte on the wire).
    pub sub_header: u8,
    /// Access route (PC number).
    pub route: McRoute1E,
}

impl McHeader1EReq {
    /// The header on the wire: sub-header, PC number, monitoring timer.
    pub open spec fn encoded(self) -> Seq<u8> {
        seq![self.sub_header, self.route.pc_number] + le_bytes(
            self.common.monitoring_timer as nat,
            2,
        )
    }

    /// The encoded byte length of this header.
    pub fn byte_len() -> (r: usize)
        ensures
            r == 4,
    {
        // sub_header(1) + route(1) + monitoring_timer(2)
        1 + McRoute1E::byte_len() + 2
    }
}

/// 3E frame request header (binary mode).
#[derive(Debug, Clone, Copy, PartialEq, Eq, Structural)]
pub struct McHeader3EReq {
    /// Common header fields.
    pub common: McHeaderReqCommon,
    /// Sub-header (2 bytes).
    pub sub_header: u16,
    /// Access route.
    pub route: McRoute3E4E,
    /// Data length in bytes from monitoring timer to the end of the PDU.
    pub data_length: u16,
}

impl McHeader3EReq {
    /// The header on the wire: sub-header, route, data length, monitoring timer.
    pub open spec fn encoded(self) -> Seq<u8> {
        le_bytes(self.sub_header as nat, 2) + self.route.encoded() + le_bytes(
            self.data_length as nat,
            2,
        ) + le_bytes(self.common.monitoring_timer as nat, 2)
    }

    /// The encoded byte length of this header.
    pub fn byte_len() -> (r: usize)
        ensures
            r == 11,
    {
        // sub_header(2) + route(5) + data_length(2) + monitoring_timer(2)
        2 + McRoute3E4E::byte_len() + 2 + 2
    }
}

/// 4E frame request header (binary mode).
#[derive(Debug, Clone, Copy, PartialEq, Eq, Structural)]
pub struct McHeader4EReq {
    /// Common header fields.
    pub common: McHeaderReqCommon,
    /// Sub-header (2 bytes).
    pub sub_header: u16,
    /// Serial number (2 bytes).
    pub serial_number: u16,
    /// Fixed number (2 bytes).
    pub fixed_number: u16,
    /// Access route.
    pub route: McRoute3E4E,
    /// Data length in bytes from monitoring timer to the end of the PDU.
    pub data_length: u16,
}

impl McHeader4EReq {
    /// The header on the wire: sub-header, serial and fixed number, route,
    /// data length, monitoring timer.
    pub open spec fn encoded(self) -> Seq<u8> {
        le_bytes(self.sub_header as nat, 2) + le_bytes(self.serial_number as nat, 2) + le_bytes(
            self.fixed_number as nat,
            2,
        ) + self.route.encoded() + le_bytes(self.data_length as nat, 2) + le_bytes(
            self.common.monitoring_timer as nat,
            2,
        )
    }

    /// The encoded byte length of this header.
    pub fn byte_len() -> (r: usize)
        ensures
            r == 15,
    {
        // sub_header(2) + serial(2) + fixed(2) + route(5) + data_length(2) + monitoring_timer(2)
        2 + 2 + 2 + McRoute3E4E::byte_len() + 2 + 2
    }
}

/// Common header fields for MC acknowledge headers.
#[derive(Debug, Clone, Copy, PartialEq, Eq, Structural)]
pub struct McHeaderAckCommon {
    /// Frame variant (1E/3E/4E, binary/ASCII).
    pub frame_variant: McFrameVariant,
}

/// 1E acknowledge header (binary mode).
#[derive(Debug, Clone, Copy, PartialEq, Eq, Structural)]
pub struct McHeader1EAck {
    /// Common ack fields.
    pub common: McHeaderAckCommon,
    /// Sub-header (1 byte).
    pub sub_header: u8,
    /// End code (1 byte).
    pub end_code: u8,
}

/// 3E acknowledge header (binary mode).
#[derive(Debug, Clone, Copy, PartialEq, Eq, Structural)]
pub struct McHeader3EAck {
    /// Common ack fields.
    pub common: McHeaderAckCommon,
    /// Sub-header (2 bytes).
    pub sub_header: u16,
    /// Access route.
    pub route: McRoute3E4E,
    /// Data length: the bytes of the end code and the payload.
    pub data_length: u16,
    /// End code.
    pub end_code: u16,
}

impl McHeader3EAck {
    /// The header as a PLC sends it: sub-header, route, data length, end code.
    pub open spec fn encoded(self) -> Seq<u8> {
        le_bytes(self.sub_header as nat, 2) + self.route.encoded() + le_bytes(
            self.data_length as nat,
            2,
        ) + le_bytes(self.end_code as nat, 2)
    }
}

/// 4E acknowledge header (binary mode).
#[derive(Debug, Clone, Copy, PartialEq, Eq, Structural)]
pub struct McHeader4EAck {
    /// Common ack fields.
    pub common: McHeaderAckCommon,
    /// Sub-header (2 bytes).
    pub sub_header: u16,
    /// Serial number (2 bytes).
    pub serial_number: u16,
    /// Fixed number (2 bytes).
    pub fixed_number: u16,
    /// Access route.
    pub route: McRoute3E4E,
    /// Data length: the bytes of the end code and the payload.
    pub data_length: u16,
    /// End code.
    pub end_code: u16,
}

impl McHeader4EAck {
    /// The header as a PLC sends it: sub-header, serial and fixed number,
    /// route, data length, end code.
    pub open spec fn encoded(self) -> Seq<u8> {
        le_bytes(self.sub_header as nat, 2) + le_bytes(self.serial_number as nat, 2) + le_bytes(
            self.fixed_number as nat,
            2,
        ) + self.route.encoded() + le_bytes(self.data_length as nat, 2) + le_bytes(
            self.end_code as nat,
            2,
        )
    }
}

/// MC header of either direction.
#[derive(Debug, Clone, Copy, PartialEq, Eq, Structural)]
pub enum McHeader {
    /// 1E request header.
    Req1E(McHeader1EReq),
    /// 3E request header.
    Req3E(McHeader3EReq),
    /// 4E request header.
    Req4E(McHeader4EReq),
    /// 1E acknowledge header.
    Ack1E(McHeader1EAck),
    /// 3E acknowledge header.
    Ack3E(McHeader3EAck),
    /// 4E acknowledge header.
    Ack4E(McHeader4EAck),
}

} // verus!
