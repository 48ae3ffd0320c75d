//! A whole MC frame: header and application body.

use super::{header::McHeader, pdu::McPdu};
use bytes::Bytes;
use vstd::prelude::*;

verus! {

/// Application-layer MC body carried by a single MC frame.
#[derive(Debug, Clone)]
pub enum McAppBody {
    /// Raw payload, not validated to be a full MC PDU.
    Raw(Bytes),
    /// Fully parsed MC PDU (semantic view).
    Parsed(McPdu),
}

/// An MC wire packet (header + optional application body).
#[derive(Debug, Clone)]
pub struct McMessage {
    /// Request or acknowledge header.
    pub header: McHeader,
    /// Optional application body when the frame carries a PDU.
    pub body: Option<McAppBody>,
}

} // verus!
