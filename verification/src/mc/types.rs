//! Runtime model of MC channels, points and parameters.

use super::protocol::frame::addr::McLogicalAddress;
use super::protocol::types::McSeries;
use crate::gateway::{AccessMode, DataPointType, DataType};
use vstd::prelude::*;

verus! {

/// Address of a point or parameter: the configured text and what it stands for.
#[derive(Debug, Clone)]
pub struct McAddress {
    pub raw: String,
    pub logical: Option<McLogicalAddress>,
}

/// Settings of an MC channel.
#[derive(Debug, Clone)]
pub struct McChannelConfig {
    pub host: String,
    pub port: u16,
    pub series: McSeries,
    pub max_points_per_batch: Option<u16>,
    pub max_bytes_per_frame: Option<u16>,
    pub concurrent_requests: Option<u32>,
}

/// A point, as far as the driver decides on it.
#[derive(Debug, Clone)]
pub struct McPoint {
    pub id: i32,
    pub device_id: i32,
    pub name: String,
    pub key: String,
    pub kind: DataPointType,
    /// Data type on the wire.
    pub data_type: DataType,
    pub access_mode: AccessMode,
    pub unit: Option<String>,
    pub address: McAddress,
    pub string_len_bytes: Option<u16>,
}

/// An input parameter of an action, as far as the driver decides on it.
#[derive(Debug, Clone)]
pub struct McParameter {
    pub name: String,
    pub key: String,
    /// Data type on the wire.
    pub data_type: DataType,
    pub required: bool,
    pub address: McAddress,
    pub string_len_bytes: Option<u16>,
}

} // verus!
