//! Runtime model of IEC 60870-5-104 channels, devices, points and actions.

use crate::gateway::{AccessMode, DataPointType, DataType};
use vstd::prelude::*;

verus! {

/// IEC 60870-5-104 channel configuration.
#[derive(Debug, Clone)]
pub struct Iec104ChannelConfig {
    /// Remote host.
    pub host: String,
    /// Remote port.
    pub port: u16,
    /// t0 confirm timeout (ms).
    pub t0_ms: u32,
    /// t1 i-frame ack timeout (ms).
    pub t1_ms: u32,
    /// t2 s-ack aggregation timeout (ms).
    pub t2_ms: u32,
    /// t3 idle test frame interval (ms).
    pub t3_ms: u32,
    /// k window (max unacked i-frames).
    pub k_window: u16,
    /// w threshold (ack aggregation).
    pub w_threshold: u16,
    /// Application send queue capacity.
    pub send_queue_capacity: usize,
    /// TCP_NODELAY flag.
    pub tcp_nodelay: bool,
    /// Max budget of pending ASDU bytes (hi backlog + inflight).
    pub max_pending_asdu_bytes: usize,
    /// Whether to drop low-priority when memory window full.
    pub discard_low_priority_when_window_full: bool,
    /// Merge low-priority ASDUs to last-seen one.
    pub merge_low_priority: bool,
    /// Low priority flushing max age (ms).
    pub low_prio_flush_max_age_ms: u64,
    /// Whether to auto send Counter Interrogation on Active.
    pub auto_startup_counter_interrogation: bool,
    /// Whether to auto send General Interrogation on Active.
    pub auto_startup_general_interrogation: bool,
    /// Startup General Interrogation QOI.
    pub startup_qoi: u8,
    /// Startup Counter Interrogation QCC.
    pub startup_qcc: u8,
}

/// What a setting is where the configuration names none.
impl Iec104ChannelConfig {
    pub fn default_true() -> (r: bool)
        ensures
            r,
    {
        true
    }

    pub fn default_port() -> (r: u16)
        ensures
            r == 2404,
    {
        2404
    }

    pub fn default_t0_ms() -> (r: u32)
        ensures
            r == 10_000,
    {
        10_000
    }

    pub fn default_t1_ms() -> (r: u32)
        ensures
            r == 15_000,
    {
        15_000
    }

    pub fn default_t2_ms() -> (r: u32)
        ensures
            r == 10_000,
    {
        10_000
    }

    pub fn default_t3_ms() -> (r: u32)
        ensures
            r == 20_000,
    {
        20_000
    }

    pub fn default_k_window() -> (r: u16)
        ensures
            r == 12,
    {
        12
    }

    pub fn default_w_threshold() -> (r: u16)
        ensures
            r == 8,
    {
        8
    }

    pub fn default_send_queue_capacity() -> (r: usize)
        ensures
            r == 1024,
    {
        1024
    }

    pub fn default_max_pending_asdu_bytes() -> (r: usize)
        ensures
            r == 1024 * 1024,
    {
        1024 * 1024
    }

    pub fn default_low_prio_flush_max_age_ms() -> (r: u64)
        ensures
            r == 2000,
    {
        2000
    }

    pub fn default_startup_qoi() -> (r: u8)
        ensures
            r == 20,
    {
        20
    }

    pub fn default_startup_qcc() -> (r: u8)
        ensures
            r == 5,
    {
        5
    }

    /// The settings of a channel to this host where nothing else is configured.
    pub open spec fn is_default_for(self, host: Seq<char>) -> bool {
        &&& self.host@ == host
        &&& self.port == 2404
        &&& self.t0_ms == 10_000
        &&& self.t1_ms == 15_000
        &&& self.t2_ms == 10_000
        &&& self.t3_ms == 20_000
        &&& self.k_window == 12
        &&& self.w_threshold == 8
        &&& self.send_queue_capacity == 1024
        &&& self.tcp_nodelay
        &&& self.max_pending_asdu_bytes == 1024 * 1024
        &&& self.discard_low_priority_when_window_full
        &&& self.merge_low_priority
        &&& self.low_prio_flush_max_age_ms == 2000
        &&& self.auto_startup_counter_interrogation
        &&& self.auto_startup_general_interrogation
        &&& self.startup_qoi == 20
        &&& self.startup_qcc == 5
    }

    /// The settings of a channel to this host where nothing else is configured.
    pub fn for_host(host: String) -> (r: Self)
        ensures
            r.is_default_for(host@),
    {
        Iec104ChannelConfig {
            host,
            port: Self::default_port(),
            t0_ms: Self::default_t0_ms(),
            t1_ms: Self::default_t1_ms(),
            t2_ms: Self::default_t2_ms(),
            t3_ms: Self::default_t3_ms(),
            k_window: Self::default_k_window(),
            w_threshold: Self::default_w_threshold(),
            send_queue_capacity: Self::default_send_queue_capacity(),
            tcp_nodelay: Self::default_true(),
            max_pending_asdu_bytes: Self::default_max_pending_asdu_bytes(),
            discard_low_priority_when_window_full: Self::default_true(),
            merge_low_priority: Self::default_true(),
            low_prio_flush_max_age_ms: Self::default_low_prio_flush_max_age_ms(),
            auto_startup_counter_interrogation: Self::default_true(),
            auto_startup_general_interrogation: Self::default_true(),
            startup_qoi: Self::default_startup_qoi(),
            startup_qcc: Self::default_startup_qcc(),
        }
    }
}

/// IEC104 runtime device (per common address), as far as the driver decides
/// on it.
#[derive(Debug, Clone)]
pub struct Iec104Device {
    pub id: i32,
    pub channel_id: i32,
    pub device_name: String,
    pub device_type: String,
    /// Common address (CA).
    pub ca: u16,
}

/// IEC104 runtime point, as far as the driver decides on it.
#[derive(Debug, Clone)]
pub struct Iec104Point {
    pub id: i32,
    pub device_id: i32,
    pub name: String,
    pub key: String,
    /// Channel on which values are published.
    pub kind: DataPointType,
    pub data_type: DataType,
    pub access_mode: AccessMode,
    /// Scale of the values, as the bit pattern of a floating-point number.
    pub scale: Option<u64>,
    /// Information object address (IOA).
    pub ioa: u16,
    /// ASDU Type ID as raw number.
    pub type_id: u8,
}

/// IEC104 input parameter of an action, as far as the driver decides on it.
#[derive(Debug, Clone)]
pub struct Iec104Parameter {
    pub name: String,
    pub key: String,
    pub data_type: DataType,
    pub required: bool,
    pub ioa: u16,
    pub type_id: u8,
}

/// IEC104 runtime action.
#[derive(Debug, Clone)]
pub struct Iec104Action {
    pub id: i32,
    pub device_id: i32,
    pub name: String,
    pub command: String,
    pub input_parameters: Vec<Iec104Parameter>,
}

} // verus!
