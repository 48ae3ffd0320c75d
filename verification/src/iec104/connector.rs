//! Connection decisions of the IEC 60870-5-104 driver.

use super::protocol::session::SessionConfig;
use super::types::Iec104ChannelConfig;
use crate::gateway::{address_text, ConnectionPolicy, DriverError, FailureKind};
use crate::text::decimal;
use vstd::prelude::*;

pub use crate::gateway::invalid_address;

verus! {

/// Address of the remote station, as `host:port`.
pub fn socket_text(c: &Iec104ChannelConfig) -> (r: String)
    ensures
        r@ == c.host@ + ":"@ + decimal(c.port as nat),
{
    address_text(c.host.as_str(), c.port)
}

/// The settings of the protocol session of a channel.
pub open spec fn session_config_of(
    c: Iec104ChannelConfig,
    policy: ConnectionPolicy,
) -> SessionConfig {
    SessionConfig {
        connection_timeout_ms: policy.connect_timeout_ms,
        t0_ms: c.t0_ms as u64,
        t1_ms: c.t1_ms as u64,
        t2_ms: c.t2_ms as u64,
        t3_ms: c.t3_ms as u64,
        k_window: c.k_window,
        w_threshold: c.w_threshold,
        send_queue_capacity: c.send_queue_capacity,
        tcp_nodelay: c.tcp_nodelay,
        max_pending_asdu_bytes: c.max_pending_asdu_bytes,
        discard_low_priority_when_window_full: c.discard_low_priority_when_window_full,
        merge_low_priority: c.merge_low_priority,
        low_prio_flush_max_age_ms: c.low_prio_flush_max_age_ms,
    }
}

/// The settings of the protocol session of a channel.
pub fn build_session_config(c: &Iec104ChannelConfig, policy: &ConnectionPolicy) -> (r:
    SessionConfig)
    ensures
        r == session_config_of(*c, *policy),
{
    SessionConfig {
        connection_timeout_ms: policy.connect_timeout_ms,
        t0_ms: c.t0_ms as u64,
        t1_ms: c.t1_ms as u64,
        t2_ms: c.t2_ms as u64,
        t3_ms: c.t3_ms as u64,
        k_window: c.k_window,
        w_threshold: c.w_threshold,
        send_queue_capacity: c.send_queue_capacity,
        tcp_nodelay: c.tcp_nodelay,
        max_pending_asdu_bytes: c.max_pending_asdu_bytes,
        discard_low_priority_when_window_full: c.discard_low_priority_when_window_full,
        merge_low_priority: c.merge_low_priority,
        low_prio_flush_max_age_ms: c.low_prio_flush_max_age_ms,
    }
}

/// How an attempt to connect can fail.
pub enum ConnectEnd {
    /// It was cancelled.
    Cancelled,
    /// With this error.
    Failed(String),
}

/// The error of an attempt to connect.
pub fn connect_error(end: ConnectEnd) -> (r: DriverError)
    ensures
        match end {
            ConnectEnd::Cancelled => r is ServiceUnavailable,
            ConnectEnd::Failed(text) => r == DriverError::ExecutionError(text),
        },
{
    match end {
        ConnectEnd::Cancelled => DriverError::ServiceUnavailable,
        ConnectEnd::Failed(text) => DriverError::ExecutionError(text),
    }
}

/// Only what the configuration or the arguments are to blame for is fatal.
pub fn classify_error(err: &DriverError) -> (r: FailureKind)
    ensures
        r is Fatal <==> err is ConfigurationError || err is ValidationError,
{
    match err {
        DriverError::ConfigurationError(_) | DriverError::ValidationError(_) => FailureKind::Fatal,
        _ => FailureKind::Retryable,
    }
}

/// A channel that is configured with nothing but a host opens its session
/// with the default settings, apart from the time to connect.
pub proof fn default_channel_has_default_session(
    c: Iec104ChannelConfig,
    policy: ConnectionPolicy,
    host: Seq<char>,
)
    requires
        c.is_default_for(host),
    ensures
        session_config_of(c, policy) == (SessionConfig {
            connection_timeout_ms: policy.connect_timeout_ms,
            ..super::protocol::session::state::default_config()
        }),
{
}

} // verus!
