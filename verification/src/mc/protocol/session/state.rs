//! Session lifecycle and configuration.

use super::super::types::{McFrameVariant, McSeries};
use vstd::prelude::*;

verus! {

/// MC session lifecycle state.
#[derive(Debug, Clone, Copy, PartialEq, Eq, Structural)]
pub enum SessionLifecycleState {
    /// Initial idle state before any connection attempt.
    Idle,
    /// Transport connecting.
    Connecting,
    /// Fully active/established.
    Active,
    /// Graceful closing in progress.
    Closing,
    /// Fully closed/disconnected.
    Closed,
    /// Failed/backoff state after error.
    Failed,
}

/// Session events for observability.
#[derive(Debug, Clone, Copy, PartialEq, Eq, Structural)]
pub enum SessionEvent {
    /// Lifecycle changed notification.
    LifecycleChanged(SessionLifecycleState),
    /// Transport level error occurred (connect/reset/IO).
    TransportError,
}

/// MC session configuration.
#[derive(Debug, Clone)]
pub struct SessionConfig {
    /// Remote PLC address (host:port).
    pub socket_addr: String,
    /// PLC series (A/QnA/Q/L/iQ-R), from which frame behaviour and
    /// subcommands follow.
    pub series: McSeries,
    /// Frame variant (1E/3E/4E + Binary/ASCII).
    pub frame_variant: McFrameVariant,
    /// Connection timeout in milliseconds.
    pub connect_timeout_ms: u64,
    /// Read timeout in milliseconds.
    pub read_timeout_ms: u64,
    /// Write timeout in milliseconds.
    pub write_timeout_ms: u64,
    /// Outbound queue capacity.
    pub send_queue_capacity: usize,
    /// Maximum concurrent requests (back pressure control).
    pub max_concurrent_requests: usize,
    /// TCP_NODELAY option.
    pub tcp_nodelay: bool,
}

impl Default for SessionConfig {
    fn default() -> (r: Self)
        ensures
            r.socket_addr@ == "127.0.0.1:5007"@,
            r.series is QnA,
            r.frame_variant is Frame3EBinary,
            r.connect_timeout_ms == 10_000,
            r.read_timeout_ms == 5_000,
            r.write_timeout_ms == 5_000,
            r.send_queue_capacity == 256,
            r.max_concurrent_requests == 1,
            r.tcp_nodelay,
    {
        Self {
            socket_addr: "127.0.0.1:5007".to_owned(),
            series: McSeries::QnA,
            frame_variant: McFrameVariant::Frame3EBinary,
            connect_timeout_ms: 10_000,
            read_timeout_ms: 5_000,
            write_timeout_ms: 5_000,
            send_queue_capacity: 256,
            max_concurrent_requests: 1,
            tcp_nodelay: true,
        }
    }
}

/// The monitoring timeout that a request carries for a configured timeout: at
/// least 250 ms, its low 32 bits.
pub open spec fn monitoring_ms_spec(timeout_ms: u64) -> u32 {
    (if timeout_ms < 250 {
        250
    } else {
        timeout_ms % 0x1_0000_0000
    }) as u32
}

/// The monitoring timeout that a request carries for a configured timeout.
pub fn monitoring_ms(timeout_ms: u64) -> (r: u32)
    ensures
        r == monitoring_ms_spec(timeout_ms),
{
    if timeout_ms < 250 {
        250
    } else {
        (timeout_ms % 0x1_0000_0000) as u32
    }
}

impl SessionConfig {
    /// Number of requests that may be in flight: as configured, at least one.
    pub fn request_permits(&self) -> (r: usize)
        ensures
            r == if self.max_concurrent_requests == 0 {
                1
            } else {
                self.max_concurrent_requests
            },
    {
        if self.max_concurrent_requests == 0 {
            1
        } else {
            self.max_concurrent_requests
        }
    }
}

/// What a caller that waits for an active session learns of a lifecycle
/// state: `Some(true)` once active, `Some(false)` once ended, else nothing.
pub fn active_verdict(s: SessionLifecycleState) -> (r: Option<bool>)
    ensures
        r == match s {
            SessionLifecycleState::Active => Some(true),
            SessionLifecycleState::Closed | SessionLifecycleState::Failed => Some(false),
            _ => None,
        },
{
    match s {
        SessionLifecycleState::Active => Some(true),
        SessionLifecycleState::Closed | SessionLifecycleState::Failed => Some(false),
        _ => None,
    }
}

/// How an exchange on the wire ended.
#[derive(Debug, Clone, Copy, PartialEq, Eq, Structural)]
pub enum ExchangeEnd {
    /// The request could not be written.
    WriteFailed,
    /// A response came.
    Response,
    /// Reading the response failed.
    ReadFailed,
    /// The peer closed the connection.
    Eof,
    /// No response came in time.
    TimedOut,
}

/// Whether the connection goes on after an exchange, and which event is
/// published: every end but a response closes it with a transport error.
pub fn after_exchange(end: ExchangeEnd) -> (r: (bool, Option<SessionEvent>))
    ensures
        r.0 == (end is Response),
        r.1 == if end is Response {
            None::<SessionEvent>
        } else {
            Some(SessionEvent::TransportError)
        },
{
    match end {
        ExchangeEnd::Response => (true, None),
        _ => (false, Some(SessionEvent::TransportError)),
    }
}

} // verus!
