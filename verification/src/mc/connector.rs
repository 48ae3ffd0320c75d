//! Connection decisions of the MC driver: session configuration, and what
//! becomes of an attempt.

use super::handle::at_least_one;
use super::protocol::session::{SessionConfig, SessionLifecycleState};
use super::types::McChannelConfig;
use crate::gateway::{address_text, ConnectionPolicy, DriverError, FailureKind};
use crate::text::decimal;
use vstd::prelude::*;

pub use crate::gateway::invalid_address;

verus! {

/// Address of the controller, as `host:port`.
pub fn socket_text(c: &McChannelConfig) -> (r: String)
    ensures
        r@ == c.host@ + ":"@ + decimal(c.port as nat),
{
    address_text(c.host.as_str(), c.port)
}

/// The configuration of the protocol sessions of a channel.
pub fn build_session_config(
    socket_addr: String,
    config: &McChannelConfig,
    policy: &ConnectionPolicy,
) -> (r: SessionConfig)
    ensures
        r.socket_addr@ == socket_addr@,
        r.series == config.series,
        r.frame_variant == config.series.frame_variant_spec(),
        r.connect_timeout_ms == policy.connect_timeout_ms,
        r.read_timeout_ms == policy.read_timeout_ms,
        r.write_timeout_ms == policy.write_timeout_ms,
        r.send_queue_capacity == 256,
        r.max_concurrent_requests == at_least_one(config.concurrent_requests),
        r.tcp_nodelay,
{
    SessionConfig {
        socket_addr,
        series: config.series,
        frame_variant: config.series.frame_variant(),
        connect_timeout_ms: policy.connect_timeout_ms,
        read_timeout_ms: policy.read_timeout_ms,
        write_timeout_ms: policy.write_timeout_ms,
        send_queue_capacity: 256,
        max_concurrent_requests: config.effective_pool_size(),
        tcp_nodelay: true,
    }
}

/// Every failed attempt is worth another one.
pub fn classify_error(_err: &DriverError) -> (r: FailureKind)
    ensures
        r is Retryable,
{
    FailureKind::Retryable
}

/// The outcome of bringing up the sessions of a pool, given which of them
/// became active, in the order in which they are waited for: all must.
pub fn init_outcome(active: &Vec<bool>) -> (r: Result<(), DriverError>)
    ensures
        r is Ok <==> forall|i: int| 0 <= i < active@.len() ==> #[trigger] active@[i],
        r matches Err(e) ==> (e matches DriverError::SessionError(t) && t@
            == "mc protocol session did not become Active"@),
{
    for i in 0..active.len()
        invariant
            forall|j: int| 0 <= j < i ==> #[trigger] active@[j],
    {
        if !active[i] {
            return Err(
                DriverError::SessionError("mc protocol session did not become Active".to_owned()),
            );
        }
    }
    Ok(())
}

/// A session in this state ends the whole pool.
pub fn is_ended(state: SessionLifecycleState) -> (r: bool)
    ensures
        r == (state is Closed || state is Failed),
{
    matches!(state, SessionLifecycleState::Closed | SessionLifecycleState::Failed)
}

/// How an attempt ends.
pub enum RunOutcome {
    /// It was cancelled.
    Disconnected,
    /// It should be repeated, for this reason.
    ReconnectRequested(&'static str),
}

/// How an attempt ends: it was cancelled, or a session of the pool ended.
pub fn run_outcome(cancelled: bool) -> (r: RunOutcome)
    ensures
        if cancelled {
            r is Disconnected
        } else {
            r matches RunOutcome::ReconnectRequested(why) && why@ == "mc protocol session ended"@
        },
{
    if cancelled {
        RunOutcome::Disconnected
    } else {
        RunOutcome::ReconnectRequested("mc protocol session ended")
    }
}

} // verus!
