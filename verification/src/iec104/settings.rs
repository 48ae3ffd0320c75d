//! Settings on their way from the configuration to the session.

use super::connector::session_config_of;
use super::converter::{input_spec, low16, low8, InputModel};
use super::protocol::client::{session_settings, ClientOption};
use super::protocol::error::Error;
use super::protocol::frame::apci::{U_STARTDT_ACTIVE, U_STOPDT_ACTIVE};
use super::protocol::session::link::Request;
use super::protocol::session::requests::{settled, Session};
use super::protocol::session::state::SessionLifecycleState;
use super::types::{Iec104ChannelConfig, Iec104Parameter};
use crate::gateway::ConnectionPolicy;
use vstd::prelude::*;

verus! {

/// A session runs with the settings of its channel, and is established within
/// the time of the policy.
pub proof fn sessions_take_the_settings_of_the_channel(
    c: Iec104ChannelConfig,
    policy: ConnectionPolicy,
)
    ensures
        ({
            let s = session_config_of(c, policy);
            &&& s.connection_timeout_ms == policy.connect_timeout_ms
            &&& s.t0_ms == c.t0_ms
            &&& s.t1_ms == c.t1_ms
            &&& s.t2_ms == c.t2_ms
            &&& s.t3_ms == c.t3_ms
            &&& s.k_window == c.k_window
            &&& s.w_threshold == c.w_threshold
            &&& s.send_queue_capacity == c.send_queue_capacity
            &&& s.tcp_nodelay == c.tcp_nodelay
            &&& s.max_pending_asdu_bytes == c.max_pending_asdu_bytes
            &&& s.discard_low_priority_when_window_full == c.discard_low_priority_when_window_full
            &&& s.merge_low_priority == c.merge_low_priority
            &&& s.low_prio_flush_max_age_ms == c.low_prio_flush_max_age_ms
        }),
{
}

/// A session runs with the settings of its client.
pub proof fn sessions_take_the_settings_of_the_client(o: ClientOption)
    ensures
        ({
            let s = session_settings(o);
            &&& s.connection_timeout_ms == o.connect_timeout_ms
            &&& s.t0_ms == o.t0_ms
            &&& s.t1_ms == o.t1_ms
            &&& s.t2_ms == o.t2_ms
            &&& s.t3_ms == o.t3_ms
            &&& s.k_window == o.k_window
            &&& s.w_threshold == o.w_threshold
            &&& s.send_queue_capacity == o.send_queue_capacity
            &&& s.tcp_nodelay == o.tcp_nodelay
            &&& s.max_pending_asdu_bytes == o.max_pending_asdu_bytes
            &&& s.discard_low_priority_when_window_full == o.discard_low_priority_when_window_full
            &&& s.merge_low_priority == o.merge_low_priority
            &&& s.low_prio_flush_max_age_ms == o.low_prio_flush_max_age_ms
        }),
{
}

/// Where nothing else is configured a channel talks to port 2404, with the
/// usual times and windows, and interrogates in general (qualifier 20) and for
/// counters (qualifier 5).
pub proof fn usual_settings_of_a_channel(c: Iec104ChannelConfig, host: Seq<char>)
    requires
        c.is_default_for(host),
    ensures
        c.host@ == host && c.port == 2404,
        c.t0_ms == 10_000 && c.t1_ms == 15_000 && c.t2_ms == 10_000 && c.t3_ms == 20_000,
        c.k_window == 12 && c.w_threshold == 8,
        c.send_queue_capacity == 1024 && c.max_pending_asdu_bytes == 1_048_576,
        c.tcp_nodelay && c.discard_low_priority_when_window_full && c.merge_low_priority,
        c.low_prio_flush_max_age_ms == 2000,
        c.auto_startup_counter_interrogation && c.auto_startup_general_interrogation,
        c.startup_qoi == 20 && c.startup_qcc == 5,
{
}

/// An input of an action needs an address and a type, and keeps what is
/// configured for it; numbers that fit are taken as they are, of others the
/// low bits count.
pub proof fn inputs_are_taken_as_configured(m: InputModel, p: Iec104Parameter, n: u64)
    ensures
        input_spec(m) is Ok <==> m.ioa is Some && m.type_id is Some,
        input_spec(m) == Ok::<Iec104Parameter, Seq<char>>(p) ==> p.name == m.name && p.key == m.key
            && p.data_type == m.data_type && p.required == m.required && p.ioa == m.ioa->0
            % 0x10000 && p.type_id == m.type_id->0 % 0x100,
        n < 0x10000 ==> low16(n) == n,
        n < 0x100 ==> low8(n) == n,
        (n - low16(n)) % 0x10000 == 0,
        (n - low8(n)) % 0x100 == 0,
{
}

/// Start and stop of data transfer are asked for with the functions 0x04 and
/// 0x10, whenever there is a connection.
pub proof fn control_requests_need_a_connection(s: Session, function: u8)
    ensures
        s.connected ==> (s.admitted_control(function) matches Ok(Request::U(u)) && u.function
            == function),
        !s.connected ==> s.admitted_control(function) == Err::<Request, Error>(
            Error::ErrUseClosedConnection,
        ),
        U_STARTDT_ACTIVE == 0x04,
        U_STOPDT_ACTIVE == 0x10,
        s.active_spec() <==> s.connected && s.lifecycle is Active,
{
}

/// A connection is there from the handshake on, and there will be none once
/// the session is closed or has failed; before that, and while it is closing,
/// it is still to be waited for.
pub proof fn states_settle_the_connection(s: SessionLifecycleState)
    ensures
        settled(s) == Some(true) <==> s is Handshaking || s is Inactive || s is Active,
        settled(s) == Some(false) <==> s is Closed || s is Failed,
        settled(s) is None <==> s is Idle || s is Connecting || s is Closing,
{
}

} // verus!
