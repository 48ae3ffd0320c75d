//! Settings of a client.

use super::session::state::{default_config, SessionConfig};
use vstd::prelude::*;
use vstd::std_specs::convert::FromSpecImpl;

verus! {

/// Address and settings of a client.
#[derive(Debug, Clone)]
pub struct ClientOption {
    /// Address and port of the remote station.
    pub socket_addr: String,
    pub connect_timeout_ms: u64,
    pub t0_ms: u64,
    pub t1_ms: u64,
    pub t2_ms: u64,
    pub t3_ms: u64,
    pub k_window: u16,
    pub w_threshold: u16,
    pub send_queue_capacity: usize,
    pub tcp_nodelay: bool,
    pub max_pending_asdu_bytes: usize,
    pub discard_low_priority_when_window_full: bool,
    pub merge_low_priority: bool,
    pub low_prio_flush_max_age_ms: u64,
}

/// The settings of the session that the client opens.
pub open spec fn session_settings(o: ClientOption) -> SessionConfig {
    SessionConfig {
        connection_timeout_ms: o.connect_timeout_ms,
        t0_ms: o.t0_ms,
        t1_ms: o.t1_ms,
        t2_ms: o.t2_ms,
        t3_ms: o.t3_ms,
        k_window: o.k_window,
        w_threshold: o.w_threshold,
        send_queue_capacity: o.send_queue_capacity,
        tcp_nodelay: o.tcp_nodelay,
        max_pending_asdu_bytes: o.max_pending_asdu_bytes,
        discard_low_priority_when_window_full: o.discard_low_priority_when_window_full,
        merge_low_priority: o.merge_low_priority,
        low_prio_flush_max_age_ms: o.low_prio_flush_max_age_ms,
    }
}

impl From<ClientOption> for SessionConfig {
    fn from(option: ClientOption) -> (r: Self) {
        SessionConfig {
            connection_timeout_ms: option.connect_timeout_ms,
            t0_ms: option.t0_ms,
            t1_ms: option.t1_ms,
            t2_ms: option.t2_ms,
            t3_ms: option.t3_ms,
            k_window: option.k_window,
            w_threshold: option.w_threshold,
            send_queue_capacity: option.send_queue_capacity,
            tcp_nodelay: option.tcp_nodelay,
            max_pending_asdu_bytes: option.max_pending_asdu_bytes,
            discard_low_priority_when_window_full: option.discard_low_priority_when_window_full,
            merge_low_priority: option.merge_low_priority,
            low_prio_flush_max_age_ms: option.low_prio_flush_max_age_ms,
        }
    }
}

impl FromSpecImpl<ClientOption> for SessionConfig {
    open spec fn obeys_from_spec() -> bool {
        true
    }

    open spec fn from_spec(o: ClientOption) -> SessionConfig {
        session_settings(o)
    }
}

impl Default for ClientOption {
    fn default() -> (r: Self)
        ensures
            r.socket_addr@ == "127.0.0.1:2404"@,
            session_settings(r) == default_config(),
    {
        ClientOption {
            socket_addr: "127.0.0.1:2404".to_owned(),
            connect_timeout_ms: 10_000,
            t0_ms: 10000,
            t1_ms: 15000,
            t2_ms: 10000,
            t3_ms: 20000,
            k_window: 12,
            w_threshold: 8,
            send_queue_capacity: 1024,
            tcp_nodelay: true,
            max_pending_asdu_bytes: 1024 * 1024,
            discard_low_priority_when_window_full: true,
            merge_low_priority: true,
            low_prio_flush_max_age_ms: 2000,
        }
    }
}

impl ClientOption {
    /// The default settings, for this address.
    pub fn new(socket_addr: String) -> (r: Self)
        ensures
            r.socket_addr == socket_addr,
            session_settings(r) == default_config(),
    {
        let mut r = ClientOption::default();
        r.socket_addr = socket_addr;
        r
    }
}

/// ClientBuilder constructs a Client with fluent configuration API.
#[derive(Debug, Clone)]
pub struct ClientBuilder {
    pub option: ClientOption,
}

impl ClientBuilder {
    /// A builder with the default settings.
    pub fn new() -> (r: Self)
        ensures
            r.option.socket_addr@ == "127.0.0.1:2404"@,
            session_settings(r.option) == default_config(),
    {
        ClientBuilder { option: ClientOption::default() }
    }

    pub fn socket_addr(self, addr: String) -> (r: Self)
        ensures
            r.option == (ClientOption { socket_addr: addr, ..self.option }),
    {
        ClientBuilder { option: ClientOption { socket_addr: addr, ..self.option } }
    }

    pub fn connect_timeout(self, millis: u64) -> (r: Self)
        ensures
            r.option == (ClientOption { connect_timeout_ms: millis, ..self.option }),
    {
        ClientBuilder { option: ClientOption { connect_timeout_ms: millis, ..self.option } }
    }

    pub fn t0(self, millis: u64) -> (r: Self)
        ensures
            r.option == (ClientOption { t0_ms: millis, ..self.option }),
    {
        ClientBuilder { option: ClientOption { t0_ms: millis, ..self.option } }
    }

    pub fn t1(self, millis: u64) -> (r: Self)
        ensures
            r.option == (ClientOption { t1_ms: millis, ..self.option }),
    {
        ClientBuilder { option: ClientOption { t1_ms: millis, ..self.option } }
    }

    pub fn t2(self, millis: u64) -> (r: Self)
        ensures
            r.option == (ClientOption { t2_ms: millis, ..self.option }),
    {
        ClientBuilder { option: ClientOption { t2_ms: millis, ..self.option } }
    }

    pub fn t3(self, millis: u64) -> (r: Self)
        ensures
            r.option == (ClientOption { t3_ms: millis, ..self.option }),
    {
        ClientBuilder { option: ClientOption { t3_ms: millis, ..self.option } }
    }

    pub fn window_k(self, k: u16) -> (r: Self)
        ensures
            r.option == (ClientOption { k_window: k, ..self.option }),
    {
        ClientBuilder { option: ClientOption { k_window: k, ..self.option } }
    }

    pub fn ack_threshold_w(self, w: u16) -> (r: Self)
        ensures
            r.option == (ClientOption { w_threshold: w, ..self.option }),
    {
        ClientBuilder { option: ClientOption { w_threshold: w, ..self.option } }
    }

    pub fn send_queue_capacity(self, cap: usize) -> (r: Self)
        ensures
            r.option == (ClientOption { send_queue_capacity: cap, ..self.option }),
    {
        ClientBuilder { option: ClientOption { send_queue_capacity: cap, ..self.option } }
    }

    pub fn tcp_nodelay(self, on: bool) -> (r: Self)
        ensures
            r.option == (ClientOption { tcp_nodelay: on, ..self.option }),
    {
        ClientBuilder { option: ClientOption { tcp_nodelay: on, ..self.option } }
    }

    pub fn max_pending_asdu_bytes(self, bytes: usize) -> (r: Self)
        ensures
            r.option == (ClientOption { max_pending_asdu_bytes: bytes, ..self.option }),
    {
        ClientBuilder { option: ClientOption { max_pending_asdu_bytes: bytes, ..self.option } }
    }

    pub fn allow_low_priority_discard(self, on: bool) -> (r: Self)
        ensures
            r.option == (ClientOption { discard_low_priority_when_window_full: on, ..self.option }),
    {
        ClientBuilder { option: ClientOption { discard_low_priority_when_window_full: on, ..self.option } }
    }

    pub fn merge_low_priority(self, on: bool) -> (r: Self)
        ensures
            r.option == (ClientOption { merge_low_priority: on, ..self.option }),
    {
        ClientBuilder { option: ClientOption { merge_low_priority: on, ..self.option } }
    }

    pub fn low_prio_flush_max_age(self, millis: u64) -> (r: Self)
        ensures
            r.option == (ClientOption { low_prio_flush_max_age_ms: millis, ..self.option }),
    {
        ClientBuilder { option: ClientOption { low_prio_flush_max_age_ms: millis, ..self.option } }
    }

    pub fn build(self) -> (r: Client)
        ensures
            r.op() == self.option,
    {
        Client::new(self.option)
    }
}

impl Default for ClientBuilder {
    fn default() -> (r: Self)
        ensures
            r.option.socket_addr@ == "127.0.0.1:2404"@,
            session_settings(r.option) == default_config(),
    {
        Self::new()
    }
}

/// A client of a remote station.
pub struct Client {
    op: ClientOption,
}

impl Client {
    /// The settings of the client.
    pub closed spec fn op(self) -> ClientOption {
        self.op
    }

    pub fn new(option: ClientOption) -> (r: Self)
        ensures
            r.op() == option,
    {
        Client { op: option }
    }

    /// The settings of the client.
    pub fn options(&self) -> (r: &ClientOption)
        ensures
            *r == self.op(),
    {
        &self.op
    }
}

} // verus!
