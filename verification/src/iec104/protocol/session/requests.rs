//! What a session lets through, and what is known of its connection.

use super::super::error::Error;
use super::super::frame::apci::{UApci, U_STARTDT_ACTIVE, U_STOPDT_ACTIVE};
use super::super::frame::asdu::Asdu;
use super::link::{Priority, Request};
use super::state::SessionLifecycleState;
use crate::text::{decimal, decimal_text, text3};
use vstd::prelude::*;

verus! {

/// A session as its callers see it.
pub struct Session {
    /// Requests can be handed to the link.
    pub connected: bool,
    pub lifecycle: SessionLifecycleState,
}

impl Session {
    /// Data transfer is started.
    pub open spec fn active_spec(self) -> bool {
        self.connected && self.lifecycle is Active
    }

    /// Requests can be handed to the link.
    pub fn is_connected(&self) -> (r: bool)
        ensures
            r == self.connected,
    {
        self.connected
    }

    /// Data transfer is started.
    pub fn is_active(&self) -> (r: bool)
        ensures
            r == self.active_spec(),
    {
        self.connected && matches!(self.lifecycle, SessionLifecycleState::Active)
    }

    fn admit_asdu(&self, asdu: Asdu, prio: Priority) -> (r: Result<Request, Error>)
        ensures
            r == self.admitted(asdu, prio),
    {
        if !self.connected {
            return Err(Error::ErrUseClosedConnection);
        }
        if !self.is_active() {
            return Err(Error::ErrNotActive);
        }
        Ok(Request::I(asdu, prio))
    }

    /// An ASDU is let through while data transfer is started.
    pub open spec fn admitted(self, asdu: Asdu, prio: Priority) -> Result<Request, Error> {
        if !self.connected {
            Err(Error::ErrUseClosedConnection)
        } else if !self.active_spec() {
            Err(Error::ErrNotActive)
        } else {
            Ok(Request::I(asdu, prio))
        }
    }

    /// A control function is let through while there is a connection.
    pub open spec fn admitted_control(self, function: u8) -> Result<Request, Error> {
        if !self.connected {
            Err(Error::ErrUseClosedConnection)
        } else {
            Ok(Request::U(UApci { function }))
        }
    }

    /// The request that sends an ASDU.
    pub fn send_asdu(&self, asdu: Asdu) -> (r: Result<Request, Error>)
        ensures
            r == self.admitted(asdu, Priority::High),
    {
        self.admit_asdu(asdu, Priority::High)
    }

    /// The request that sends an ASDU which others may overtake or replace.
    pub fn send_asdu_low_priority(&self, asdu: Asdu) -> (r: Result<Request, Error>)
        ensures
            r == self.admitted(asdu, Priority::Low),
    {
        self.admit_asdu(asdu, Priority::Low)
    }

    /// The request that starts data transfer.
    pub fn send_start_dt(&self) -> (r: Result<Request, Error>)
        ensures
            r == self.admitted_control(U_STARTDT_ACTIVE),
    {
        if !self.connected {
            return Err(Error::ErrUseClosedConnection);
        }
        Ok(Request::U(UApci { function: U_STARTDT_ACTIVE }))
    }

    /// The request that stops data transfer.
    pub fn send_stop_dt(&self) -> (r: Result<Request, Error>)
        ensures
            r == self.admitted_control(U_STOPDT_ACTIVE),
    {
        if !self.connected {
            return Err(Error::ErrUseClosedConnection);
        }
        Ok(Request::U(UApci { function: U_STOPDT_ACTIVE }))
    }
}

/// Whether a state settles that there is a connection (or that there will be
/// none); `None` where it is still to be waited for.
pub open spec fn settled(s: SessionLifecycleState) -> Option<bool> {
    if s is Handshaking || s is Inactive || s is Active {
        Some(true)
    } else if s is Closed || s is Failed {
        Some(false)
    } else {
        None
    }
}

/// Whether a state settles that there is a connection.
pub fn connection_settled(s: &SessionLifecycleState) -> (r: Option<bool>)
    ensures
        r == settled(*s),
{
    match s {
        SessionLifecycleState::Handshaking
        | SessionLifecycleState::Inactive
        | SessionLifecycleState::Active => Some(true),
        SessionLifecycleState::Closed | SessionLifecycleState::Failed(_) => Some(false),
        _ => None,
    }
}

/// Whether a state is the end of the session.
pub fn is_ended(s: &SessionLifecycleState) -> (r: bool)
    ensures
        r == (s is Closed || s is Failed),
{
    matches!(s, SessionLifecycleState::Closed | SessionLifecycleState::Failed(_))
}

/// How an attempt to establish the transport failed.
pub enum ConnectFailure {
    /// With this error.
    Refused(String),
    /// It took longer than it may.
    Elapsed,
}

/// The reason that is given for a failed attempt.
pub open spec fn failure_reason(f: ConnectFailure, timeout_ms: u64) -> Seq<char> {
    match f {
        ConnectFailure::Refused(e) => "connect failed: "@ + e@,
        ConnectFailure::Elapsed => "connect timeout after "@ + decimal(timeout_ms as nat)
            + " ms"@,
    }
}

/// The state of a session whose transport could not be established.
pub fn connect_failed(f: ConnectFailure, timeout_ms: u64) -> (r: SessionLifecycleState)
    ensures
        r matches SessionLifecycleState::Failed(why) && why@ == failure_reason(f, timeout_ms),
{
    match f {
        ConnectFailure::Refused(e) => {
            let why = text3("connect failed: ", e.as_str(), "");
            proof {
                reveal_strlit("");
                assert(why@ =~= "connect failed: "@ + e@);
            }
            SessionLifecycleState::Failed(why)
        },
        ConnectFailure::Elapsed => {
            let ms = decimal_text(timeout_ms);
            SessionLifecycleState::Failed(text3("connect timeout after ", ms.as_str(), " ms"))
        },
    }
}

/// The error of a client whose transport could not be established.
pub fn connect_error(f: ConnectFailure) -> (r: Error)
    ensures
        match f {
            ConnectFailure::Refused(e) => r == Error::Io(e),
            ConnectFailure::Elapsed => r is ErrConnectTimeout,
        },
{
    match f {
        ConnectFailure::Refused(e) => Error::Io(e),
        ConnectFailure::Elapsed => Error::ErrConnectTimeout,
    }
}

/// No ASDU is let through unless data transfer is started; one that is not is
/// answered by what is missing.
pub proof fn asdus_wait_for_activation(s: Session, asdu: Asdu, prio: Priority)
    ensures
        s.admitted(asdu, prio) is Ok <==> s.connected && s.lifecycle is Active,
        s.admitted(asdu, prio) matches Ok(q) ==> q == Request::I(asdu, prio),
        !s.connected ==> s.admitted(asdu, prio) == Err::<Request, Error>(
            Error::ErrUseClosedConnection,
        ),
        s.connected && !(s.lifecycle is Active) ==> s.admitted(asdu, prio) == Err::<
            Request,
            Error,
        >(Error::ErrNotActive),
{
}

} // verus!
