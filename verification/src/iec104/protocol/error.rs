//! Protocol errors.

use super::frame::asdu::{end_of_data, CauseOfTransmission, TypeID};
use crate::text::{text3, text5};
use vstd::prelude::*;

verus! {

/// Error of a protocol operation.
#[derive(Debug, Clone)]
pub enum Error {
    /// The transport failed, or a frame ended too early.
    Io(String),
    /// The transport could not be established in time.
    ErrConnectTimeout,
    /// The type does not match the call or the time tag.
    ErrTypeIDNotMatch(TypeID),
    /// The cause of transmission is not one that the call sends.
    ErrCmdCause(CauseOfTransmission),
    /// The frame is malformed.
    ErrInvalidFrame,
    /// The request could not be handed to the session.
    ErrSendRequest(String),
    /// The request was not handed over in time.
    ErrSendRequestTimeout,
    /// Handing the request over was cancelled.
    ErrSendRequestCancelled,
    /// There is no connection.
    ErrUseClosedConnection,
    /// Data transfer is not started.
    ErrNotActive,
    /// Any other error.
    ErrAnyHow(String),
}

/// The error of a frame that ends too early.
pub open spec fn is_end_of_data(e: Error) -> bool {
    e matches Error::Io(text) && text@ == end_of_data()
}

pub(crate) fn end_of_data_error() -> (r: Error)
    ensures
        is_end_of_data(r),
{
    Error::Io("failed to fill whole buffer".to_owned())
}

/// A truth value as text.
pub open spec fn truth(b: bool) -> Seq<char> {
    if b {
        "true"@
    } else {
        "false"@
    }
}

fn truth_text(b: bool) -> (r: &'static str)
    ensures
        r@ == truth(b),
{
    if b {
        "true"
    } else {
        "false"
    }
}

/// A cause of transmission as text.
pub open spec fn cause_text(c: CauseOfTransmission) -> Seq<char> {
    "CauseOfTransmission { test: "@ + truth(c.test) + ", positive: "@ + truth(c.positive)
        + ", cause: "@ + c.cause.name_spec() + " }"@
}

/// The text of an error.
pub open spec fn error_text(e: Error) -> Seq<char> {
    match e {
        Error::Io(why) => "I/O error: "@ + why@,
        Error::ErrConnectTimeout => "connect timeout"@,
        Error::ErrTypeIDNotMatch(t) => "asdu: [type identifier: "@ + t.name_spec()
            + "] doesn't match call or time tag"@,
        Error::ErrCmdCause(c) => "asdu: [cause of transmission: "@ + cause_text(c)
            + "] for command not standard requirement"@,
        Error::ErrInvalidFrame => "Invalid frame"@,
        Error::ErrSendRequest(why) => "SendError "@ + why@,
        Error::ErrSendRequestTimeout => "send request timed out"@,
        Error::ErrSendRequestCancelled => "send request cancelled"@,
        Error::ErrUseClosedConnection => ""@,
        Error::ErrNotActive => ""@,
        Error::ErrAnyHow(_) => "anyhow error"@,
    }
}

fn two(a: &str, b: &str) -> (r: String)
    ensures
        r@ == a@ + b@,
{
    let r = text3(a, b, "");
    proof {
        reveal_strlit("");
        assert(r@ =~= a@ + b@);
    }
    r
}

impl Error {
    /// The text of the error.
    pub fn message(&self) -> (r: String)
        ensures
            r@ == error_text(*self),
    {
        match self {
            Error::Io(why) => two("I/O error: ", why.as_str()),
            Error::ErrConnectTimeout => "connect timeout".to_owned(),
            Error::ErrTypeIDNotMatch(t) => text3(
                "asdu: [type identifier: ",
                t.name(),
                "] doesn't match call or time tag",
            ),
            Error::ErrCmdCause(c) => {
                let flags = text5(
                    "CauseOfTransmission { test: ",
                    truth_text(c.test),
                    ", positive: ",
                    truth_text(c.positive),
                    ", cause: ",
                );
                let cause = text3(flags.as_str(), c.cause.name(), " }");
                text3(
                    "asdu: [cause of transmission: ",
                    cause.as_str(),
                    "] for command not standard requirement",
                )
            },
            Error::ErrInvalidFrame => "Invalid frame".to_owned(),
            Error::ErrSendRequest(why) => two("SendError ", why.as_str()),
            Error::ErrSendRequestTimeout => "send request timed out".to_owned(),
            Error::ErrSendRequestCancelled => "send request cancelled".to_owned(),
            Error::ErrUseClosedConnection => "".to_owned(),
            Error::ErrNotActive => "".to_owned(),
            Error::ErrAnyHow(_) => "anyhow error".to_owned(),
        }
    }
}

} // verus!
