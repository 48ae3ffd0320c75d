//! MC protocol errors.

use crate::text::{hex16, hex16_text, message, parts_text};
use vstd::prelude::*;
use vstd::string::*;

verus! {

/// MC protocol error type.
#[derive(Debug, Clone)]
pub enum Error {
    /// Underlying I/O error from the transport, as text.
    Io(String),
    /// Request timed out at the session layer.
    RequestTimeout,
    /// Frame-level validation failed (e.g. header length mismatch).
    InvalidFrame,
    /// Protocol contract violated (e.g. reserved/invalid field values).
    ProtocolViolation { context: &'static str },
    /// Encode error for wire-format serialization failures.
    Encode { context: &'static str },
    /// Decode error for wire-format parsing failures that are not purely I/O.
    Decode { context: &'static str },
    /// Feature or command is recognised but not implemented by this driver.
    UnsupportedFeature { feature: &'static str },
    /// A PLC responded with a non-zero completion code.
    EndCode { code: u16 },
}

/// The text of an error.
pub open spec fn error_text(e: Error) -> Seq<char> {
    match e {
        Error::Io(why) => "I/O error: "@ + why@,
        Error::RequestTimeout => "request timeout"@,
        Error::InvalidFrame => "invalid frame"@,
        Error::ProtocolViolation { context } => "protocol violation: "@ + context@,
        Error::Encode { context } => "encode error: "@ + context@,
        Error::Decode { context } => "decode error: "@ + context@,
        Error::UnsupportedFeature { feature } => "unsupported feature: "@ + feature@,
        Error::EndCode { code } => "MC end_code error: "@ + hex16(code),
    }
}

fn two(a: &str, b: &str) -> (r: String)
    ensures
        r@ == a@ + b@,
{
    let r = message(&[a, b]);
    proof {
        reveal_with_fuel(parts_text, 3);
        assert(r@ =~= a@ + b@);
    }
    r
}

impl Error {
    /// The text of the error.
    pub fn message(&self) -> (r: String)
        ensures
            r@ == error_text(*self),
    {
        match self {
            Error::Io(why) => two("I/O error: ", why.as_str()),
            Error::RequestTimeout => "request timeout".to_owned(),
            Error::InvalidFrame => "invalid frame".to_owned(),
            Error::ProtocolViolation { context } => two("protocol violation: ", context),
            Error::Encode { context } => two("encode error: ", context),
            Error::Decode { context } => two("decode error: ", context),
            Error::UnsupportedFeature { feature } => two("unsupported feature: ", feature),
            Error::EndCode { code } => two("MC end_code error: ", hex16_text(*code).as_str()),
        }
    }
}

/// Outcome of an exchange that brought no response.
#[derive(Debug, Clone)]
pub enum RequestFailure {
    /// No response came in time.
    TimedOut,
    /// The transport failed, as text.
    Io(String),
}

/// The error that a failed exchange is reported as.
pub open spec fn failure_error(f: RequestFailure) -> Error {
    match f {
        RequestFailure::TimedOut => Error::RequestTimeout,
        RequestFailure::Io(e) => Error::Io(e),
    }
}

/// The error that a failed exchange is reported as.
pub fn error_of_failure(f: RequestFailure) -> (r: Error)
    ensures
        r == failure_error(f),
{
    match f {
        RequestFailure::TimedOut => Error::RequestTimeout,
        RequestFailure::Io(e) => Error::Io(e),
    }
}

/// A protocol violation with this context.
pub open spec fn violates(e: Error, context: Seq<char>) -> bool {
    e matches Error::ProtocolViolation { context: c } && c@ == context
}

} // verus!
