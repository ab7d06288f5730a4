//! Outcome of a notification attempt and its interpretation.
//!
//! Sending the HTTP request is outside work; the embedding program performs
//! the round trip and reports what it observed as a [`SendOutcome`]. The
//! functions here decide, for every possible outcome, whether the
//! notification succeeded and which error it raised otherwise.

use vstd::prelude::*;

verus! {

/// A failure of the single outbound HTTP request, by kind.
#[derive(Clone, Copy, Debug, PartialEq, Eq, Structural)]
pub enum TransportError {
    /// The connection could not be established (refused, DNS failure, ...).
    Connect,
    /// The configured overall timeout elapsed before a response arrived.
    Timeout,
    /// A response arrived with a non-success HTTP status; the code is kept.
    Status(u16),
    /// The response arrived but its body could not be read.
    Decode,
}

/// The error `notify` reports: it wraps the underlying transport failure.
#[derive(Clone, Copy, Debug, PartialEq, Eq, Structural)]
pub struct NotifyError {
    pub cause: TransportError,
}

/// What the embedding program observed when it attempted the HTTP round
/// trip: either a response (status code and body text), or one of the ways
/// the attempt failed before a body was read.
#[derive(Debug)]
pub enum SendOutcome {
    Response { status: u16, body: String },
    ConnectFailed,
    TimedOut,
    DecodeFailed,
}

/// A status code counts as success exactly when it lies in the 2xx range.
pub open spec fn is_success_status(status: u16) -> bool {
    200 <= status < 300
}

/// The result a notification attempt with the given outcome must produce:
/// a 2xx response yields its body, any other response yields
/// `Status(code)`, and each failed attempt yields the error of its kind.
pub open spec fn send_verdict(outcome: SendOutcome) -> Result<Seq<char>, TransportError> {
    match outcome {
        SendOutcome::Response { status, body } => if is_success_status(status) {
            Ok(body@)
        } else {
            Err(TransportError::Status(status))
        },
        SendOutcome::ConnectFailed => Err(TransportError::Connect),
        SendOutcome::TimedOut => Err(TransportError::Timeout),
        SendOutcome::DecodeFailed => Err(TransportError::Decode),
    }
}

/// Classify one attempt: the single stateless decision of the notification
/// client. Success is owed exactly on a response with a 2xx status, and the
/// body is returned unchanged.
pub fn classify_outcome(outcome: SendOutcome) -> (r: Result<String, TransportError>)
    ensures
        match r {
            Ok(body) => send_verdict(outcome) == Ok::<Seq<char>, TransportError>(body@),
            Err(e) => send_verdict(outcome) == Err::<Seq<char>, TransportError>(e),
        },
{
    match outcome {
        SendOutcome::Response { status, body } => {
            if 200 <= status && status < 300 {
                Ok(body)
            } else {
                Err(TransportError::Status(status))
            }
        },
        SendOutcome::ConnectFailed => Err(TransportError::Connect),
        SendOutcome::TimedOut => Err(TransportError::Timeout),
        SendOutcome::DecodeFailed => Err(TransportError::Decode),
    }
}

} // verus!
