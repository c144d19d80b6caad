//! Structured errors: a kind and the context in which it arose.

use vstd::prelude::*;

verus! {

/// What went wrong, as the caller has to react to it.
#[derive(Debug, Clone, Copy, PartialEq, Eq, Structural)]
pub enum ErrorKind {
    /// The other side speaks of another resource or answers another exchange.
    /// Fatal to the connection or exchange.
    ProtocolMismatch,
    /// A frame with an unknown message id or with a length that its id does
    /// not allow. Fatal to the connection.
    MalformedMessage,
    /// No valid response arrived within the backoff window.
    Timeout,
    /// The tracker answered with a failure reason. Never retried.
    TrackerFailure,
    /// A piece did not hash to the recorded digest.
    IntegrityFailure,
    /// The transport failed: reset, refused, or a send that fell short.
    TransportFailure,
    /// A resource descriptor that describes no resource, or an address that
    /// names no tracker.
    InvalidInput,
    /// An operation that this library does not offer.
    Unsupported,
}

/// An error of this library.
#[derive(Debug, Clone, PartialEq, Eq)]
pub struct Error {
    pub kind: ErrorKind,
    pub context: String,
}

/// An error as a mathematical value.
pub struct ErrorView {
    pub kind: ErrorKind,
    pub context: Seq<char>,
}

impl View for Error {
    type V = ErrorView;

    open spec fn view(&self) -> ErrorView {
        ErrorView { kind: self.kind, context: self.context@ }
    }
}

impl Error {
    /// An error of the given kind with a fixed message as context.
    pub fn new(kind: ErrorKind, context: &str) -> (e: Error)
        ensures
            e.kind == kind,
            e.context@ == context@,
    {
        Error { kind, context: context.to_owned() }
    }

    /// The error as one line: the kind's name, a colon, and the context.
    pub fn message(&self) -> (s: String)
        ensures
            s@ == kind_name(self.kind) + ": "@ + self.context@,
    {
        let mut s = kind_label(self.kind).to_owned();
        s.append(": ");
        s.append(self.context.as_str());
        s
    }
}

/// The name under which a kind appears in messages.
pub open spec fn kind_name(kind: ErrorKind) -> Seq<char> {
    match kind {
        ErrorKind::ProtocolMismatch => "protocol mismatch"@,
        ErrorKind::MalformedMessage => "malformed message"@,
        ErrorKind::Timeout => "timeout"@,
        ErrorKind::TrackerFailure => "tracker failure"@,
        ErrorKind::IntegrityFailure => "integrity failure"@,
        ErrorKind::TransportFailure => "transport failure"@,
        ErrorKind::InvalidInput => "invalid input"@,
        ErrorKind::Unsupported => "unsupported"@,
    }
}

/// The name of a kind.
pub fn kind_label(kind: ErrorKind) -> (s: &'static str)
    ensures
        s@ == kind_name(kind),
{
    match kind {
        ErrorKind::ProtocolMismatch => "protocol mismatch",
        ErrorKind::MalformedMessage => "malformed message",
        ErrorKind::Timeout => "timeout",
        ErrorKind::TrackerFailure => "tracker failure",
        ErrorKind::IntegrityFailure => "integrity failure",
        ErrorKind::TransportFailure => "transport failure",
        ErrorKind::InvalidInput => "invalid input",
        ErrorKind::Unsupported => "unsupported",
    }
}

} // verus!
