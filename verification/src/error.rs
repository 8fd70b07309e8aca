//! The errors that the adapter's operations return, and the classification
//! of the errors that the HTTP engine raises.

use vstd::prelude::*;

verus! {

/// What went wrong in an operation of the adapter.
#[derive(Clone, Copy, Debug, PartialEq, Eq, Structural)]
pub enum HttpError {
    /// No resource under the handle, one of another type, or one whose
    /// connection is gone.
    BadResource,
    /// A required buffer argument is absent.
    NullBuffer,
    /// The engine no longer waits for the response: the peer is gone.
    Communication,
    /// The resource's cancel token fired during the operation.
    Cancelled,
    /// The transport failed.
    Transport,
    /// Another operation holds the resource.
    Busy,
    /// The status or a header of a response is not fit for the wire.
    InvalidHead,
    /// The `Host` header that the URL needs is not text.
    HostNotText,
}

/// The kind of an I/O error.
#[derive(Clone, Copy, Debug, PartialEq, Eq, Structural)]
pub enum IoErrorKind {
    NotConnected,
    ConnectionReset,
    ConnectionAborted,
    BrokenPipe,
    UnexpectedEof,
    TimedOut,
    Other,
}

/// One link of an error's chain of sources.
#[derive(Clone, Copy, Debug, PartialEq, Eq, Structural)]
pub enum Cause {
    /// An I/O error of the given kind.
    Io(IoErrorKind),
    /// Any other error.
    Other,
}

/// An error that the HTTP engine raised while it drove a connection: its
/// chain of sources, the direct source first.
#[derive(Clone, Debug, PartialEq, Eq)]
pub struct EngineError {
    pub sources: Vec<Cause>,
}

/// Whether a link is an I/O error that says the peer is not connected.
pub open spec fn is_hangup(cause: Cause) -> bool {
    cause == Cause::Io(IoErrorKind::NotConnected)
}

/// Whether an engine error is a benign hangup of the peer: its chain of
/// sources holds an I/O error of kind `NotConnected`.
pub open spec fn is_benign(sources: Seq<Cause>) -> bool {
    exists|i: int| 0 <= i < sources.len() && is_hangup(#[trigger] sources[i])
}

/// Whether an engine error is the normal end of a connection, which
/// `next-request` reports as end of stream and not as an error.
pub fn should_ignore_error(e: &EngineError) -> (ignore: bool)
    ensures
        ignore == is_benign(e.sources@),
{
    let mut i: usize = 0;
    while i < e.sources.len()
        invariant
            0 <= i <= e.sources@.len(),
            forall|j: int| 0 <= j < i ==> !is_hangup(#[trigger] e.sources@[j]),
        decreases e.sources@.len() - i,
    {
        match e.sources[i] {
            Cause::Io(IoErrorKind::NotConnected) => {
                return true;
            },
            _ => {},
        }
        i += 1;
    }
    false
}

impl HttpError {
    /// The message that the host sees for the error.
    pub fn message(&self) -> (text: &'static str)
        ensures
            text@ == self.message_text(),
    {
        match self {
            HttpError::BadResource => "Bad resource ID",
            HttpError::NullBuffer => "expected non-null op buffer arg",
            HttpError::Communication => "internal communication error",
            HttpError::Cancelled => "operation canceled",
            HttpError::Transport => "connection error",
            HttpError::Busy => "resource is busy",
            HttpError::InvalidHead => "invalid response head",
            HttpError::HostNotText => "failed to convert header to a str",
        }
    }

    /// The message of each error.
    pub open spec fn message_text(&self) -> Seq<char> {
        match self {
            HttpError::BadResource => "Bad resource ID"@,
            HttpError::NullBuffer => "expected non-null op buffer arg"@,
            HttpError::Communication => "internal communication error"@,
            HttpError::Cancelled => "operation canceled"@,
            HttpError::Transport => "connection error"@,
            HttpError::Busy => "resource is busy"@,
            HttpError::InvalidHead => "invalid response head"@,
            HttpError::HostNotText => "failed to convert header to a str"@,
        }
    }
}

} // verus!
