//! The error type surfaced by the broadcaster.

use vstd::prelude::*;

verus! {

/// The kinds of errors that the broadcaster can report.
#[derive(Debug, Copy, Clone, PartialEq, Eq, Structural)]
pub enum ErrorKind {
    /// An underlying channel refused an event: that consumer is gone. Handled
    /// internally by reclaiming the consumer's slot and rarely surfaced.
    SendError,
    /// The broadcaster is already closed: no new subscription is accepted.
    Closed,
}

/// An error from the broadcaster. Match on [`Error::kind`] to see which kind
/// of error happened.
#[derive(Debug, Copy, Clone, PartialEq, Eq, Structural)]
pub struct Error {
    pub(crate) kind: ErrorKind,
}

impl View for Error {
    type V = ErrorKind;

    /// An error is, for specification purposes, just its kind.
    closed spec fn view(&self) -> ErrorKind {
        self.kind
    }
}

impl Error {
    /// The error of the given kind, as a specification-level value.
    pub closed spec fn of_kind(kind: ErrorKind) -> Error {
        Error { kind }
    }

    /// The kind of error that happened.
    pub fn kind(&self) -> (k: &ErrorKind)
        ensures
            *k == self@,
    {
        &self.kind
    }
}

/// An error built from a kind reports exactly that kind.
pub broadcast proof fn lemma_of_kind(kind: ErrorKind)
    ensures
        (#[trigger] Error::of_kind(kind))@ == kind,
{
}

impl From<ErrorKind> for Error {
    fn from(kind: ErrorKind) -> (e: Error) {
        Error { kind }
    }
}

impl vstd::std_specs::convert::FromSpecImpl<ErrorKind> for Error {
    open spec fn obeys_from_spec() -> bool {
        true
    }

    open spec fn from_spec(kind: ErrorKind) -> Error {
        Error::of_kind(kind)
    }
}

} // verus!
