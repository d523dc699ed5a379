//! The errors that the stores make themselves, beside those they hand on.
use vstd::prelude::*;

verus! {

/// The kinds of error that the stores make, named as in `std::io::ErrorKind`.
#[derive(Debug, Clone, Copy, PartialEq, Eq, Structural)]
pub enum ErrorKind {
    InvalidData,
    Other,
}

/// Why a change of a shared store failed.
#[derive(Debug)]
pub enum SyncError<E> {
    /// The file could not be written; the cause is handed on as it came.
    Io(E),
    /// The lock on the data is poisoned; the text is the lock's own message.
    Poisoned(String),
}

impl<E> SyncError<E> {
    /// The kind under which the error is reported, where it is not handed on.
    pub open spec fn spec_kind(self) -> Option<ErrorKind> {
        match self {
            SyncError::Io(_) => None,
            SyncError::Poisoned(_) => Some(ErrorKind::InvalidData),
        }
    }

    /// The kind under which the error is reported, where it is not handed on.
    pub fn kind(&self) -> (kind: Option<ErrorKind>)
        ensures
            kind == self.spec_kind(),
    {
        match self {
            SyncError::Io(_) => None,
            SyncError::Poisoned(_) => Some(ErrorKind::InvalidData),
        }
    }
}

/// A listener could not be set up.
#[derive(Debug)]
pub struct WatchError<N> {
    /// What the file watcher reported.
    pub cause: N,
}

impl<N> WatchError<N> {
    /// The kind under which the error is reported.
    pub fn kind(&self) -> (kind: ErrorKind)
        ensures
            kind == ErrorKind::Other,
    {
        ErrorKind::Other
    }
}

} // verus!
