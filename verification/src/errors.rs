//! # Library errors (earlier layout)
//!
//! These errors are returned by the library's earlier top-level API. Errors of the `mavio` crate
//! are carried as they are, in the corresponding variants of [`Error`].

use std::sync::Arc;

use mavio::error::{FrameError, SpecError};
use vstd::prelude::*;

verus! {

/// Error of a non-blocking receive on a standard library channel, carried through unchanged.
#[verifier::external_type_specification]
#[verifier::external_body]
pub struct ExTryRecvError(std::sync::mpsc::TryRecvError);

/// `TryRecvError::clone` of the standard library: the type is `Copy`, so the copy equals the
/// original.
pub assume_specification[ <std::sync::mpsc::TryRecvError as Clone>::clone ](
    error: &std::sync::mpsc::TryRecvError,
) -> (copy: std::sync::mpsc::TryRecvError)
    ensures
        copy == *error,
;

/// All errors generated by the library.
#[derive(Clone, Debug)]
pub enum Error {
    /// [`std::io::Error`] wrapper.
    Io(Arc<std::io::Error>),
    /// Frame encoding/decoding error.
    Frame(FrameError),
    /// Message encoding/decoding and specification discovery error.
    Spec(SpecError),
    /// Node errors.
    Node(NodeError),
    /// Multi-threading errors.
    Sync(SyncError),
    /// Other errors.
    Other(String),
}

/// Library result type.
pub type Result<T> = core::result::Result<T, Error>;

/// Multi-threading errors.
#[derive(Clone, Debug)]
pub enum SyncError {
    /// Error while joining threads.
    ThreadJoin(String),
    /// Failed due to poisoned mutex.
    PoisonedMutex(String),
    /// Attempt to read or write into a closed MPSC/MPMC channel.
    ChannelClosed(String),
    /// Error during non-blocking read in MPSC/MPMC channels.
    TryRecv(std::sync::mpsc::TryRecvError),
}

/// Node errors.
#[derive(Clone, Debug, PartialEq, Eq)]
pub enum NodeError {
    /// Transport no longer active error.
    Inactive,
    /// Attempt to use a frame with message ID that can't be recognised by a dialect.
    NotInDialect(u32, &'static str),
}

impl vstd::std_specs::convert::FromSpecImpl<FrameError> for Error {
    open spec fn obeys_from_spec() -> bool {
        true
    }

    open spec fn from_spec(v: FrameError) -> Self {
        Error::Frame(v)
    }
}

impl From<FrameError> for Error {
    fn from(value: FrameError) -> (err: Self) {
        Error::Frame(value)
    }
}

impl vstd::std_specs::convert::FromSpecImpl<SpecError> for Error {
    open spec fn obeys_from_spec() -> bool {
        true
    }

    open spec fn from_spec(v: SpecError) -> Self {
        Error::Spec(v)
    }
}

impl From<SpecError> for Error {
    fn from(value: SpecError) -> (err: Self) {
        Error::Spec(value)
    }
}

impl vstd::std_specs::convert::FromSpecImpl<NodeError> for Error {
    open spec fn obeys_from_spec() -> bool {
        true
    }

    open spec fn from_spec(v: NodeError) -> Self {
        Error::Node(v)
    }
}

impl From<NodeError> for Error {
    fn from(value: NodeError) -> (err: Self) {
        Error::Node(value)
    }
}

impl vstd::std_specs::convert::FromSpecImpl<SyncError> for Error {
    open spec fn obeys_from_spec() -> bool {
        true
    }

    open spec fn from_spec(v: SyncError) -> Self {
        Error::Sync(v)
    }
}

impl From<SyncError> for Error {
    fn from(value: SyncError) -> (err: Self) {
        Error::Sync(value)
    }
}

impl vstd::std_specs::convert::FromSpecImpl<std::sync::mpsc::TryRecvError> for Error {
    open spec fn obeys_from_spec() -> bool {
        true
    }

    open spec fn from_spec(v: std::sync::mpsc::TryRecvError) -> Self {
        Error::Sync(SyncError::TryRecv(v))
    }
}

impl From<std::sync::mpsc::TryRecvError> for Error {
    fn from(value: std::sync::mpsc::TryRecvError) -> (err: Self) {
        Error::Sync(SyncError::TryRecv(value))
    }
}

impl vstd::std_specs::convert::FromSpecImpl<std::io::Error> for Error {
    open spec fn obeys_from_spec() -> bool {
        true
    }

    open spec fn from_spec(v: std::io::Error) -> Self {
        Error::Io(Arc::new(v))
    }
}

impl From<std::io::Error> for Error {
    fn from(value: std::io::Error) -> (err: Self) {
        Error::Io(Arc::new(value))
    }
}

} // verus!
