//! # Core errors
//!
//! The top-level error is [`Error`]. Errors of the `mavio` crate are carried as they are, in the
//! corresponding variants of [`Error`].

use std::sync::Arc;

use mavio::error::{FrameError, SpecError};
use vstd::prelude::*;

verus! {

/// I/O error of the standard library, carried through unchanged.
#[verifier::external_type_specification]
#[verifier::external_body]
pub struct ExIoError(std::io::Error);

/// Frame encoding/decoding error of the `mavio` crate, carried through unchanged.
#[verifier::external_type_specification]
#[verifier::external_body]
pub struct ExFrameError(FrameError);

/// Message specification error of the `mavio` crate, carried through unchanged.
#[verifier::external_type_specification]
#[verifier::external_body]
pub struct ExSpecError(SpecError);

/// `FrameError::clone` (derived by `mavio`): every field is copied, so the copy equals the
/// original.
pub assume_specification[ <FrameError as Clone>::clone ](error: &FrameError) -> (copy: FrameError)
    ensures
        copy == *error,
;

/// `SpecError::clone` (derived by `mavspec`): every field is copied, so the copy equals the
/// original.
pub assume_specification[ <SpecError as Clone>::clone ](error: &SpecError) -> (copy: SpecError)
    ensures
        copy == *error,
;

/// MAVLink message `ID`.
pub type MessageId = u32;

/// All errors generated by the library.
#[derive(Clone, Debug)]
pub enum Error {
    /// [`std::io::Error`] wrapper.
    Io(Arc<std::io::Error>),
    /// Frame encoding/decoding error.
    Frame(FrameError),
    /// Message encoding/decoding and specification discovery error.
    Spec(SpecError),
    /// Node errors.
    Node(NodeError),
    /// Synchronisation errors.
    Sync(SyncError),
    /// Other errors.
    Other(String),
}

/// Library result type.
pub type Result<T> = core::result::Result<T, Error>;

/// Synchronisation errors.
#[derive(Clone, Debug, PartialEq, Eq)]
pub enum SyncError {
    /// Error while joining threads.
    ThreadJoin(String),
    /// Failed due to a poisoned mutex.
    PoisonedMutex(String),
    /// Attempt to read from an empty MPSC/MPMC channel.
    Empty,
    /// Attempt to read or write into a closed MPSC/MPMC channel.
    Disconnected,
    /// The receiver lagged too far behind. Attempting to receive again will
    /// return the oldest message still retained by the channel.
    ///
    /// Includes the number of skipped messages.
    Lagged(u64),
    /// This **channel** is currently empty, but the **Sender**(s) have not yet
    /// disconnected, so data may yet become available.
    Timeout,
}

/// Node errors.
#[derive(Clone, Debug, PartialEq, Eq)]
pub enum NodeError {
    /// Transport no longer active error.
    Inactive,
    /// Attempt to use a frame with message ID that can't be recognised by a dialect.
    NotInDialect(MessageId, &'static str),
}

/// Error that happens, when caller attempts to send message to a closed channel.
///
/// The error wraps the value, that failed to be sent.
pub struct SendError<T>(pub T);

/// Error that happens, when caller performs a blocking attempt to receive a message from a channel.
#[derive(Clone, Copy, Debug, PartialEq, Eq, Structural)]
pub enum RecvError {
    /// Channel is disconnected, no messages will be received.
    Disconnected,
    /// The receiver is far beyond the queue. Next request attempt will return the earliest possible
    /// message.
    Lagged(u64),
}

/// Error that happens, when caller performs attempts to receive a message from a channel within a
/// timeout.
#[derive(Clone, Copy, Debug, PartialEq, Eq, Structural)]
pub enum RecvTimeoutError {
    /// Channel is disconnected, no messages will be received.
    Disconnected,
    /// This **channel** is currently empty, but the **Sender**(s) have not yet
    /// disconnected, so data may yet become available.
    Timeout,
    /// The receiver is far beyond the queue. Next request attempt will return the earliest possible
    /// message.
    Lagged(u64),
}

/// Error that happens, when caller tries to receive a message from a channel.
#[derive(Clone, Copy, Debug, PartialEq, Eq, Structural)]
pub enum TryRecvError {
    /// Channel is empty.
    Empty,
    /// Channel is disconnected, no messages will be received.
    Disconnected,
    /// The receiver is far beyond the queue. Next request attempt will return the earliest possible
    /// message.
    Lagged(u64),
}

/// Synchronisation error a failed blocking receive stands for.
pub open spec fn recv_sync_error(value: RecvError) -> SyncError {
    match value {
        RecvError::Disconnected => SyncError::Disconnected,
        RecvError::Lagged(n) => SyncError::Lagged(n),
    }
}

/// Synchronisation error a failed receive with a timeout stands for.
pub open spec fn recv_timeout_sync_error(value: RecvTimeoutError) -> SyncError {
    match value {
        RecvTimeoutError::Disconnected => SyncError::Disconnected,
        RecvTimeoutError::Timeout => SyncError::Timeout,
        RecvTimeoutError::Lagged(n) => SyncError::Lagged(n),
    }
}

/// Synchronisation error a failed non-blocking receive stands for.
pub open spec fn try_recv_sync_error(value: TryRecvError) -> SyncError {
    match value {
        TryRecvError::Empty => SyncError::Empty,
        TryRecvError::Disconnected => SyncError::Disconnected,
        TryRecvError::Lagged(n) => SyncError::Lagged(n),
    }
}

impl vstd::std_specs::convert::FromSpecImpl<FrameError> for Error {
    open spec fn obeys_from_spec() -> bool {
        true
    }

    open spec fn from_spec(v: FrameError) -> Self {
        Error::Frame(v)
    }
}

impl From<FrameError> for Error {
    fn from(value: FrameError) -> (err: Self) {
        Error::Frame(value)
    }
}

impl vstd::std_specs::convert::FromSpecImpl<SpecError> for Error {
    open spec fn obeys_from_spec() -> bool {
        true
    }

    open spec fn from_spec(v: SpecError) -> Self {
        Error::Spec(v)
    }
}

impl From<SpecError> for Error {
    fn from(value: SpecError) -> (err: Self) {
        Error::Spec(value)
    }
}

impl vstd::std_specs::convert::FromSpecImpl<NodeError> for Error {
    open spec fn obeys_from_spec() -> bool {
        true
    }

    open spec fn from_spec(v: NodeError) -> Self {
        Error::Node(v)
    }
}

impl From<NodeError> for Error {
    fn from(value: NodeError) -> (err: Self) {
        Error::Node(value)
    }
}

impl vstd::std_specs::convert::FromSpecImpl<SyncError> for Error {
    open spec fn obeys_from_spec() -> bool {
        true
    }

    open spec fn from_spec(v: SyncError) -> Self {
        Error::Sync(v)
    }
}

impl From<SyncError> for Error {
    fn from(value: SyncError) -> (err: Self) {
        Error::Sync(value)
    }
}

impl vstd::std_specs::convert::FromSpecImpl<std::io::Error> for Error {
    open spec fn obeys_from_spec() -> bool {
        true
    }

    open spec fn from_spec(v: std::io::Error) -> Self {
        Error::Io(Arc::new(v))
    }
}

impl From<std::io::Error> for Error {
    fn from(value: std::io::Error) -> (err: Self) {
        Error::Io(Arc::new(value))
    }
}

impl<T> vstd::std_specs::convert::FromSpecImpl<SendError<T>> for Error {
    open spec fn obeys_from_spec() -> bool {
        true
    }

    open spec fn from_spec(v: SendError<T>) -> Self {
        Error::Sync(SyncError::Disconnected)
    }
}

impl<T> From<SendError<T>> for Error {
    fn from(value: SendError<T>) -> (err: Self) {
        Error::Sync(SyncError::Disconnected)
    }
}

impl vstd::std_specs::convert::FromSpecImpl<RecvError> for Error {
    open spec fn obeys_from_spec() -> bool {
        true
    }

    open spec fn from_spec(v: RecvError) -> Self {
        Error::Sync(recv_sync_error(v))
    }
}

impl From<RecvError> for Error {
    fn from(value: RecvError) -> (err: Self) {
        Error::Sync(
            match value {
                RecvError::Disconnected => SyncError::Disconnected,
                RecvError::Lagged(n) => SyncError::Lagged(n),
            },
        )
    }
}

impl vstd::std_specs::convert::FromSpecImpl<RecvTimeoutError> for Error {
    open spec fn obeys_from_spec() -> bool {
        true
    }

    open spec fn from_spec(v: RecvTimeoutError) -> Self {
        Error::Sync(recv_timeout_sync_error(v))
    }
}

impl From<RecvTimeoutError> for Error {
    fn from(value: RecvTimeoutError) -> (err: Self) {
        Error::Sync(
            match value {
                RecvTimeoutError::Disconnected => SyncError::Disconnected,
                RecvTimeoutError::Timeout => SyncError::Timeout,
                RecvTimeoutError::Lagged(n) => SyncError::Lagged(n),
            },
        )
    }
}

impl vstd::std_specs::convert::FromSpecImpl<TryRecvError> for Error {
    open spec fn obeys_from_spec() -> bool {
        true
    }

    open spec fn from_spec(v: TryRecvError) -> Self {
        Error::Sync(try_recv_sync_error(v))
    }
}

impl From<TryRecvError> for Error {
    fn from(value: TryRecvError) -> (err: Self) {
        Error::Sync(
            match value {
                TryRecvError::Empty => SyncError::Empty,
                TryRecvError::Disconnected => SyncError::Disconnected,
                TryRecvError::Lagged(n) => SyncError::Lagged(n),
            },
        )
    }
}

/// A blocking receive and a receive with a timeout that fail in the same way stand for the same
/// synchronisation error, and so does a non-blocking receive.
pub proof fn law_receive_errors_agree(n: u64)
    ensures
        recv_sync_error(RecvError::Disconnected) == recv_timeout_sync_error(
            RecvTimeoutError::Disconnected,
        ),
        recv_sync_error(RecvError::Disconnected) == try_recv_sync_error(
            TryRecvError::Disconnected,
        ),
        recv_sync_error(RecvError::Lagged(n)) == recv_timeout_sync_error(
            RecvTimeoutError::Lagged(n),
        ),
        recv_sync_error(RecvError::Lagged(n)) == try_recv_sync_error(TryRecvError::Lagged(n)),
{
}

} // verus!
