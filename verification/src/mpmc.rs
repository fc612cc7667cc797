//! Outcomes of receiving from a multiple producers / multiple consumers broadcast channel.

use vstd::prelude::*;

use crate::error::RecvTimeoutError;

verus! {

/// What a receive on a broadcast channel, bounded by a timeout, observed.
pub enum RecvOutcome<T> {
    /// A value was received.
    Received(T),
    /// The receiver lagged behind and skipped this many values.
    Lagged(u64),
    /// All senders are gone.
    Closed,
    /// The timeout elapsed first.
    TimedOut,
}

/// Result a receive with a timeout gives for what it observed.
pub open spec fn recv_timeout_spec<T>(outcome: RecvOutcome<T>) -> Result<T, RecvTimeoutError> {
    match outcome {
        RecvOutcome::Received(value) => Ok(value),
        RecvOutcome::Lagged(n) => Err(RecvTimeoutError::Lagged(n)),
        RecvOutcome::Closed => Err(RecvTimeoutError::Disconnected),
        RecvOutcome::TimedOut => Err(RecvTimeoutError::Timeout),
    }
}

/// Turns what a receive with a timeout observed into its result: the received value, or the
/// error that stands for the failure.
pub fn recv_timeout_result<T>(outcome: RecvOutcome<T>) -> (result: Result<T, RecvTimeoutError>)
    ensures
        result == recv_timeout_spec(outcome),
{
    match outcome {
        RecvOutcome::Received(value) => Ok(value),
        RecvOutcome::Lagged(n) => Err(RecvTimeoutError::Lagged(n)),
        RecvOutcome::Closed => Err(RecvTimeoutError::Disconnected),
        RecvOutcome::TimedOut => Err(RecvTimeoutError::Timeout),
    }
}

} // verus!
