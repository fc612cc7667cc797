//! # Common constants
//!
//! The default heartbeat timing is built by `Duration::from_millis`, so it is given by functions.

use std::time::Duration;

use vstd::prelude::*;

verus! {

/// The duration that `Duration::from_millis` builds from a number of milliseconds.
pub uninterp spec fn millis(ms: u64) -> Duration;

/// `Duration::from_millis`: a duration of `ms` milliseconds. It only splits the number into
/// seconds and nanoseconds and never panics, so its result depends on `ms` alone and is named
/// by [`millis`].
#[verifier::external_body]
fn duration_from_millis(ms: u64) -> (duration: Duration)
    ensures
        duration == millis(ms),
{
    Duration::from_millis(ms)
}

/// Default heartbeat timeout: 1200 milliseconds.
pub fn default_heartbeat_timeout() -> (timeout: Duration)
    ensures
        timeout == millis(1200),
{
    duration_from_millis(1200)
}

/// Default heartbeat interval: 1000 milliseconds.
pub fn default_heartbeat_interval() -> (interval: Duration)
    ensures
        interval == millis(1000),
{
    duration_from_millis(1000)
}

} // verus!
