//! Middleware that fails requests that take too long.

use std::time::Duration;
use vstd::prelude::*;

use crate::error::{Error, ErrorView};

verus! {

/// Fails a request with `504 Gateway Timeout` when the rest of the chain
/// does not respond within a duration.
#[derive(Debug)]
pub struct Timeout {
    duration: Duration,
}

/// A timeout middleware with the given duration.
pub fn timeout(duration: Duration) -> (r: Timeout)
    ensures
        r.spec_duration() == duration,
{
    Timeout { duration }
}

/// The error of a request that timed out.
pub open spec fn timed_out_view() -> ErrorView {
    ErrorView { as_json: false, status: 504, error: "Gateway timeout."@, message: None }
}

impl Timeout {
    /// The time the rest of the chain has to respond.
    pub closed spec fn spec_duration(&self) -> Duration {
        self.duration
    }

    /// The time the rest of the chain has to respond.
    pub fn duration(&self) -> (r: Duration)
        ensures
            r == self.spec_duration(),
    {
        self.duration
    }

    /// The error that a request gets once its time is up.
    pub fn elapsed(&self) -> (r: Error)
        ensures
            r.view() == timed_out_view(),
    {
        Error::gateway_timeout("Gateway timeout.".to_string())
    }
}

} // verus!
