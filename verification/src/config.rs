//! Run configuration and its validation.
//!
//! Timestamps are seconds on a signed 64-bit clock; the simulated range is
//! the half-open interval `[start_time, end_time)`. Validation happens
//! before any snapshot is touched.

use vstd::prelude::*;
use crate::errors::SimError;

verus! {

/// Fallback epoch duration (three hours, in seconds) applied when no
/// subsequent snapshot announces the end of the current epoch. The policy
/// is configurable; this is its default.
pub const DEFAULT_FALLBACK_SECS: i64 = 10800;

/// A run configuration: the simulated time range, the client population
/// size, and the fallback epoch duration.
#[derive(Clone, Copy, Debug, PartialEq, Eq, Structural)]
pub struct SimConfig {
    /// Start of the simulated range, in seconds.
    pub start_time: i64,
    /// End of the simulated range, in seconds; every epoch is clamped to it.
    pub end_time: i64,
    /// Number of simulated clients; never zero in a valid configuration.
    pub num_clients: u64,
    /// Epoch duration used when no subsequent snapshot exists; positive.
    pub fallback_secs: i64,
}

impl SimConfig {
    /// A configuration is well formed when the time range is non-empty, the
    /// client population is non-empty, and the fallback duration is positive
    /// and cannot push an epoch end past the clock's range.
    pub open spec fn wf(self) -> bool {
        &&& self.start_time < self.end_time
        &&& self.num_clients > 0
        &&& 0 < self.fallback_secs
        &&& self.end_time + self.fallback_secs <= i64::MAX
    }

    /// Builds a configuration, rejecting an invalid one before any document
    /// is loaded: an end time not strictly after the start time, a client
    /// count of zero (which would make per-client rates meaningless), or a
    /// fallback duration that is not positive or does not fit the clock.
    pub fn new(start_time: i64, end_time: i64, num_clients: u64, fallback_secs: i64) -> (r:
        Result<SimConfig, SimError>)
        ensures
            ({
                let c = SimConfig { start_time, end_time, num_clients, fallback_secs };
                if c.wf() {
                    r == Ok::<SimConfig, SimError>(c)
                } else {
                    r == Err::<SimConfig, SimError>(SimError::Configuration)
                }
            }),
    {
        if start_time < end_time && num_clients > 0 && fallback_secs > 0 && end_time <= i64::MAX
            - fallback_secs {
            Ok(SimConfig { start_time, end_time, num_clients, fallback_secs })
        } else {
            Err(SimError::Configuration)
        }
    }
}

} // verus!
