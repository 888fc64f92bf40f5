//! Error taxonomy of the simulation run.
//!
//! Every error is fatal to the whole run; none is retried. Variants that
//! concern a particular snapshot carry its one-based position in the
//! chronological snapshot stream, so that a failure report identifies the
//! snapshot in progress.

use vstd::prelude::*;

verus! {

/// The reasons a simulation run can fail.
#[derive(Clone, Copy, Debug, PartialEq, Eq, Structural)]
pub enum SimError {
    /// The configuration was rejected before any document was touched
    /// (end time not after start time, empty client population, or a
    /// fallback window that is not a positive duration fitting the clock).
    Configuration,
    /// A snapshot could not be loaded or parsed; carries the one-based
    /// position of the failing snapshot in the stream.
    Archive { snapshot: u64 },
    /// A snapshot was loaded but carries no validity timestamp; carries the
    /// one-based position of the offending snapshot.
    ConsensusIntegrity { snapshot: u64 },
    /// The circuit-construction service could not be built for the epoch of
    /// the given snapshot.
    Construction { snapshot: u64 },
    /// A client task failed while processing the epoch of the given snapshot.
    ClientProcessing { snapshot: u64 },
    /// The trace sink failed to flush or shut down.
    TraceIo,
    /// The progress-reporting side channel failed; treated as fatal and not
    /// classified further.
    Coordination,
}

} // verus!
