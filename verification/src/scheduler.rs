//! The epoch scheduler: the sequential state machine that walks the
//! chronological snapshot stream, derives each epoch's window by the
//! one-element-lookahead rule, accumulates the exit-identifier registry,
//! and enforces global sequencing and fail-fast error propagation.
//!
//! The scheduler is driven event by event. The surrounding driver owns the
//! snapshot stream and its one-item lookahead buffer, loads each snapshot,
//! and for each one either opens an epoch ([`Scheduler::begin_epoch`]) or
//! records the load failure ([`Scheduler::record_load_failure`]); inside an
//! epoch it registers the (post-adversary) snapshot's exit relays, runs the
//! parallel fan-out, and closes the epoch ([`Scheduler::complete_epoch`]).
//! Every recorded failure is fatal: an aborted scheduler consumes nothing
//! further, so snapshots after a failing one are never attempted.

use vstd::prelude::*;
use crate::config::SimConfig;
use crate::epoch::{Epoch, epoch_end, spec_epoch_end};
use crate::errors::SimError;
use crate::model::{Relay, Snapshot};
use crate::registry::{ExitIdRegistry, register_relays};

verus! {

/// Where a run stands.
#[derive(Clone, Copy, Debug, PartialEq, Eq, Structural)]
pub enum Phase {
    /// Between epochs: the next event is a snapshot load, or exhaustion.
    Idle,
    /// An epoch is open: its window is derived and recorded.
    InEpoch,
    /// A fatal error was recorded; nothing further is consumed.
    Aborted,
    /// The stream was exhausted with every epoch completed.
    Finished,
}

/// The scheduler's state across a run.
pub struct Scheduler {
    /// The validated run configuration.
    pub config: SimConfig,
    /// The cross-epoch exit-identifier registry.
    pub registry: ExitIdRegistry,
    /// The windows of the epochs opened so far, in chronological order.
    pub epochs: Vec<Epoch>,
    /// How many epochs were completed (fan-out finished without error).
    pub completed: u64,
    /// How many snapshots were consumed from the stream (one-based ids).
    pub consumed: u64,
    /// The validity timestamp the previous epoch's lookahead saw, owed by
    /// the next consumed snapshot.
    pub expected_start: Option<i64>,
    /// Where the run stands.
    pub phase: Phase,
    /// The fatal error, exactly when the run is aborted.
    pub fault: Option<SimError>,
}

impl Scheduler {
    /// The scheduler's invariant: the configuration is valid, the registry
    /// well formed, every opened epoch is a non-empty window clamped to the
    /// global end, consecutive epochs are contiguous, and the lookahead
    /// value matches the last epoch's end before clamping.
    pub open spec fn wf(self) -> bool {
        &&& self.config.wf()
        &&& self.registry.wf()
        &&& forall|i: int|
            0 <= i < self.epochs@.len() ==> (#[trigger] self.epochs@[i]).range_start
                < self.epochs@[i].range_end && self.epochs@[i].range_end <= self.config.end_time
        &&& forall|i: int|
            0 <= i && i + 1 < self.epochs@.len() ==> (#[trigger] self.epochs@[i]).range_end
                == self.epochs@[i + 1].range_start
        &&& self.completed <= self.epochs@.len()
        &&& (self.phase == Phase::InEpoch ==> self.completed < self.epochs@.len())
        &&& (match self.expected_start {
            Some(e) => self.epochs@.len() > 0 && self.epochs@.last().range_end == (if e
                < self.config.end_time {
                e as int
            } else {
                self.config.end_time as int
            }),
            None => true,
        })
        &&& (self.fault is Some <==> self.phase == Phase::Aborted)
    }

    /// Creates a scheduler for a validated configuration: empty registry,
    /// no epochs, nothing consumed.
    pub fn new(config: SimConfig) -> (s: Scheduler)
        requires
            config.wf(),
        ensures
            s.wf(),
            s.config == config,
            s.registry@.len() == 0,
            s.epochs@.len() == 0,
            s.completed == 0,
            s.consumed == 0,
            s.expected_start is None,
            s.phase == Phase::Idle,
            s.fault is None,
    {
        Scheduler {
            config,
            registry: ExitIdRegistry::new(),
            epochs: Vec::new(),
            completed: 0,
            consumed: 0,
            expected_start: None,
            phase: Phase::Idle,
            fault: None,
        }
    }

    /// Consumes the current snapshot and opens its epoch: the window starts
    /// at the snapshot's validity timestamp and ends by the peek rule.
    /// `peek_valid_after` is the next snapshot's validity timestamp if that
    /// snapshot loaded successfully and carries one — an error in a peeked
    /// snapshot is deferred until it is itself consumed. A snapshot without
    /// a validity timestamp aborts the run with an error naming it.
    ///
    /// The driver owes chronological order: a consumed timestamp equals the
    /// one its predecessor's lookahead saw, lies before the global end, and
    /// precedes the peeked one.
    pub fn begin_epoch(&mut self, snapshot: &Snapshot, peek_valid_after: Option<i64>) -> (r:
        Result<Epoch, SimError>)
        requires
            old(self).wf(),
            old(self).phase == Phase::Idle,
            old(self).consumed < u64::MAX,
            match snapshot.valid_after {
                Some(t) => {
                    &&& t < old(self).config.end_time
                    &&& (match old(self).expected_start {
                        Some(e) => t == e,
                        None => old(self).epochs@.len() == 0,
                    })
                    &&& (match peek_valid_after {
                        Some(p) => t < p,
                        None => true,
                    })
                },
                None => true,
            },
        ensures
            final(self).wf(),
            final(self).config == old(self).config,
            final(self).registry == old(self).registry,
            final(self).completed == old(self).completed,
            final(self).consumed == old(self).consumed + 1,
            match snapshot.valid_after {
                None => {
                    &&& r == Err::<Epoch, SimError>(
                        (SimError::ConsensusIntegrity { snapshot: (old(self).consumed + 1) as u64 }),
                    )
                    &&& final(self).phase == Phase::Aborted
                    &&& final(self).epochs == old(self).epochs
                },
                Some(t) => ({
                    let ep = (Epoch {
                        range_start: t,
                        range_end: spec_epoch_end(
                            t,
                            peek_valid_after,
                            old(self).config.end_time,
                            old(self).config.fallback_secs,
                        ) as i64,
                    });
                    &&& r == Ok::<Epoch, SimError>(ep)
                    &&& ep.range_start < ep.range_end <= old(self).config.end_time
                    &&& final(self).epochs@ == old(self).epochs@.push(ep)
                    &&& final(self).phase == Phase::InEpoch
                    &&& final(self).expected_start == peek_valid_after
                }),
            },
    {
        self.consumed = self.consumed + 1;
        match snapshot.valid_after {
            None => {
                let e = SimError::ConsensusIntegrity { snapshot: self.consumed };
                self.phase = Phase::Aborted;
                self.fault = Some(e);
                Err(e)
            },
            Some(t) => {
                let end = epoch_end(
                    t,
                    peek_valid_after,
                    self.config.end_time,
                    self.config.fallback_secs,
                );
                let ep = Epoch { range_start: t, range_end: end };
                self.epochs.push(ep);
                self.expected_start = peek_valid_after;
                self.phase = Phase::InEpoch;
                proof {
                    let es = self.epochs@;
                    let n = es.len() - 1;
                    assert forall|i: int| 0 <= i && i + 1 < es.len() implies (#[trigger] es[i]).range_end
                        == es[i + 1].range_start by {
                        if i + 1 < n {
                            assert(old(self).epochs@[i].range_end == old(
                                self,
                            ).epochs@[i + 1].range_start);
                        } else {
                            assert(es[i] == old(self).epochs@.last());
                        }
                    }
                }
                Ok(ep)
            },
        }
    }

    /// Records that the current snapshot failed to load or parse: the run
    /// aborts with an error naming that snapshot, and later snapshots are
    /// never consumed.
    pub fn record_load_failure(&mut self) -> (e: SimError)
        requires
            old(self).wf(),
            old(self).phase == Phase::Idle,
            old(self).consumed < u64::MAX,
        ensures
            final(self).wf(),
            e == (SimError::Archive { snapshot: (old(self).consumed + 1) as u64 }),
            final(self).phase == Phase::Aborted,
            final(self).fault == Some(e),
            final(self).config == old(self).config,
            final(self).registry == old(self).registry,
            final(self).epochs == old(self).epochs,
            final(self).completed == old(self).completed,
            final(self).consumed == old(self).consumed + 1,
    {
        self.consumed = self.consumed + 1;
        let e = SimError::Archive { snapshot: self.consumed };
        self.phase = Phase::Aborted;
        self.fault = Some(e);
        e
    }

    /// Registers the exit-flagged relays of the open epoch's snapshot into
    /// the exit-identifier registry. The snapshot handed in is the
    /// post-adversary one: adversary-injected exits receive stable ids too.
    /// New ids are assigned only to fingerprints not already known, and
    /// every previously assigned id is unchanged.
    pub fn register_exits(&mut self, relays: &Vec<Relay>)
        requires
            old(self).wf(),
            old(self).phase == Phase::InEpoch,
        ensures
            final(self).wf(),
            final(self).registry@ == register_relays(old(self).registry@, relays@),
            old(self).registry@.len() <= final(self).registry@.len(),
            forall|i: int|
                0 <= i < old(self).registry@.len() ==> final(self).registry@[i] == old(
                    self,
                ).registry@[i],
            final(self).config == old(self).config,
            final(self).epochs == old(self).epochs,
            final(self).completed == old(self).completed,
            final(self).consumed == old(self).consumed,
            final(self).expected_start == old(self).expected_start,
            final(self).phase == old(self).phase,
            final(self).fault == old(self).fault,
    {
        self.registry.add_snapshot(relays);
    }

    /// Records that the circuit-construction service could not be built
    /// for the open epoch: the run aborts naming the epoch's snapshot.
    pub fn record_construction_failure(&mut self) -> (e: SimError)
        requires
            old(self).wf(),
            old(self).phase == Phase::InEpoch,
        ensures
            final(self).wf(),
            e == (SimError::Construction { snapshot: old(self).consumed }),
            final(self).phase == Phase::Aborted,
            final(self).fault == Some(e),
            final(self).config == old(self).config,
            final(self).registry == old(self).registry,
            final(self).epochs == old(self).epochs,
            final(self).completed == old(self).completed,
            final(self).consumed == old(self).consumed,
    {
        let e = SimError::Construction { snapshot: self.consumed };
        self.phase = Phase::Aborted;
        self.fault = Some(e);
        e
    }

    /// Records that the progress side channel failed while the epoch was
    /// open: treated as fatal and not classified further.
    pub fn record_coordination_failure(&mut self) -> (e: SimError)
        requires
            old(self).wf(),
            old(self).phase == Phase::InEpoch,
        ensures
            final(self).wf(),
            e == SimError::Coordination,
            final(self).phase == Phase::Aborted,
            final(self).fault == Some(e),
            final(self).config == old(self).config,
            final(self).registry == old(self).registry,
            final(self).epochs == old(self).epochs,
            final(self).completed == old(self).completed,
            final(self).consumed == old(self).consumed,
    {
        let e = SimError::Coordination;
        self.phase = Phase::Aborted;
        self.fault = Some(e);
        e
    }

    /// Closes the open epoch once the parallel fan-out has been joined and
    /// the progress task stopped: success counts the epoch as completed; a
    /// propagated client error aborts the run naming the epoch's snapshot.
    pub fn complete_epoch(&mut self, client_error: bool) -> (r: Result<(), SimError>)
        requires
            old(self).wf(),
            old(self).phase == Phase::InEpoch,
            old(self).completed < u64::MAX,
        ensures
            final(self).wf(),
            final(self).config == old(self).config,
            final(self).registry == old(self).registry,
            final(self).epochs == old(self).epochs,
            final(self).consumed == old(self).consumed,
            final(self).expected_start == old(self).expected_start,
            !client_error ==> {
                &&& r == Ok::<(), SimError>(())
                &&& final(self).phase == Phase::Idle
                &&& final(self).completed == old(self).completed + 1
                &&& final(self).fault is None
            },
            client_error ==> {
                &&& r == Err::<(), SimError>(
                    (SimError::ClientProcessing { snapshot: old(self).consumed }),
                )
                &&& final(self).phase == Phase::Aborted
                &&& final(self).completed == old(self).completed
            },
    {
        if client_error {
            let e = SimError::ClientProcessing { snapshot: self.consumed };
            self.phase = Phase::Aborted;
            self.fault = Some(e);
            Err(e)
        } else {
            self.completed = self.completed + 1;
            self.phase = Phase::Idle;
            Ok(())
        }
    }

    /// Marks the run finished once the snapshot stream is exhausted with no
    /// epoch open: the run returns success only through this state.
    pub fn finish(&mut self)
        requires
            old(self).wf(),
            old(self).phase == Phase::Idle,
        ensures
            final(self).wf(),
            final(self).phase == Phase::Finished,
            final(self).config == old(self).config,
            final(self).registry == old(self).registry,
            final(self).epochs == old(self).epochs,
            final(self).completed == old(self).completed,
            final(self).consumed == old(self).consumed,
            final(self).fault is None,
    {
        self.phase = Phase::Finished;
    }

    /// Records that the trace sink failed to flush or shut down at the end
    /// of the run: the run aborts.
    pub fn record_trace_failure(&mut self) -> (e: SimError)
        requires
            old(self).wf(),
            old(self).phase != Phase::Aborted,
            old(self).phase != Phase::InEpoch,
        ensures
            final(self).wf(),
            e == SimError::TraceIo,
            final(self).phase == Phase::Aborted,
            final(self).fault == Some(e),
            final(self).config == old(self).config,
            final(self).registry == old(self).registry,
            final(self).epochs == old(self).epochs,
            final(self).completed == old(self).completed,
            final(self).consumed == old(self).consumed,
    {
        let e = SimError::TraceIo;
        self.phase = Phase::Aborted;
        self.fault = Some(e);
        e
    }
}

/// Law: the epochs a run processes are contiguous and non-overlapping —
/// each epoch is a non-empty window ending exactly where the next begins,
/// and no window passes the global end time; clamping to the global end can
/// only shorten the final epoch.
pub proof fn lemma_epochs_contiguous(s: Scheduler, i: int)
    requires
        s.wf(),
        0 <= i,
        i + 1 < s.epochs@.len(),
    ensures
        s.epochs@[i].range_end == s.epochs@[i + 1].range_start,
        s.epochs@[i].range_start < s.epochs@[i].range_end,
        s.epochs@[i + 1].range_start < s.epochs@[i + 1].range_end,
        s.epochs@[i + 1].range_end <= s.config.end_time,
{
}

} // verus!
