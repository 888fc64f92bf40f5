//! Decision logic of the progress reporter.
//!
//! A dedicated reporting task consumes boolean signals from the parallel
//! workers: `true` means one client finished its epoch work, `false` is the
//! stop sentinel the scheduler sends before joining the task. The reporter
//! logs a status line every `max(population / 1000, 1)`-th completion and
//! never before the first completion. The channel itself lives outside the
//! library; each received value is handed to [`ProgressReporter::on_signal`]
//! and the returned action performed.

use vstd::prelude::*;

verus! {

/// The reporting cadence for a population: a line every
/// `max(total / 1000, 1)`-th completion.
pub open spec fn spec_print_every(total: usize) -> int {
    if total / 1000 > 1 {
        (total / 1000) as int
    } else {
        1
    }
}

/// What the reporting task does with one received signal.
#[derive(Clone, Copy, Debug, PartialEq, Eq, Structural)]
pub enum ProgressAction {
    /// The stop sentinel arrived: the task exits.
    Stop,
    /// A completion was counted without reaching the reporting cadence.
    Continue,
    /// The cadence was reached: report `completed` clients done.
    Report { completed: usize },
}

/// The state of the reporting task: the population size, the cadence, and
/// the number of completions counted so far.
pub struct ProgressReporter {
    pub total: usize,
    pub print_every: usize,
    pub seen: usize,
}

impl ProgressReporter {
    /// The cadence is the one derived from the population, and in
    /// particular positive.
    pub open spec fn wf(self) -> bool {
        self.print_every == spec_print_every(self.total)
    }

    /// Creates the reporter for one epoch, sized to the client population.
    pub fn new(total: usize) -> (r: ProgressReporter)
        ensures
            r.wf(),
            r.total == total,
            r.seen == 0,
    {
        let every = total / 1000;
        let every = if every > 1 {
            every
        } else {
            1
        };
        ProgressReporter { total, print_every: every, seen: 0 }
    }

    /// Consumes one channel value. `false` is the stop sentinel; `true`
    /// counts one completion and asks for a report exactly when the count
    /// reaches a multiple of the cadence — so never at zero completions.
    pub fn on_signal(&mut self, value: bool) -> (a: ProgressAction)
        requires
            old(self).wf(),
            old(self).seen < usize::MAX,
        ensures
            final(self).wf(),
            final(self).total == old(self).total,
            final(self).print_every == old(self).print_every,
            !value ==> a == ProgressAction::Stop && final(self).seen == old(self).seen,
            value ==> final(self).seen == old(self).seen + 1,
            value ==> (a == (ProgressAction::Report { completed: final(self).seen }) <==> (
            old(self).seen + 1) % (old(self).print_every as int) == 0),
            value && (old(self).seen + 1) % (old(self).print_every as int) != 0 ==> a
                == ProgressAction::Continue,
            a matches ProgressAction::Report { completed } ==> completed > 0 && completed
                == final(self).seen,
    {
        if !value {
            return ProgressAction::Stop;
        }
        self.seen = self.seen + 1;
        if self.seen % self.print_every == 0 {
            ProgressAction::Report { completed: self.seen }
        } else {
            ProgressAction::Continue
        }
    }
}

} // verus!
