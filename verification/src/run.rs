//! The run state machine: the admission-controlled dispatcher's core.
//!
//! A run launches a fixed total of requests, never admitting more than the
//! permit pool's capacity in flight at once. The runtime that actually
//! suspends, spawns tasks and awaits the network drives this machine:
//! `launch` is one dispatcher iteration (a permit acquired, a task started)
//! and `finish` is one task ending (its outcome recorded, its permit
//! released, unconditionally and exactly once).

use vstd::prelude::*;

use crate::admission::Admission;
use crate::stats::Stats;

verus! {

/// Where a run stands: nothing launched yet, launching, all launched with
/// tasks still in flight, or everything finished. Complete is terminal;
/// individual request failures never abort a run.
#[derive(Clone, Copy, Debug, PartialEq, Eq, Structural)]
pub enum Phase {
    Idle,
    Dispatching,
    Draining,
    Complete,
}

/// One run: `total` requests to issue under the permit pool's capacity,
/// with the outcome counters shared by every task.
pub struct Run {
    total: usize,
    launched: usize,
    finished: usize,
    admission: Admission,
    stats: Stats,
}

impl Run {
    /// The requested number of requests.
    pub closed spec fn spec_total(self) -> int {
        self.total as int
    }

    /// How many tasks have been launched so far.
    pub closed spec fn spec_launched(self) -> int {
        self.launched as int
    }

    /// How many tasks have finished so far.
    pub closed spec fn spec_finished(self) -> int {
        self.finished as int
    }

    /// The concurrency capacity the run was created with.
    pub closed spec fn spec_capacity(self) -> int {
        self.admission.spec_capacity()
    }

    /// How many permits are currently free.
    pub closed spec fn spec_available(self) -> int {
        self.admission.spec_available()
    }

    /// Transport successes recorded so far.
    pub closed spec fn spec_success(self) -> int {
        self.stats.spec_success()
    }

    /// Transport failures recorded so far.
    pub closed spec fn spec_error(self) -> int {
        self.stats.spec_error()
    }

    /// Tasks launched and not yet finished.
    pub open spec fn spec_in_flight(self) -> int {
        self.spec_launched() - self.spec_finished()
    }

    /// The run's invariant, established at creation and preserved by every
    /// step: launches never pass the total, finishes never pass the
    /// launches, each in-flight task holds exactly one permit, and the two
    /// counters account exactly for the finished tasks.
    pub open spec fn wf(self) -> bool {
        &&& self.spec_capacity() >= 1
        &&& 0 <= self.spec_available() <= self.spec_capacity()
        &&& 0 <= self.spec_finished() <= self.spec_launched() <= self.spec_total()
        &&& self.spec_in_flight() == self.spec_capacity() - self.spec_available()
        &&& self.spec_success() >= 0
        &&& self.spec_error() >= 0
        &&& self.spec_success() + self.spec_error() == self.spec_finished()
    }

    /// The dispatcher may take its next step exactly when requests remain
    /// to be launched and a permit is free.
    pub open spec fn spec_can_launch(self) -> bool {
        self.spec_launched() < self.spec_total() && self.spec_available() >= 1
    }

    /// The run is complete exactly when every requested task was launched
    /// and every launched task finished.
    pub open spec fn spec_complete(self) -> bool {
        self.spec_launched() == self.spec_total() && self.spec_finished() == self.spec_total()
    }

    /// The run's phase, derived from its counts.
    pub open spec fn spec_phase(self) -> Phase {
        if self.spec_launched() == self.spec_total() {
            if self.spec_finished() == self.spec_total() {
                Phase::Complete
            } else {
                Phase::Draining
            }
        } else if self.spec_launched() == 0 {
            Phase::Idle
        } else {
            Phase::Dispatching
        }
    }

    /// A fresh run of `total` requests under capacity `capacity`: nothing
    /// launched, nothing recorded, every permit free. A run of zero
    /// requests is already complete, with both counters zero.
    pub fn new(total: usize, capacity: usize) -> (r: Run)
        requires
            capacity >= 1,
        ensures
            r.wf(),
            r.spec_total() == total,
            r.spec_capacity() == capacity,
            r.spec_launched() == 0,
            r.spec_finished() == 0,
            r.spec_success() == 0,
            r.spec_error() == 0,
            r.spec_available() == capacity,
            r.spec_complete() <==> total == 0,
    {
        Run {
            total,
            launched: 0,
            finished: 0,
            admission: Admission::new(capacity),
            stats: Stats::new(),
        }
    }

    /// Whether the dispatcher may launch its next task now.
    pub fn can_launch(&self) -> (b: bool)
        ensures
            b == self.spec_can_launch(),
    {
        self.launched < self.total && self.admission.available() >= 1
    }

    /// One dispatcher iteration: acquires a free permit and starts one more
    /// task. Launch order follows permit acquisition order; nothing waits
    /// for the new task to finish.
    pub fn launch(&mut self)
        requires
            old(self).wf(),
            old(self).spec_can_launch(),
        ensures
            final(self).wf(),
            final(self).spec_launched() == old(self).spec_launched() + 1,
            final(self).spec_available() == old(self).spec_available() - 1,
            final(self).spec_finished() == old(self).spec_finished(),
            final(self).spec_success() == old(self).spec_success(),
            final(self).spec_error() == old(self).spec_error(),
            final(self).spec_total() == old(self).spec_total(),
            final(self).spec_capacity() == old(self).spec_capacity(),
    {
        self.admission.acquire();
        self.launched = self.launched + 1;
    }

    /// One task ending: records its outcome — a transport success when `ok`
    /// is true, a transport failure otherwise; any HTTP response, whatever
    /// its status, counts as success — and releases its permit. The permit
    /// comes back whichever way the request went.
    pub fn finish(&mut self, ok: bool)
        requires
            old(self).wf(),
            old(self).spec_in_flight() >= 1,
        ensures
            final(self).wf(),
            final(self).spec_finished() == old(self).spec_finished() + 1,
            final(self).spec_available() == old(self).spec_available() + 1,
            final(self).spec_launched() == old(self).spec_launched(),
            final(self).spec_total() == old(self).spec_total(),
            final(self).spec_capacity() == old(self).spec_capacity(),
            ok ==> final(self).spec_success() == old(self).spec_success() + 1
                && final(self).spec_error() == old(self).spec_error(),
            !ok ==> final(self).spec_error() == old(self).spec_error() + 1
                && final(self).spec_success() == old(self).spec_success(),
    {
        self.stats.record(ok);
        self.admission.release();
        self.finished = self.finished + 1;
    }

    /// The completion barrier's test: true exactly when every permit has
    /// been returned and every launched task was accounted for, so the
    /// final statistics are safe to read.
    pub fn is_complete(&self) -> (b: bool)
        requires
            self.wf(),
        ensures
            b == self.spec_complete(),
    {
        self.launched == self.total && self.admission.all_returned()
    }

    /// The run's current phase.
    pub fn phase(&self) -> (p: Phase)
        ensures
            p == self.spec_phase(),
    {
        if self.launched == self.total {
            if self.finished == self.total {
                Phase::Complete
            } else {
                Phase::Draining
            }
        } else if self.launched == 0 {
            Phase::Idle
        } else {
            Phase::Dispatching
        }
    }

    /// The requested total.
    pub fn total(&self) -> (n: usize)
        ensures
            n == self.spec_total(),
    {
        self.total
    }

    /// The concurrency capacity.
    pub fn capacity(&self) -> (n: usize)
        ensures
            n == self.spec_capacity(),
    {
        self.admission.capacity()
    }

    /// Tasks currently in flight.
    pub fn in_flight(&self) -> (n: usize)
        requires
            self.wf(),
        ensures
            n == self.spec_in_flight(),
    {
        self.launched - self.finished
    }

    /// Free permits right now.
    pub fn available(&self) -> (n: usize)
        ensures
            n == self.spec_available(),
    {
        self.admission.available()
    }

    /// The success count.
    pub fn success(&self) -> (n: usize)
        ensures
            n == self.spec_success(),
    {
        self.stats.success()
    }

    /// The error count.
    pub fn error(&self) -> (n: usize)
        ensures
            n == self.spec_error(),
    {
        self.stats.error()
    }
}

/// After a run completes, the two outcome counters account for every
/// requested call: success + error equals the requested total.
pub proof fn lemma_complete_accounts_for_all(r: Run)
    requires
        r.wf(),
        r.spec_complete(),
    ensures
        r.spec_success() + r.spec_error() == r.spec_total(),
{
}

/// At every reachable instant, the number of in-flight tasks is between
/// zero and the capacity: the pool never over-admits.
pub proof fn lemma_in_flight_bounded(r: Run)
    requires
        r.wf(),
    ensures
        0 <= r.spec_in_flight() <= r.spec_capacity(),
{
}

/// A run of zero requests is complete as it stands, with both counters
/// zero: no launch ever happens.
pub proof fn lemma_zero_requests_complete(r: Run)
    requires
        r.wf(),
        r.spec_total() == 0,
    ensures
        r.spec_complete(),
        r.spec_success() == 0,
        r.spec_error() == 0,
{
}

/// Under capacity one, execution is strictly sequential: at most one task
/// is ever in flight, and while one is, no further launch is admitted, so
/// task execution intervals cannot overlap.
pub proof fn lemma_unit_capacity_sequential(r: Run)
    requires
        r.wf(),
        r.spec_capacity() == 1,
    ensures
        r.spec_in_flight() <= 1,
        r.spec_in_flight() == 1 ==> !r.spec_can_launch(),
{
}

/// Once a run completes, every permit is back in the pool — whatever mix
/// of successes and failures the tasks ended with, each released its
/// permit.
pub proof fn lemma_complete_restores_capacity(r: Run)
    requires
        r.wf(),
        r.spec_complete(),
    ensures
        r.spec_available() == r.spec_capacity(),
{
}

} // verus!
