use vstd::prelude::*;

verus! {

/// What the run loop does next.
#[derive(Debug, Clone, Copy, PartialEq, Eq, Structural)]
pub enum Admission {
    /// Start one more request.
    Launch,
    /// Wait until an in-flight request completes.
    AwaitCompletion,
    /// The deadline has passed and every request has completed.
    Finished,
}

/// Phases of a run.
#[derive(Debug, Clone, Copy, PartialEq, Eq, Structural)]
pub enum Phase {
    /// Before the deadline, fewer than the limit launched so far.
    Filling,
    /// Before the deadline, each completion replaced by a new request.
    Steady,
    /// After the deadline, waiting for in-flight requests.
    Draining,
    /// After the deadline, nothing in flight.
    Done,
}

/// Admission control: keeps up to `limit` requests in flight until `duration_ms` has
/// elapsed, replacing each completed request at once, then drains.
pub struct ConcurrencyController {
    limit: usize,
    duration_ms: u64,
    in_flight: usize,
    launched: u64,
}

/// The action owed in a state with `in_flight` requests out of `limit`, `elapsed_ms` into a
/// run of `duration_ms`.
pub open spec fn admission_spec(limit: nat, duration_ms: nat, in_flight: nat, elapsed_ms: nat) -> Admission {
    if elapsed_ms < duration_ms && in_flight < limit {
        Admission::Launch
    } else if in_flight > 0 {
        Admission::AwaitCompletion
    } else {
        Admission::Finished
    }
}

impl ConcurrencyController {
    pub closed spec fn limit_spec(&self) -> nat {
        self.limit as nat
    }

    pub closed spec fn duration_spec(&self) -> nat {
        self.duration_ms as nat
    }

    pub closed spec fn in_flight_spec(&self) -> nat {
        self.in_flight as nat
    }

    pub closed spec fn launched_spec(&self) -> nat {
        self.launched as nat
    }

    /// At least one slot, and never more requests in flight than slots.
    pub closed spec fn wf(&self) -> bool {
        &&& self.limit >= 1
        &&& self.in_flight <= self.limit
        &&& self.in_flight <= self.launched
    }

    /// A controller for a run of `duration_ms` with `limit` slots, nothing launched yet.
    pub fn new(limit: usize, duration_ms: u64) -> (r: ConcurrencyController)
        requires
            limit >= 1,
        ensures
            r.wf(),
            r.limit_spec() == limit,
            r.duration_spec() == duration_ms,
            r.in_flight_spec() == 0,
            r.launched_spec() == 0,
    {
        ConcurrencyController { limit, duration_ms, in_flight: 0, launched: 0 }
    }

    /// The next action, `elapsed_ms` into the run.
    pub fn next(&self, elapsed_ms: u64) -> (r: Admission)
        requires
            self.wf(),
        ensures
            r == admission_spec(
                self.limit_spec(),
                self.duration_spec(),
                self.in_flight_spec(),
                elapsed_ms as nat,
            ),
            r == Admission::Launch ==> self.in_flight_spec() < self.limit_spec(),
            r == Admission::Finished ==> self.in_flight_spec() == 0 && elapsed_ms
                >= self.duration_spec(),
    {
        if elapsed_ms < self.duration_ms && self.in_flight < self.limit {
            Admission::Launch
        } else if self.in_flight > 0 {
            Admission::AwaitCompletion
        } else {
            Admission::Finished
        }
    }

    /// The phase of the run, `elapsed_ms` into it.
    pub fn phase(&self, elapsed_ms: u64) -> (r: Phase)
        requires
            self.wf(),
        ensures
            r == (if elapsed_ms < self.duration_spec() {
                if self.launched_spec() < self.limit_spec() {
                    Phase::Filling
                } else {
                    Phase::Steady
                }
            } else if self.in_flight_spec() > 0 {
                Phase::Draining
            } else {
                Phase::Done
            }),
    {
        if elapsed_ms < self.duration_ms {
            if self.launched < self.limit as u64 {
                Phase::Filling
            } else {
                Phase::Steady
            }
        } else if self.in_flight > 0 {
            Phase::Draining
        } else {
            Phase::Done
        }
    }

    /// Whether periodic snapshots are still due, `elapsed_ms` into the run.
    pub fn broadcasting(&self, elapsed_ms: u64) -> (r: bool)
        ensures
            r == (elapsed_ms < self.duration_spec()),
    {
        elapsed_ms < self.duration_ms
    }

    /// Whether one more launch is permitted and countable.
    pub fn can_launch(&self) -> (r: bool)
        requires
            self.wf(),
        ensures
            r == (self.in_flight_spec() < self.limit_spec() && self.launched_spec() < u64::MAX),
    {
        self.in_flight < self.limit && self.launched < u64::MAX
    }

    /// A request was started.
    pub fn on_launch(&mut self)
        requires
            old(self).wf(),
            old(self).in_flight_spec() < old(self).limit_spec(),
            old(self).launched_spec() < u64::MAX,
        ensures
            final(self).wf(),
            final(self).in_flight_spec() == old(self).in_flight_spec() + 1,
            final(self).launched_spec() == old(self).launched_spec() + 1,
            final(self).limit_spec() == old(self).limit_spec(),
            final(self).duration_spec() == old(self).duration_spec(),
    {
        self.in_flight = self.in_flight + 1;
        self.launched = self.launched + 1;
    }

    /// A request completed, with a response or a failure, and freed its slot.
    pub fn on_completion(&mut self)
        requires
            old(self).wf(),
            old(self).in_flight_spec() > 0,
        ensures
            final(self).wf(),
            final(self).in_flight_spec() == old(self).in_flight_spec() - 1,
            final(self).launched_spec() == old(self).launched_spec(),
            final(self).limit_spec() == old(self).limit_spec(),
            final(self).duration_spec() == old(self).duration_spec(),
    {
        self.in_flight = self.in_flight - 1;
    }

    /// The number of requests in flight.
    pub fn in_flight(&self) -> (r: usize)
        ensures
            r == self.in_flight_spec(),
    {
        self.in_flight
    }

    /// The number of requests launched so far.
    pub fn launched(&self) -> (r: u64)
        ensures
            r == self.launched_spec(),
    {
        self.launched
    }
}

/// In every reachable state, no more requests are in flight than the limit, and a launch is
/// only ever advised while a slot is free, so the next state keeps the bound.
pub proof fn lemma_in_flight_bounded(c: ConcurrencyController, elapsed_ms: nat)
    requires
        c.wf(),
    ensures
        c.in_flight_spec() <= c.limit_spec(),
        admission_spec(c.limit_spec(), c.duration_spec(), c.in_flight_spec(), elapsed_ms)
            == Admission::Launch ==> c.in_flight_spec() + 1 <= c.limit_spec(),
{
}

/// The run ends only after the deadline, and only with nothing in flight.
pub proof fn lemma_finished_means_drained(c: ConcurrencyController, elapsed_ms: nat)
    requires
        c.wf(),
        admission_spec(c.limit_spec(), c.duration_spec(), c.in_flight_spec(), elapsed_ms)
            == Admission::Finished,
    ensures
        c.in_flight_spec() == 0,
        elapsed_ms >= c.duration_spec(),
{
}

} // verus!
