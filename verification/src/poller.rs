//! The poller's state machine: the decisions of the scheduling loop that,
//! each interval, invokes every configured probe, collects all outcomes,
//! and only then builds and publishes a new tree. The surrounding runtime
//! performs the waiting and the probe calls; the transitions here decide
//! what may happen when, so that partial results are never published.

use vstd::prelude::*;

use crate::combine::aggregate_spec;
use crate::cycle::{children_of, outcome_wf, run_cycle, ProbeOutcome};
use crate::tree::{ServiceStatus, StatusTree};

verus! {

/// Where the poller stands in its cycle.
#[derive(Clone, Copy, Debug, PartialEq, Eq, Structural)]
pub enum PollerPhase {
    /// Waiting for the interval to elapse.
    Idle,
    /// Probe invocations are in flight.
    Polling,
    /// All outcomes are in; the new tree is being published.
    Publishing,
}

/// The poller's bookkeeping for the cycle in progress.
pub struct Poller {
    /// Current phase of the cycle.
    pub phase: PollerPhase,
    /// Probe invocations of this cycle that have not reported yet.
    pub awaited: usize,
    /// Outcomes collected so far this cycle, in configuration order.
    pub collected: Vec<ProbeOutcome>,
    /// Completed (published) cycles so far, saturating.
    pub cycles: u64,
}

impl Poller {
    /// Every collected outcome is fit to enter the tree.
    pub open spec fn wf(self) -> bool {
        forall|j: int| 0 <= j < self.collected@.len() ==> outcome_wf(#[trigger] self.collected@[j])
    }

    /// A fresh poller: idle, nothing collected, no cycle completed yet.
    pub fn new() -> (p: Poller)
        ensures
            p.wf(),
            p.phase is Idle,
            p.collected@.len() == 0,
            p.cycles == 0,
    {
        Poller { phase: PollerPhase::Idle, awaited: 0, collected: Vec::new(), cycles: 0 }
    }

    /// The interval elapsed: start polling the `probe_count` configured
    /// probes.
    pub fn begin_cycle(&mut self, probe_count: usize)
        requires
            old(self).wf(),
            old(self).phase is Idle,
        ensures
            final(self).wf(),
            final(self).phase is Polling,
            final(self).awaited == probe_count,
            final(self).collected@.len() == 0,
            final(self).cycles == old(self).cycles,
    {
        self.phase = PollerPhase::Polling;
        self.awaited = probe_count;
        self.collected = Vec::new();
    }

    /// One probe invocation finished (or failed): record its outcome.
    pub fn record(&mut self, outcome: ProbeOutcome)
        requires
            old(self).wf(),
            old(self).phase is Polling,
            old(self).awaited > 0,
            outcome_wf(outcome),
        ensures
            final(self).wf(),
            final(self).phase is Polling,
            final(self).awaited == old(self).awaited - 1,
            final(self).collected@ == old(self).collected@.push(outcome),
            final(self).cycles == old(self).cycles,
    {
        self.collected.push(outcome);
        self.awaited = self.awaited - 1;
    }

    /// Every probe has reported: build the tree for this cycle. The cycle
    /// cannot finish while an invocation is still awaited.
    pub fn finish_cycle(&mut self, root_name: String) -> (root: ServiceStatus)
        requires
            old(self).wf(),
            old(self).phase is Polling,
            old(self).awaited == 0,
            root_name@.len() > 0,
        ensures
            final(self).wf(),
            final(self).phase is Publishing,
            final(self).collected == old(self).collected,
            final(self).cycles == old(self).cycles,
            root@.name == root_name@,
            root@.description is None,
            root@.children == children_of(final(self).collected@),
            root@.status == aggregate_spec(StatusTree::statuses(children_of(final(self).collected@))),
            root@.wf(),
    {
        self.phase = PollerPhase::Publishing;
        run_cycle(root_name, &self.collected)
    }

    /// The new tree reached the shared holder: the cycle is complete and
    /// the poller goes back to sleep.
    pub fn published(&mut self)
        requires
            old(self).wf(),
            old(self).phase is Publishing,
        ensures
            final(self).wf(),
            final(self).phase is Idle,
            final(self).collected@.len() == 0,
            old(self).cycles < u64::MAX ==> final(self).cycles == old(self).cycles + 1,
            old(self).cycles == u64::MAX ==> final(self).cycles == u64::MAX,
    {
        self.phase = PollerPhase::Idle;
        self.collected = Vec::new();
        if self.cycles < u64::MAX {
            self.cycles = self.cycles + 1;
        }
    }
}

} // verus!
