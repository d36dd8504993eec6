//! Back-pressure for event delivery to planners.
//!
//! The controller keeps, per planner, the number of delivered events not yet
//! processed, and decides from that depth and the event's priority whether a new
//! event is accepted, accepted with a warning, deferred or rejected.

use vstd::prelude::*;
use std::collections::HashMap;
use crate::ids::PlannerId;
use crate::events::{EventPriority, TaskEvent, event_priority, priority_rank};

verus! {

broadcast use vstd::std_specs::hash::group_hash_axioms;

/// Decision of the back-pressure controller.
#[derive(Debug, Clone, Copy, PartialEq, Eq, Structural)]
pub enum BackpressureDecision {
    /// Accept the event for delivery.
    Accept,
    /// Accept, but the queue is getting deep.
    AcceptWithWarning,
    /// Defer the event for later delivery.
    Defer,
    /// Reject the event: the queue is full.
    Reject,
}

/// Queue-depth thresholds.
#[derive(Debug, Clone, Copy, PartialEq, Eq, Structural)]
pub struct BackpressureThresholds {
    /// From this depth on, events are accepted with a warning.
    pub warning: usize,
    /// From this depth on, only high-priority events are accepted.
    pub critical: usize,
    /// From this depth on, every event is rejected.
    pub maximum: usize,
}

/// The default thresholds: warning at 100, critical at 500, maximum at 1000.
pub open spec fn default_thresholds() -> BackpressureThresholds {
    BackpressureThresholds { warning: 100, critical: 500, maximum: 1000 }
}

impl Default for BackpressureThresholds {
    fn default() -> (t: Self)
        ensures
            t == default_thresholds(),
    {
        BackpressureThresholds { warning: 100, critical: 500, maximum: 1000 }
    }
}

/// Counters of the decisions recorded by a controller.
#[derive(Debug, Clone, Copy, PartialEq, Eq, Structural)]
pub struct BackpressureMetrics {
    /// Events accepted.
    pub events_accepted: u64,
    /// Events accepted with a warning.
    pub events_warned: u64,
    /// Events deferred.
    pub events_deferred: u64,
    /// Events rejected.
    pub events_rejected: u64,
}

/// All counters at zero.
pub open spec fn zero_metrics() -> BackpressureMetrics {
    BackpressureMetrics { events_accepted: 0, events_warned: 0, events_deferred: 0, events_rejected: 0 }
}

impl Default for BackpressureMetrics {
    fn default() -> (m: Self)
        ensures
            m == zero_metrics(),
    {
        BackpressureMetrics { events_accepted: 0, events_warned: 0, events_deferred: 0, events_rejected: 0 }
    }
}

impl BackpressureMetrics {
    /// Events accepted.
    pub fn accepted(&self) -> (n: u64)
        ensures
            n == self.events_accepted,
    {
        self.events_accepted
    }

    /// Events accepted with a warning.
    pub fn warned(&self) -> (n: u64)
        ensures
            n == self.events_warned,
    {
        self.events_warned
    }

    /// Events deferred.
    pub fn deferred(&self) -> (n: u64)
        ensures
            n == self.events_deferred,
    {
        self.events_deferred
    }

    /// Events rejected.
    pub fn rejected(&self) -> (n: u64)
        ensures
            n == self.events_rejected,
    {
        self.events_rejected
    }
}

/// A counter advanced by one, wrapping at the top of `u64` as an atomic counter does.
pub open spec fn bump(n: u64) -> u64 {
    vstd::wrapping::u64_specs::wrapping_add(n, 1)
}

/// The counters after recording one event with decision `d`.
pub open spec fn count_decision(m: BackpressureMetrics, d: BackpressureDecision) -> BackpressureMetrics {
    match d {
        BackpressureDecision::Accept => BackpressureMetrics { events_accepted: bump(m.events_accepted), ..m },
        BackpressureDecision::AcceptWithWarning => BackpressureMetrics { events_warned: bump(m.events_warned), ..m },
        BackpressureDecision::Defer => BackpressureMetrics { events_deferred: bump(m.events_deferred), ..m },
        BackpressureDecision::Reject => BackpressureMetrics { events_rejected: bump(m.events_rejected), ..m },
    }
}

/// The queue depth of planner `p` in the depth table `m`; a planner absent from it has depth 0.
pub open spec fn depth_in(m: Map<u128, usize>, p: u128) -> nat {
    if m.contains_key(p) {
        m[p] as nat
    } else {
        0
    }
}

/// The decision for an event of priority `prio` at queue depth `depth`:
/// reject from the maximum on; between critical and maximum accept with a warning
/// when the priority is high or above and defer otherwise; between warning and
/// critical accept with a warning; below warning accept.
pub open spec fn decide(t: BackpressureThresholds, depth: nat, prio: EventPriority) -> BackpressureDecision {
    if depth >= t.maximum {
        BackpressureDecision::Reject
    } else if depth >= t.critical {
        if priority_rank(prio) >= priority_rank(EventPriority::High) {
            BackpressureDecision::AcceptWithWarning
        } else {
            BackpressureDecision::Defer
        }
    } else if depth >= t.warning {
        BackpressureDecision::AcceptWithWarning
    } else {
        BackpressureDecision::Accept
    }
}

/// The depth table after one more event was queued for planner `p`.
pub open spec fn queued_one(m: Map<u128, usize>, p: u128) -> Map<u128, usize> {
    m.insert(p, (depth_in(m, p) + 1) as usize)
}

/// The depth table after planner `p` processed one event: its depth drops by one,
/// staying at zero; a planner absent from the table stays absent.
pub open spec fn processed_one(m: Map<u128, usize>, p: u128) -> Map<u128, usize> {
    if m.contains_key(p) {
        m.insert(p, if m[p] == 0 { 0usize } else { (m[p] - 1) as usize })
    } else {
        m
    }
}

/// Manages back-pressure in event delivery to planners.
pub struct BackpressureController {
    thresholds: BackpressureThresholds,
    queue_depths: HashMap<u128, usize>,
    metrics: BackpressureMetrics,
}

impl BackpressureController {
    /// The queue depth of each planner that has one, keyed by the planner's UUID value.
    pub closed spec fn depths(&self) -> Map<u128, usize> {
        self.queue_depths@
    }

    /// The thresholds the controller works with.
    pub closed spec fn limits(&self) -> BackpressureThresholds {
        self.thresholds
    }

    /// The decision counters.
    pub closed spec fn counters(&self) -> BackpressureMetrics {
        self.metrics
    }

    /// The table of queue depths is finite, so the number of active planners is its size.
    pub proof fn lemma_depths_finite(&self)
        ensures
            self.depths().dom().finite(),
    {
    }

    /// A controller with the default thresholds.
    pub fn new() -> (c: Self)
        ensures
            c.depths() == Map::<u128, usize>::empty(),
            c.limits() == default_thresholds(),
            c.counters() == zero_metrics(),
    {
        Self::with_thresholds(BackpressureThresholds::default())
    }

    /// A controller with the given thresholds.
    pub fn with_thresholds(thresholds: BackpressureThresholds) -> (c: Self)
        ensures
            c.depths() == Map::<u128, usize>::empty(),
            c.limits() == thresholds,
            c.counters() == zero_metrics(),
    {
        BackpressureController {
            thresholds,
            queue_depths: HashMap::new(),
            metrics: BackpressureMetrics::default(),
        }
    }

    /// The decision counters.
    pub fn metrics(&self) -> (m: &BackpressureMetrics)
        ensures
            *m == self.counters(),
    {
        &self.metrics
    }

    /// The current queue depth of a planner (zero when it has none).
    pub fn queue_depth(&self, planner_id: &PlannerId) -> (d: usize)
        ensures
            d == depth_in(self.depths(), planner_id.0),
    {
        match self.queue_depths.get(&planner_id.0) {
            Some(d) => *d,
            None => 0,
        }
    }

    /// Whether a planner can take an event now, from its queue depth and the event's priority.
    pub fn can_accept(&self, planner_id: &PlannerId, event: &TaskEvent) -> (d: BackpressureDecision)
        ensures
            d == decide(self.limits(), depth_in(self.depths(), planner_id.0), event_priority(*event)),
    {
        let depth = self.queue_depth(planner_id);
        if depth >= self.thresholds.maximum {
            return BackpressureDecision::Reject;
        }
        if depth >= self.thresholds.critical {
            if event.priority().rank() >= EventPriority::High.rank() {
                return BackpressureDecision::AcceptWithWarning;
            }
            return BackpressureDecision::Defer;
        }
        if depth >= self.thresholds.warning {
            return BackpressureDecision::AcceptWithWarning;
        }
        BackpressureDecision::Accept
    }

    /// Records that an event was queued for a planner: its depth grows by one and
    /// the counter of `decision` advances.
    pub fn record_accepted(&mut self, planner_id: &PlannerId, decision: BackpressureDecision)
        requires
            depth_in(old(self).depths(), planner_id.0) < usize::MAX,
        ensures
            final(self).depths() == queued_one(old(self).depths(), planner_id.0),
            final(self).counters() == count_decision(old(self).counters(), decision),
            final(self).limits() == old(self).limits(),
    {
        let depth = self.queue_depth(planner_id);
        self.queue_depths.insert(planner_id.0, depth + 1);
        match decision {
            BackpressureDecision::Accept => {
                self.metrics.events_accepted = self.metrics.events_accepted.wrapping_add(1);
            },
            BackpressureDecision::AcceptWithWarning => {
                self.metrics.events_warned = self.metrics.events_warned.wrapping_add(1);
            },
            BackpressureDecision::Defer => {
                self.metrics.events_deferred = self.metrics.events_deferred.wrapping_add(1);
            },
            BackpressureDecision::Reject => {
                self.metrics.events_rejected = self.metrics.events_rejected.wrapping_add(1);
            },
        }
    }

    /// Records that an event was deferred.
    pub fn record_deferred(&mut self)
        ensures
            final(self).depths() == old(self).depths(),
            final(self).counters() == count_decision(old(self).counters(), BackpressureDecision::Defer),
            final(self).limits() == old(self).limits(),
    {
        self.metrics.events_deferred = self.metrics.events_deferred.wrapping_add(1);
    }

    /// Records that an event for a planner was rejected.
    pub fn record_rejected(&mut self, planner_id: &PlannerId)
        ensures
            final(self).depths() == old(self).depths(),
            final(self).counters() == count_decision(old(self).counters(), BackpressureDecision::Reject),
            final(self).limits() == old(self).limits(),
    {
        self.metrics.events_rejected = self.metrics.events_rejected.wrapping_add(1);
    }

    /// Records that a planner processed one event: its depth drops by one (not below zero).
    pub fn event_processed(&mut self, planner_id: &PlannerId)
        ensures
            final(self).depths() == processed_one(old(self).depths(), planner_id.0),
            final(self).counters() == old(self).counters(),
            final(self).limits() == old(self).limits(),
    {
        let current = match self.queue_depths.get(&planner_id.0) {
            Some(d) => Some(*d),
            None => None,
        };
        if let Some(d) = current {
            self.queue_depths.insert(planner_id.0, d.saturating_sub(1));
        }
    }

    /// Forgets the queue of a planner.
    pub fn reset_planner(&mut self, planner_id: &PlannerId)
        ensures
            final(self).depths() == old(self).depths().remove(planner_id.0),
            final(self).counters() == old(self).counters(),
            final(self).limits() == old(self).limits(),
    {
        self.queue_depths.remove(&planner_id.0);
    }

    /// Whether a planner's queue has reached the critical threshold.
    pub fn is_overloaded(&self, planner_id: &PlannerId) -> (b: bool)
        ensures
            b <==> depth_in(self.depths(), planner_id.0) >= self.limits().critical,
    {
        self.queue_depth(planner_id) >= self.thresholds.critical
    }

    /// The number of planners with a queue.
    pub fn active_planners(&self) -> (n: usize)
        ensures
            n == self.depths().len(),
    {
        self.queue_depths.len()
    }
}

impl Default for BackpressureController {
    fn default() -> (c: Self)
        ensures
            c.depths() == Map::<u128, usize>::empty(),
            c.limits() == default_thresholds(),
            c.counters() == zero_metrics(),
    {
        Self::new()
    }
}

/// Resetting a planner lowers the number of planners with a queue by one when it
/// had a queue, and leaves it unchanged otherwise.
pub proof fn lemma_reset_drops_one_planner(m: Map<u128, usize>, p: u128)
    requires
        m.dom().finite(),
    ensures
        m.remove(p).len() == if m.contains_key(p) { m.len() - 1 } else { m.len() as int },
{
    if !m.contains_key(p) {
        assert(m.remove(p) =~= m);
    }
}

/// Queuing one event for a planner and then processing one gives the planner its
/// former depth back.
pub proof fn lemma_accept_then_process_restores_depth(m: Map<u128, usize>, p: u128)
    requires
        depth_in(m, p) < usize::MAX,
    ensures
        depth_in(processed_one(queued_one(m, p), p), p) == depth_in(m, p),
{
}

/// Queuing or processing an event for one planner leaves every other planner's depth unchanged.
pub proof fn lemma_other_planners_unaffected(m: Map<u128, usize>, p: u128, q: u128)
    requires
        p != q,
    ensures
        depth_in(queued_one(m, p), q) == depth_in(m, q),
        depth_in(processed_one(m, p), q) == depth_in(m, q),
        depth_in(m.remove(p), q) == depth_in(m, q),
{
}

/// Processing never makes a depth negative, and lowers a positive depth by exactly one.
pub proof fn lemma_processing_saturates_at_zero(m: Map<u128, usize>, p: u128)
    ensures
        depth_in(m, p) == 0 ==> depth_in(processed_one(m, p), p) == 0,
        depth_in(m, p) > 0 ==> depth_in(processed_one(m, p), p) == depth_in(m, p) - 1,
{
}

/// A reset planner has an empty queue.
pub proof fn lemma_reset_empties_queue(m: Map<u128, usize>, p: u128)
    ensures
        depth_in(m.remove(p), p) == 0,
{
}

/// A queue at or above the maximum rejects every event.
pub proof fn lemma_full_queue_rejects(t: BackpressureThresholds, depth: nat, prio: EventPriority)
    requires
        depth >= t.maximum,
    ensures
        decide(t, depth, prio) == BackpressureDecision::Reject,
{
}

/// An event of high or critical priority is never deferred.
pub proof fn lemma_high_priority_never_deferred(t: BackpressureThresholds, depth: nat, prio: EventPriority)
    requires
        priority_rank(prio) >= priority_rank(EventPriority::High),
    ensures
        decide(t, depth, prio) != BackpressureDecision::Defer,
{
}

/// Below the maximum, a queue that is not overloaded never defers, and an overloaded
/// one defers exactly the events below high priority.
pub proof fn lemma_defer_only_when_overloaded(t: BackpressureThresholds, depth: nat, prio: EventPriority)
    requires
        depth < t.maximum,
    ensures
        decide(t, depth, prio) == BackpressureDecision::Defer <==> (depth >= t.critical
            && priority_rank(prio) < priority_rank(EventPriority::High)),
{
}

/// Events that end a task (completions and failures) and resolved dependencies are
/// high priority, so back-pressure never defers nor rejects them below the maximum
/// depth: at or above the critical depth they are accepted with a warning.
/// Creations, assignments, starts and iteration requests are normal priority;
/// progress reports and cancellations are low.
pub proof fn lemma_event_priorities(e: TaskEvent, t: BackpressureThresholds, depth: nat)
    ensures
        (e is Completed || e is Failed || e is DependencyResolved) ==> event_priority(e) == EventPriority::High,
        (e is Created || e is Assigned || e is Started || e is NeedsIteration) ==> event_priority(e)
            == EventPriority::Normal,
        (e is Progress || e is Cancelled) ==> event_priority(e) == EventPriority::Low,
        (e is Completed || e is Failed || e is DependencyResolved) && depth < t.maximum ==> {
            &&& decide(t, depth, event_priority(e)) != BackpressureDecision::Defer
            &&& decide(t, depth, event_priority(e)) != BackpressureDecision::Reject
            &&& depth >= t.critical ==> decide(t, depth, event_priority(e)) == BackpressureDecision::AcceptWithWarning
        },
{
}

} // verus!
