//! Counters reported by the event bus, the event store, planners and the task queue.

use vstd::prelude::*;

verus! {

/// Counters of the event bus.
#[derive(Debug, Clone, Copy, PartialEq, Eq, Structural)]
pub struct EventBusMetrics {
    /// Events published.
    pub events_published: u64,
    /// Events delivered.
    pub events_delivered: u64,
    /// Events deferred by back-pressure.
    pub events_deferred: u64,
}

impl Default for EventBusMetrics {
    fn default() -> (m: Self)
        ensures
            m.events_published == 0 && m.events_delivered == 0 && m.events_deferred == 0,
    {
        EventBusMetrics { events_published: 0, events_delivered: 0, events_deferred: 0 }
    }
}

impl EventBusMetrics {
    /// Events published.
    pub fn published(&self) -> (n: u64)
        ensures
            n == self.events_published,
    {
        self.events_published
    }

    /// Events delivered.
    pub fn delivered(&self) -> (n: u64)
        ensures
            n == self.events_delivered,
    {
        self.events_delivered
    }

    /// Events deferred.
    pub fn deferred(&self) -> (n: u64)
        ensures
            n == self.events_deferred,
    {
        self.events_deferred
    }
}

/// Counters of the event store.
#[derive(Debug, Clone, Copy, PartialEq, Eq, Structural)]
pub struct PersistenceMetrics {
    /// Events stored.
    pub events_stored: u64,
    /// Events replayed.
    pub events_replayed: u64,
    /// Flushes performed.
    pub flushes: u64,
}

impl Default for PersistenceMetrics {
    fn default() -> (m: Self)
        ensures
            m.events_stored == 0 && m.events_replayed == 0 && m.flushes == 0,
    {
        PersistenceMetrics { events_stored: 0, events_replayed: 0, flushes: 0 }
    }
}

impl PersistenceMetrics {
    /// Events stored.
    pub fn stored(&self) -> (n: u64)
        ensures
            n == self.events_stored,
    {
        self.events_stored
    }

    /// Events replayed.
    pub fn replayed(&self) -> (n: u64)
        ensures
            n == self.events_replayed,
    {
        self.events_replayed
    }

    /// Flushes performed.
    pub fn flushes(&self) -> (n: u64)
        ensures
            n == self.flushes,
    {
        self.flushes
    }
}

/// Counters of a planner's activity.
#[derive(Debug, Clone, Copy, PartialEq, Eq, Structural)]
pub struct PlannerMetrics {
    /// Times the planner woke up.
    pub wake_ups: u64,
    /// Tasks completed since the last planning session.
    pub tasks_completed_since_plan: u32,
    /// Tasks created by the planner.
    pub tasks_created: u64,
}

impl Default for PlannerMetrics {
    fn default() -> (m: Self)
        ensures
            m.wake_ups == 0 && m.tasks_completed_since_plan == 0 && m.tasks_created == 0,
    {
        PlannerMetrics { wake_ups: 0, tasks_completed_since_plan: 0, tasks_created: 0 }
    }
}

/// Statistics about the task queue.
#[derive(Debug, Clone, Copy, PartialEq, Eq, Structural)]
pub struct QueueStats {
    /// Pending tasks.
    pub pending: u32,
    /// Tasks in progress.
    pub in_progress: u32,
    /// Completed tasks.
    pub completed: u32,
    /// Failed tasks.
    pub failed: u32,
}

} // verus!
