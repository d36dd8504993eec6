//! Filters that decide which task events a subscriber receives.

use vstd::prelude::*;
use crate::ids::{PlannerId, TaskId, WorkerId};
use crate::events::{TaskEvent, event_task_id};

verus! {

/// Filter for event subscriptions.
#[derive(Debug, Clone)]
pub enum EventFilter {
    /// Receive all events.
    All,
    /// Only events of one task.
    Task(TaskId),
    /// Only tasks created by one planner.
    Planner(PlannerId),
    /// Only events naming one worker.
    Worker(WorkerId),
    /// Only completions.
    Completions,
    /// Only failures.
    Failures,
    /// Only events of the listed kinds.
    Custom(Vec<EventType>),
}

/// Event kinds a custom filter can list.
#[derive(Debug, Clone, Copy, PartialEq, Eq, Structural)]
pub enum EventType {
    Created,
    Assigned,
    Started,
    Progress,
    Completed,
    Failed,
    Cancelled,
    NeedsIteration,
}

/// The filterable kind of an event; resolved dependencies have none.
pub open spec fn filter_kind(e: TaskEvent) -> Option<EventType> {
    match e {
        TaskEvent::Created { .. } => Some(EventType::Created),
        TaskEvent::Assigned { .. } => Some(EventType::Assigned),
        TaskEvent::Started { .. } => Some(EventType::Started),
        TaskEvent::Progress { .. } => Some(EventType::Progress),
        TaskEvent::Completed(_) => Some(EventType::Completed),
        TaskEvent::Failed { .. } => Some(EventType::Failed),
        TaskEvent::Cancelled { .. } => Some(EventType::Cancelled),
        TaskEvent::NeedsIteration { .. } => Some(EventType::NeedsIteration),
        TaskEvent::DependencyResolved(_) => None,
    }
}

/// Whether `e` names worker `w` as the worker that holds, works on, finished or failed it.
pub open spec fn names_worker(e: TaskEvent, w: WorkerId) -> bool {
    match e {
        TaskEvent::Assigned { worker_id, .. } => worker_id == w,
        TaskEvent::Started { worker_id, .. } => worker_id == w,
        TaskEvent::Progress { worker_id, .. } => worker_id == w,
        TaskEvent::Completed(c) => c.worker_id == w,
        TaskEvent::Failed { worker_id, .. } => worker_id == w,
        _ => false,
    }
}

/// Whether filter `f` lets event `e` through.
pub open spec fn filter_matches(f: EventFilter, e: TaskEvent) -> bool {
    match f {
        EventFilter::All => true,
        EventFilter::Task(t) => event_task_id(e) == t,
        EventFilter::Planner(p) => e matches TaskEvent::Created { planner_id, .. } && planner_id == p,
        EventFilter::Worker(w) => names_worker(e, w),
        EventFilter::Completions => e is Completed,
        EventFilter::Failures => e is Failed,
        EventFilter::Custom(types) => match filter_kind(e) {
            Some(k) => types@.contains(k),
            None => false,
        },
    }
}

/// Whether `k` is among `types`.
fn kind_listed(types: &Vec<EventType>, k: EventType) -> (b: bool)
    ensures
        b == types@.contains(k),
{
    let mut i: usize = 0;
    while i < types.len()
        invariant
            i <= types@.len(),
            forall|j: int| 0 <= j < i ==> types@[j] != k,
        decreases types.len() - i,
    {
        if types[i] == k {
            return true;
        }
        i = i + 1;
    }
    false
}

impl EventFilter {
    /// Whether an event passes this filter.
    pub fn matches(&self, event: &TaskEvent) -> (b: bool)
        ensures
            b == filter_matches(*self, *event),
    {
        match self {
            EventFilter::All => true,
            EventFilter::Task(task_id) => *event.task_id() == *task_id,
            EventFilter::Planner(planner_id) => match event {
                TaskEvent::Created { planner_id: pid, .. } => *pid == *planner_id,
                _ => false,
            },
            EventFilter::Worker(worker_id) => match event {
                TaskEvent::Assigned { worker_id: wid, .. } => *wid == *worker_id,
                TaskEvent::Started { worker_id: wid, .. } => *wid == *worker_id,
                TaskEvent::Progress { worker_id: wid, .. } => *wid == *worker_id,
                TaskEvent::Completed(c) => c.worker_id == *worker_id,
                TaskEvent::Failed { worker_id: wid, .. } => *wid == *worker_id,
                _ => false,
            },
            EventFilter::Completions => match event {
                TaskEvent::Completed(_) => true,
                _ => false,
            },
            EventFilter::Failures => match event {
                TaskEvent::Failed { .. } => true,
                _ => false,
            },
            EventFilter::Custom(types) => {
                let kind = match event {
                    TaskEvent::Created { .. } => Some(EventType::Created),
                    TaskEvent::Assigned { .. } => Some(EventType::Assigned),
                    TaskEvent::Started { .. } => Some(EventType::Started),
                    TaskEvent::Progress { .. } => Some(EventType::Progress),
                    TaskEvent::Completed(_) => Some(EventType::Completed),
                    TaskEvent::Failed { .. } => Some(EventType::Failed),
                    TaskEvent::Cancelled { .. } => Some(EventType::Cancelled),
                    TaskEvent::NeedsIteration { .. } => Some(EventType::NeedsIteration),
                    TaskEvent::DependencyResolved(_) => None,
                };
                match kind {
                    Some(k) => kind_listed(types, k),
                    None => false,
                }
            },
        }
    }
}

/// A filter on one task lets through exactly the events of that task.
pub proof fn lemma_task_filter_selects_task(t: TaskId, e: TaskEvent)
    ensures
        filter_matches(EventFilter::Task(t), e) <==> event_task_id(e) == t,
{
}

/// The completion filter is the custom filter listing only completions, and the
/// failure filter the one listing only failures.
pub proof fn lemma_kind_filters_agree(e: TaskEvent, only_completed: Vec<EventType>, only_failed: Vec<EventType>)
    requires
        only_completed@ == seq![EventType::Completed],
        only_failed@ == seq![EventType::Failed],
    ensures
        filter_matches(EventFilter::Completions, e) == filter_matches(EventFilter::Custom(only_completed), e),
        filter_matches(EventFilter::Failures, e) == filter_matches(EventFilter::Custom(only_failed), e),
{
    assert(only_completed@[0] == EventType::Completed);
    assert(only_failed@[0] == EventType::Failed);
}

/// A worker's subscription receives exactly the events in which that worker holds,
/// works on, finishes or fails a task: every assignment, start, progress report,
/// completion and failure of worker `w` passes, those of other workers do not, and
/// creations, cancellations, iteration requests and resolved dependencies never do.
pub proof fn lemma_worker_filter(w: WorkerId, e: TaskEvent)
    ensures
        e matches TaskEvent::Assigned { worker_id, .. } ==> (filter_matches(EventFilter::Worker(w), e) <==> worker_id == w),
        e matches TaskEvent::Started { worker_id, .. } ==> (filter_matches(EventFilter::Worker(w), e) <==> worker_id == w),
        e matches TaskEvent::Progress { worker_id, .. } ==> (filter_matches(EventFilter::Worker(w), e) <==> worker_id == w),
        e matches TaskEvent::Completed(c) ==> (filter_matches(EventFilter::Worker(w), e) <==> c.worker_id == w),
        e matches TaskEvent::Failed { worker_id, .. } ==> (filter_matches(EventFilter::Worker(w), e) <==> worker_id == w),
        (e is Created || e is Cancelled || e is NeedsIteration || e is DependencyResolved)
            ==> !filter_matches(EventFilter::Worker(w), e),
{
}

/// A planner's subscription receives exactly the creations of its own tasks; the
/// completion and failure subscriptions receive exactly completions and failures;
/// everything passes the subscription to all events.
pub proof fn lemma_kind_and_planner_filters(p: PlannerId, e: TaskEvent)
    ensures
        filter_matches(EventFilter::Planner(p), e) <==> (e matches TaskEvent::Created { planner_id, .. }
            && planner_id == p),
        filter_matches(EventFilter::Completions, e) <==> e is Completed,
        filter_matches(EventFilter::Failures, e) <==> e is Failed,
        filter_matches(EventFilter::All, e),
{
}

/// A custom subscription receives an event exactly when its kind is listed; a
/// resolved dependency, which has no listable kind, never passes.
pub proof fn lemma_custom_filter(types: Vec<EventType>, e: TaskEvent)
    ensures
        e is Created ==> (filter_matches(EventFilter::Custom(types), e) <==> types@.contains(EventType::Created)),
        e is Assigned ==> (filter_matches(EventFilter::Custom(types), e) <==> types@.contains(EventType::Assigned)),
        e is Started ==> (filter_matches(EventFilter::Custom(types), e) <==> types@.contains(EventType::Started)),
        e is Progress ==> (filter_matches(EventFilter::Custom(types), e) <==> types@.contains(EventType::Progress)),
        e is Completed ==> (filter_matches(EventFilter::Custom(types), e) <==> types@.contains(EventType::Completed)),
        e is Failed ==> (filter_matches(EventFilter::Custom(types), e) <==> types@.contains(EventType::Failed)),
        e is Cancelled ==> (filter_matches(EventFilter::Custom(types), e) <==> types@.contains(EventType::Cancelled)),
        e is NeedsIteration ==> (filter_matches(EventFilter::Custom(types), e)
            <==> types@.contains(EventType::NeedsIteration)),
        e is DependencyResolved ==> !filter_matches(EventFilter::Custom(types), e),
{
}

} // verus!
