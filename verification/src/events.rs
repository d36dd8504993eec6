//! Events of the multi-agent system: task lifecycle events with their kind and
//! priority, and the events that planners, workers and the orchestrator exchange.

use vstd::prelude::*;
use std::path::PathBuf;
use crate::ids::{CheckpointId, DomainId, PlannerId, ProjectRunId, TaskId, WorkerId};
use crate::work::TaskCompletion;
use crate::clock::{now, Timestamp};
use crate::duration::{duration_as_secs, duration_from_secs, duration_nanos};
use std::time::Duration;

verus! {

/// Events of a task's life.
#[derive(Debug, Clone)]
pub enum TaskEvent {
    /// Task was created.
    Created { task_id: TaskId, planner_id: PlannerId, description: String },
    /// Task was assigned to a worker.
    Assigned { task_id: TaskId, worker_id: WorkerId },
    /// Task execution started.
    Started { task_id: TaskId, worker_id: WorkerId },
    /// Task progress updated.
    Progress { task_id: TaskId, worker_id: WorkerId, percentage: u8, current_step: String },
    /// Task completed.
    Completed(Box<TaskCompletion>),
    /// Task failed.
    Failed { task_id: TaskId, worker_id: WorkerId, error: String },
    /// Task cancelled.
    Cancelled { task_id: TaskId, reason: String },
    /// Task needs another iteration.
    NeedsIteration { task_id: TaskId, feedback: String, iteration: u32 },
    /// A dependency of a task was resolved.
    DependencyResolved(DependencyResolvedEvent),
}

/// Emitted when a dependency of a task is resolved.
#[derive(Debug, Clone)]
pub struct DependencyResolvedEvent {
    /// Task that had the dependency.
    pub task_id: TaskId,
    /// The dependency that was resolved.
    pub dependency_id: TaskId,
    /// Whether all dependencies are now resolved.
    pub all_resolved: bool,
    /// When it was resolved.
    pub timestamp: Timestamp,
}

/// Kinds of task events, for filtering and persistence.
#[derive(Debug, Clone, Copy, PartialEq, Eq, Structural, Hash)]
pub enum TaskEventType {
    Created,
    Assigned,
    Started,
    Progress,
    Completed,
    Failed,
    Cancelled,
    NeedsIteration,
    DependencyResolved,
}

/// The snake-case name of an event kind.
pub open spec fn task_event_type_name(t: TaskEventType) -> &'static str {
    match t {
        TaskEventType::Created => "created",
        TaskEventType::Assigned => "assigned",
        TaskEventType::Started => "started",
        TaskEventType::Progress => "progress",
        TaskEventType::Completed => "completed",
        TaskEventType::Failed => "failed",
        TaskEventType::Cancelled => "cancelled",
        TaskEventType::NeedsIteration => "needs_iteration",
        TaskEventType::DependencyResolved => "dependency_resolved",
    }
}

impl TaskEventType {
    /// The snake-case name of the kind.
    pub fn as_str(&self) -> (s: &'static str)
        ensures
            s == task_event_type_name(*self),
    {
        match self {
            TaskEventType::Created => "created",
            TaskEventType::Assigned => "assigned",
            TaskEventType::Started => "started",
            TaskEventType::Progress => "progress",
            TaskEventType::Completed => "completed",
            TaskEventType::Failed => "failed",
            TaskEventType::Cancelled => "cancelled",
            TaskEventType::NeedsIteration => "needs_iteration",
            TaskEventType::DependencyResolved => "dependency_resolved",
        }
    }

    /// The text of the kind: its snake-case name.
    pub fn to_string(&self) -> (s: String)
        ensures
            s@ == task_event_type_name(*self)@,
    {
        crate::text::owned(self.as_str())
    }
}

/// Priority of an event for back-pressure handling, from lowest to highest.
#[derive(Debug, Clone, Copy, PartialEq, Eq, Structural, PartialOrd, Ord)]
pub enum EventPriority {
    Low,
    Normal,
    High,
    Critical,
}

/// The position of a priority in the order `Low < Normal < High < Critical`.
pub open spec fn priority_rank(p: EventPriority) -> nat {
    match p {
        EventPriority::Low => 0,
        EventPriority::Normal => 1,
        EventPriority::High => 2,
        EventPriority::Critical => 3,
    }
}

impl EventPriority {
    /// The position of the priority in the order `Low < Normal < High < Critical`.
    pub fn rank(&self) -> (r: u8)
        ensures
            r == priority_rank(*self),
    {
        match self {
            EventPriority::Low => 0,
            EventPriority::Normal => 1,
            EventPriority::High => 2,
            EventPriority::Critical => 3,
        }
    }
}

/// The task an event concerns.
pub open spec fn event_task_id(e: TaskEvent) -> TaskId {
    match e {
        TaskEvent::Created { task_id, .. } => task_id,
        TaskEvent::Assigned { task_id, .. } => task_id,
        TaskEvent::Started { task_id, .. } => task_id,
        TaskEvent::Progress { task_id, .. } => task_id,
        TaskEvent::Completed(c) => c.task_id,
        TaskEvent::Failed { task_id, .. } => task_id,
        TaskEvent::Cancelled { task_id, .. } => task_id,
        TaskEvent::NeedsIteration { task_id, .. } => task_id,
        TaskEvent::DependencyResolved(d) => d.task_id,
    }
}

/// The kind of an event.
pub open spec fn event_kind(e: TaskEvent) -> TaskEventType {
    match e {
        TaskEvent::Created { .. } => TaskEventType::Created,
        TaskEvent::Assigned { .. } => TaskEventType::Assigned,
        TaskEvent::Started { .. } => TaskEventType::Started,
        TaskEvent::Progress { .. } => TaskEventType::Progress,
        TaskEvent::Completed(_) => TaskEventType::Completed,
        TaskEvent::Failed { .. } => TaskEventType::Failed,
        TaskEvent::Cancelled { .. } => TaskEventType::Cancelled,
        TaskEvent::NeedsIteration { .. } => TaskEventType::NeedsIteration,
        TaskEvent::DependencyResolved(_) => TaskEventType::DependencyResolved,
    }
}

/// The planner an event names: the creator of a created task, or the planner
/// recorded in a completion's context.
pub open spec fn event_planner_id(e: TaskEvent) -> Option<PlannerId> {
    match e {
        TaskEvent::Created { planner_id, .. } => Some(planner_id),
        TaskEvent::Completed(c) => c.context_snapshot.planner_id,
        _ => None,
    }
}

/// The worker an event names, if any.
pub open spec fn event_worker_id(e: TaskEvent) -> Option<WorkerId> {
    match e {
        TaskEvent::Assigned { worker_id, .. } => Some(worker_id),
        TaskEvent::Started { worker_id, .. } => Some(worker_id),
        TaskEvent::Progress { worker_id, .. } => Some(worker_id),
        TaskEvent::Completed(c) => Some(c.worker_id),
        TaskEvent::Failed { worker_id, .. } => Some(worker_id),
        _ => None,
    }
}

/// The priority of an event: completions, failures and resolved dependencies are
/// high; progress and cancellation are low; the rest are normal.
pub open spec fn event_priority(e: TaskEvent) -> EventPriority {
    match e {
        TaskEvent::Completed(_) => EventPriority::High,
        TaskEvent::Failed { .. } => EventPriority::High,
        TaskEvent::DependencyResolved(_) => EventPriority::High,
        TaskEvent::Created { .. } => EventPriority::Normal,
        TaskEvent::NeedsIteration { .. } => EventPriority::Normal,
        TaskEvent::Started { .. } => EventPriority::Normal,
        TaskEvent::Assigned { .. } => EventPriority::Normal,
        TaskEvent::Progress { .. } => EventPriority::Low,
        TaskEvent::Cancelled { .. } => EventPriority::Low,
    }
}

impl TaskEvent {
    /// The task this event concerns.
    pub fn task_id(&self) -> (r: &TaskId)
        ensures
            *r == event_task_id(*self),
    {
        match self {
            TaskEvent::Created { task_id, .. } => task_id,
            TaskEvent::Assigned { task_id, .. } => task_id,
            TaskEvent::Started { task_id, .. } => task_id,
            TaskEvent::Progress { task_id, .. } => task_id,
            TaskEvent::Completed(completion) => &completion.task_id,
            TaskEvent::Failed { task_id, .. } => task_id,
            TaskEvent::Cancelled { task_id, .. } => task_id,
            TaskEvent::NeedsIteration { task_id, .. } => task_id,
            TaskEvent::DependencyResolved(e) => &e.task_id,
        }
    }

    /// The kind of this event.
    pub fn event_type(&self) -> (t: TaskEventType)
        ensures
            t == event_kind(*self),
    {
        match self {
            TaskEvent::Created { .. } => TaskEventType::Created,
            TaskEvent::Assigned { .. } => TaskEventType::Assigned,
            TaskEvent::Started { .. } => TaskEventType::Started,
            TaskEvent::Progress { .. } => TaskEventType::Progress,
            TaskEvent::Completed(_) => TaskEventType::Completed,
            TaskEvent::Failed { .. } => TaskEventType::Failed,
            TaskEvent::Cancelled { .. } => TaskEventType::Cancelled,
            TaskEvent::NeedsIteration { .. } => TaskEventType::NeedsIteration,
            TaskEvent::DependencyResolved(_) => TaskEventType::DependencyResolved,
        }
    }

    /// The planner this event names, if any.
    pub fn planner_id(&self) -> (r: Option<&PlannerId>)
        ensures
            match event_planner_id(*self) {
                Some(p) => r is Some && *r.unwrap() == p,
                None => r is None,
            },
    {
        match self {
            TaskEvent::Created { planner_id, .. } => Some(planner_id),
            TaskEvent::Completed(completion) => match &completion.context_snapshot.planner_id {
                Some(p) => Some(p),
                None => None,
            },
            _ => None,
        }
    }

    /// The worker this event names, if any.
    pub fn worker_id(&self) -> (r: Option<&WorkerId>)
        ensures
            match event_worker_id(*self) {
                Some(w) => r is Some && *r.unwrap() == w,
                None => r is None,
            },
    {
        match self {
            TaskEvent::Assigned { worker_id, .. } => Some(worker_id),
            TaskEvent::Started { worker_id, .. } => Some(worker_id),
            TaskEvent::Progress { worker_id, .. } => Some(worker_id),
            TaskEvent::Completed(completion) => Some(&completion.worker_id),
            TaskEvent::Failed { worker_id, .. } => Some(worker_id),
            _ => None,
        }
    }

    /// When the event happened: the completion or resolution time it carries, or
    /// the current time for the other kinds.
    pub fn timestamp(&self) -> (t: Timestamp)
        ensures
            self matches TaskEvent::Completed(c) ==> t == c.completed_at,
            self matches TaskEvent::DependencyResolved(d) ==> t == d.timestamp,
    {
        match self {
            TaskEvent::Completed(completion) => completion.completed_at,
            TaskEvent::DependencyResolved(e) => e.timestamp,
            _ => now(),
        }
    }

    /// The priority of this event for back-pressure handling.
    pub fn priority(&self) -> (p: EventPriority)
        ensures
            p == event_priority(*self),
    {
        match self {
            TaskEvent::Completed(_) => EventPriority::High,
            TaskEvent::Failed { .. } => EventPriority::High,
            TaskEvent::DependencyResolved(_) => EventPriority::High,
            TaskEvent::Created { .. } => EventPriority::Normal,
            TaskEvent::NeedsIteration { .. } => EventPriority::Normal,
            TaskEvent::Started { .. } => EventPriority::Normal,
            TaskEvent::Assigned { .. } => EventPriority::Normal,
            TaskEvent::Progress { .. } => EventPriority::Low,
            TaskEvent::Cancelled { .. } => EventPriority::Low,
        }
    }
}

/// Context given to a planner when it wakes up.
#[derive(Debug, Clone)]
pub struct WakeUpContext {
    /// The event that woke the planner.
    pub trigger_event: TaskEvent,
    /// Seconds since the planner last planned.
    pub time_since_last_plan_secs: u64,
    /// Tasks completed since the last planning.
    pub tasks_completed_since_plan: u32,
    /// Pending tasks of this planner.
    pub pending_tasks: Vec<TaskId>,
}

impl WakeUpContext {
    /// A wake-up context; the time since the last plan is kept in whole seconds.
    pub fn new(
        trigger_event: TaskEvent,
        time_since_last_plan: Duration,
        tasks_completed_since_plan: u32,
        pending_tasks: Vec<TaskId>,
    ) -> (r: Self)
        ensures
            r.trigger_event == trigger_event,
            r.time_since_last_plan_secs == duration_nanos(time_since_last_plan) / 1_000_000_000,
            r.tasks_completed_since_plan == tasks_completed_since_plan,
            r.pending_tasks == pending_tasks,
    {
        WakeUpContext {
            trigger_event,
            time_since_last_plan_secs: duration_as_secs(time_since_last_plan),
            tasks_completed_since_plan,
            pending_tasks,
        }
    }

    /// The time since the last plan, in whole seconds.
    pub fn time_since_last_plan(&self) -> (d: Duration)
        ensures
            duration_nanos(d) == self.time_since_last_plan_secs as nat * 1_000_000_000,
    {
        duration_from_secs(self.time_since_last_plan_secs)
    }
}

/// Events that wake domain planners.
#[derive(Debug, Clone)]
pub enum PlannerEvent {
    /// A task assigned by this planner completed.
    TaskCompleted(Box<TaskCompletion>),
    /// A domain this planner depends on changed.
    DomainChanged { domain_id: DomainId, changes: Vec<String> },
    /// The orchestrator asked for planning.
    PlanningRequested { reason: String },
    /// A resource became available.
    ResourceAvailable { resource_type: String },
    /// A checkpoint was restored; the planner should re-orient.
    CheckpointRestored { checkpoint_id: CheckpointId },
    /// A sub-planner completed its scope.
    SubPlannerCompleted { planner_id: PlannerId, summary: String },
    /// Iteration feedback from the judge.
    IterationFeedback { task_id: TaskId, feedback: String },
    /// Shutdown requested.
    Shutdown,
}

impl PlannerEvent {
    /// Whether this is a shutdown request.
    pub fn is_shutdown(&self) -> (b: bool)
        ensures
            b <==> *self is Shutdown,
    {
        match self {
            PlannerEvent::Shutdown => true,
            _ => false,
        }
    }

    /// Whether the event needs immediate attention: shutdowns and restored checkpoints.
    pub fn is_urgent(&self) -> (b: bool)
        ensures
            b <==> (*self is Shutdown || *self is CheckpointRestored),
    {
        match self {
            PlannerEvent::Shutdown => true,
            PlannerEvent::CheckpointRestored { .. } => true,
            _ => false,
        }
    }
}

/// Events from workers.
#[derive(Debug, Clone)]
pub enum WorkerEvent {
    /// Worker started.
    Started { worker_id: WorkerId },
    /// Worker picked up a task.
    TaskPickedUp { worker_id: WorkerId, task_id: TaskId },
    /// Worker made progress.
    Progress { worker_id: WorkerId, task_id: TaskId, percentage: u8, step: String },
    /// Worker completed a task.
    TaskCompleted { worker_id: WorkerId, task_id: TaskId, summary: String },
    /// Worker failed a task.
    TaskFailed { worker_id: WorkerId, task_id: TaskId, error: String },
    /// Worker is idle.
    Idle { worker_id: WorkerId },
    /// Worker stopped.
    Stopped { worker_id: WorkerId, reason: String },
}

/// The worker a worker event comes from.
pub open spec fn worker_event_worker(e: WorkerEvent) -> WorkerId {
    match e {
        WorkerEvent::Started { worker_id } => worker_id,
        WorkerEvent::TaskPickedUp { worker_id, .. } => worker_id,
        WorkerEvent::Progress { worker_id, .. } => worker_id,
        WorkerEvent::TaskCompleted { worker_id, .. } => worker_id,
        WorkerEvent::TaskFailed { worker_id, .. } => worker_id,
        WorkerEvent::Idle { worker_id } => worker_id,
        WorkerEvent::Stopped { worker_id, .. } => worker_id,
    }
}

impl WorkerEvent {
    /// The worker this event comes from.
    pub fn worker_id(&self) -> (r: &WorkerId)
        ensures
            *r == worker_event_worker(*self),
    {
        match self {
            WorkerEvent::Started { worker_id } => worker_id,
            WorkerEvent::TaskPickedUp { worker_id, .. } => worker_id,
            WorkerEvent::Progress { worker_id, .. } => worker_id,
            WorkerEvent::TaskCompleted { worker_id, .. } => worker_id,
            WorkerEvent::TaskFailed { worker_id, .. } => worker_id,
            WorkerEvent::Idle { worker_id } => worker_id,
            WorkerEvent::Stopped { worker_id, .. } => worker_id,
        }
    }
}

/// Events for the orchestrator.
#[derive(Debug, Clone)]
pub enum OrchestratorEvent {
    ProjectStarted { run_id: ProjectRunId },
    ProjectCompleted { run_id: ProjectRunId },
    ProjectFailed { run_id: ProjectRunId, error: String },
    PlannerSpawned { planner_id: PlannerId, domain_id: DomainId },
    PlannerStopped { planner_id: PlannerId, reason: String },
    WorkerSpawned { worker_id: WorkerId, run_id: ProjectRunId },
    WorkerStopped { worker_id: WorkerId, reason: String },
    CheckpointCreated { checkpoint_id: CheckpointId, run_id: ProjectRunId },
    HealthAlert { run_id: ProjectRunId, message: String },
    Shutdown,
}

} // verus!
