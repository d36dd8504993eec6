//! Where a task is in its life, by stage alone: which tasks may be picked up, which
//! are being worked on and which are finished.

use vstd::prelude::*;

verus! {

/// The stage of a task, without the details each stage carries.
#[derive(Debug, Clone, Copy, PartialEq, Eq, Structural)]
pub enum TaskStage {
    Blocked,
    Pending,
    Assigned,
    InProgress,
    AwaitingReview,
    NeedsIteration,
    Completed,
    Failed,
    Cancelled,
}

/// The snake-case name of a stage.
pub open spec fn stage_name(s: TaskStage) -> &'static str {
    match s {
        TaskStage::Blocked => "blocked",
        TaskStage::Pending => "pending",
        TaskStage::Assigned => "assigned",
        TaskStage::InProgress => "in_progress",
        TaskStage::AwaitingReview => "awaiting_review",
        TaskStage::NeedsIteration => "needs_iteration",
        TaskStage::Completed => "completed",
        TaskStage::Failed => "failed",
        TaskStage::Cancelled => "cancelled",
    }
}

/// A worker is on the task: it has been assigned or is in progress.
pub open spec fn stage_is_active(s: TaskStage) -> bool {
    s == TaskStage::Assigned || s == TaskStage::InProgress
}

/// The task is finished for good: completed, failed or cancelled.
pub open spec fn stage_is_terminal(s: TaskStage) -> bool {
    s == TaskStage::Completed || s == TaskStage::Failed || s == TaskStage::Cancelled
}

impl TaskStage {
    /// The snake-case name of the stage.
    pub fn name(&self) -> (r: &'static str)
        ensures
            r == stage_name(*self),
    {
        match self {
            TaskStage::Blocked => "blocked",
            TaskStage::Pending => "pending",
            TaskStage::Assigned => "assigned",
            TaskStage::InProgress => "in_progress",
            TaskStage::AwaitingReview => "awaiting_review",
            TaskStage::NeedsIteration => "needs_iteration",
            TaskStage::Completed => "completed",
            TaskStage::Failed => "failed",
            TaskStage::Cancelled => "cancelled",
        }
    }

    /// Whether a worker is on the task.
    pub fn is_active(&self) -> (b: bool)
        ensures
            b == stage_is_active(*self),
    {
        match self {
            TaskStage::Assigned | TaskStage::InProgress => true,
            _ => false,
        }
    }

    /// Whether the task is finished for good.
    pub fn is_terminal(&self) -> (b: bool)
        ensures
            b == stage_is_terminal(*self),
    {
        match self {
            TaskStage::Completed | TaskStage::Failed | TaskStage::Cancelled => true,
            _ => false,
        }
    }

    /// Whether a task at this stage, waiting on `open_dependencies` others, may be
    /// picked up: it is pending and waits on nothing.
    pub fn is_ready(&self, open_dependencies: usize) -> (b: bool)
        ensures
            b == (*self == TaskStage::Pending && open_dependencies == 0),
    {
        match self {
            TaskStage::Pending => open_dependencies == 0,
            _ => false,
        }
    }
}

} // verus!
