//! Errors of the multi-agent system and of its event layer.

use vstd::prelude::*;
use crate::ids::{PlannerId, TaskId, WorkerId};

verus! {

/// Errors that can occur in the multi-agent system.
#[derive(Debug, Clone)]
pub enum MultiAgentError {
    TaskNotFound(TaskId),
    WorkerNotFound(WorkerId),
    PlannerNotFound(PlannerId),
    ProjectRunNotFound(String),
    DomainNotFound(String),
    InvalidStatusTransition { from: String, to: String },
    DependencyCycle(TaskId),
    FileOwnershipConflict { file: String, owner: WorkerId },
    WorkerBusy(WorkerId),
    TaskAlreadyAssigned(TaskId),
    InvalidTaskType(String),
    InvalidTaskStatus(String),
    InvalidProjectPhase(String),
    InvalidVerdict(String),
    InvalidAgentRole(String),
    Serialization(String),
    Database(String),
    Channel(String),
    Shutdown,
    Timeout(String),
}

/// Errors that can occur in the event system.
#[derive(Debug, Clone, PartialEq, Eq)]
pub enum EventError {
    /// The event channel is closed.
    ChannelClosed,
    /// Sending an event failed.
    SendFailed(String),
    /// Receiving timed out.
    Timeout,
    /// Serialization failed.
    Serialization(String),
}

} // verus!
