//! Requests and responses of the multi-agent HTTP interface.

use vstd::prelude::*;
use crate::text::owned;

verus! {

/// Request to start a project run.
#[derive(Debug, Clone)]
pub struct CreateProjectRequest {
    /// Path of the project.
    pub project_path: String,
    /// Goal of the run.
    pub goal: String,
    /// Configuration overrides.
    pub config: Option<ProjectConfigRequest>,
}

/// Configuration overrides for a project run.
#[derive(Debug, Clone, Copy, PartialEq, Eq, Structural)]
pub struct ProjectConfigRequest {
    pub max_workers: Option<u32>,
    pub max_planners: Option<u32>,
    pub auto_commit: Option<bool>,
    pub max_iterations: Option<u32>,
}

/// Query parameters for listing tasks.
#[derive(Debug, Clone)]
pub struct ListTasksQuery {
    pub status: Option<String>,
    pub limit: Option<u32>,
    pub offset: Option<u32>,
}

/// Request to create a checkpoint.
#[derive(Debug, Clone)]
pub struct CreateCheckpointRequest {
    pub reason: Option<String>,
}

/// Events streamed to clients watching a project run.
#[derive(Debug, Clone)]
pub enum ProjectEvent {
    TaskCreated { task_id: String, description: String },
    TaskCompleted { task_id: String, summary: String },
    TaskFailed { task_id: String, error: String },
    WorkerProgress { worker_id: String, task_id: String, percentage: u8 },
    PlannerWake { planner_id: String, reason: String, new_tasks: u32 },
    PhaseChanged { old_phase: String, new_phase: String },
    ProjectCompleted { summary: String },
}

/// A successful response carrying a message.
#[derive(Debug, Clone)]
pub struct MultiAgentSuccessResponse {
    pub message: String,
}

/// An error response.
#[derive(Debug, Clone)]
pub struct MultiAgentErrorResponse {
    pub error: String,
    pub message: String,
}

/// `e` is the refusal of an invalid request, with message `message`.
pub open spec fn is_invalid_request(e: MultiAgentErrorResponse, message: Seq<char>) -> bool {
    e.error@ == "invalid_request"@ && e.message@ == message
}

/// Why a request to start a project run is refused, if it is: a project path and
/// a goal are required, the path first.
pub fn check_create_project(request: &CreateProjectRequest) -> (r: Option<MultiAgentErrorResponse>)
    ensures
        request.project_path@.len() == 0 ==> (r matches Some(e) && is_invalid_request(e, "Project path is required"@)),
        request.project_path@.len() > 0 && request.goal@.len() == 0
            ==> (r matches Some(e) && is_invalid_request(e, "Goal is required"@)),
        request.project_path@.len() > 0 && request.goal@.len() > 0 ==> r is None,
{
    if request.project_path.as_str().is_empty() {
        Some(MultiAgentErrorResponse { error: owned("invalid_request"), message: owned("Project path is required") })
    } else if request.goal.as_str().is_empty() {
        Some(MultiAgentErrorResponse { error: owned("invalid_request"), message: owned("Goal is required") })
    } else {
        None
    }
}

} // verus!
