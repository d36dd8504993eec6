//! Roles of agents, the health of a domain, and the phase and status of a
//! project run, with their text forms.

use vstd::prelude::*;
use vstd::string::*;
use crate::errors::MultiAgentError;
use crate::text::{append_str, decimal, decimal_text, owned, parse_u32, seq_starts_with,
    str_eq, str_starts_with, u32_from_text, lemma_u32_decimal_roundtrip};

verus! {

/// Roles an agent can play.
#[derive(Debug, Clone, Copy, PartialEq, Eq, Structural, Hash)]
pub enum AgentRole {
    Planner,
    Worker,
    Judge,
    Explorer,
}

/// The snake-case name of a role.
pub open spec fn agent_role_name(r: AgentRole) -> Seq<char> {
    match r {
        AgentRole::Planner => "planner"@,
        AgentRole::Worker => "worker"@,
        AgentRole::Judge => "judge"@,
        AgentRole::Explorer => "explorer"@,
    }
}

/// The role named `s`, if any.
pub open spec fn agent_role_from_name(s: Seq<char>) -> Option<AgentRole> {
    if s == "planner"@ {
        Some(AgentRole::Planner)
    } else if s == "worker"@ {
        Some(AgentRole::Worker)
    } else if s == "judge"@ {
        Some(AgentRole::Judge)
    } else if s == "explorer"@ {
        Some(AgentRole::Explorer)
    } else {
        None
    }
}

impl AgentRole {
    /// The snake-case name of the role.
    pub fn to_string(&self) -> (s: String)
        ensures
            s@ == agent_role_name(*self),
    {
        match self {
            AgentRole::Planner => owned("planner"),
            AgentRole::Worker => owned("worker"),
            AgentRole::Judge => owned("judge"),
            AgentRole::Explorer => owned("explorer"),
        }
    }

    /// Reads a role from its snake-case name.
    pub fn parse(s: &str) -> (r: Result<AgentRole, MultiAgentError>)
        ensures
            match agent_role_from_name(s@) {
                Some(role) => r matches Ok(x) && x == role,
                None => r matches Err(MultiAgentError::InvalidAgentRole(t)) && t@ == s@,
            },
    {
        if str_eq(s, "planner") {
            Ok(AgentRole::Planner)
        } else if str_eq(s, "worker") {
            Ok(AgentRole::Worker)
        } else if str_eq(s, "judge") {
            Ok(AgentRole::Judge)
        } else if str_eq(s, "explorer") {
            Ok(AgentRole::Explorer)
        } else {
            Err(MultiAgentError::InvalidAgentRole(owned(s)))
        }
    }
}

impl std::str::FromStr for AgentRole {
    type Err = MultiAgentError;

    fn from_str(s: &str) -> (r: Result<Self, MultiAgentError>)
        ensures
            match agent_role_from_name(s@) {
                Some(role) => r matches Ok(x) && x == role,
                None => r matches Err(MultiAgentError::InvalidAgentRole(t)) && t@ == s@,
            },
    {
        AgentRole::parse(s)
    }
}

/// Every role reads back from its own name.
pub proof fn lemma_agent_role_roundtrip(r: AgentRole)
    ensures
        agent_role_from_name(agent_role_name(r)) == Some(r),
{
    reveal_strlit("planner");
    reveal_strlit("worker");
    reveal_strlit("judge");
    reveal_strlit("explorer");
    match r {
        AgentRole::Planner => {},
        AgentRole::Worker => {
            assert("worker"@.len() != "planner"@.len());
        },
        AgentRole::Judge => {
            assert("judge"@.len() != "planner"@.len());
            assert("judge"@.len() != "worker"@.len());
        },
        AgentRole::Explorer => {
            assert("explorer"@.len() != "planner"@.len());
            assert("explorer"@.len() != "worker"@.len());
            assert("explorer"@.len() != "judge"@.len());
        },
    }
}

/// Health of a domain.
#[derive(Debug, Clone, Copy, PartialEq, Eq, Structural)]
pub enum DomainHealth {
    Healthy,
    Warning,
    Error,
    Stalled,
}

impl Default for DomainHealth {
    fn default() -> (h: Self)
        ensures
            h == DomainHealth::Healthy,
    {
        DomainHealth::Healthy
    }
}

/// The snake-case name of a health state.
pub open spec fn domain_health_name(h: DomainHealth) -> Seq<char> {
    match h {
        DomainHealth::Healthy => "healthy"@,
        DomainHealth::Warning => "warning"@,
        DomainHealth::Error => "error"@,
        DomainHealth::Stalled => "stalled"@,
    }
}

impl DomainHealth {
    /// The snake-case name of the health state.
    pub fn to_string(&self) -> (s: String)
        ensures
            s@ == domain_health_name(*self),
    {
        match self {
            DomainHealth::Healthy => owned("healthy"),
            DomainHealth::Warning => owned("warning"),
            DomainHealth::Error => owned("error"),
            DomainHealth::Stalled => owned("stalled"),
        }
    }
}

/// Phase of a project run.
#[derive(Debug, Clone, Copy, PartialEq, Eq, Structural)]
pub enum ProjectPhase {
    Exploration,
    Development { iteration: u32 },
    Refinement,
    Verification,
    Complete,
}

/// The text form of a phase: its snake-case name, with `:<iteration>` for development.
pub open spec fn project_phase_text(p: ProjectPhase) -> Seq<char> {
    match p {
        ProjectPhase::Exploration => "exploration"@,
        ProjectPhase::Development { iteration } => "development:"@ + decimal(iteration as nat),
        ProjectPhase::Refinement => "refinement"@,
        ProjectPhase::Verification => "verification"@,
        ProjectPhase::Complete => "complete"@,
    }
}

/// The phase that `s` names: `development:` followed by an iteration number as
/// `u32::from_str` reads it, or one of the other phase names.
pub open spec fn project_phase_from_text(s: Seq<char>) -> Option<ProjectPhase> {
    if seq_starts_with(s, "development:"@) {
        match u32_from_text(s.subrange(12, s.len() as int)) {
            Some(i) => Some(ProjectPhase::Development { iteration: i }),
            None => None,
        }
    } else if s == "exploration"@ {
        Some(ProjectPhase::Exploration)
    } else if s == "refinement"@ {
        Some(ProjectPhase::Refinement)
    } else if s == "verification"@ {
        Some(ProjectPhase::Verification)
    } else if s == "complete"@ {
        Some(ProjectPhase::Complete)
    } else {
        None
    }
}

impl ProjectPhase {
    /// The text form of the phase.
    pub fn to_string(&self) -> (s: String)
        ensures
            s@ == project_phase_text(*self),
    {
        match self {
            ProjectPhase::Exploration => owned("exploration"),
            ProjectPhase::Development { iteration } => {
                let mut s = owned("development:");
                let n = decimal_text(*iteration as u64);
                append_str(&mut s, n.as_str());
                s
            },
            ProjectPhase::Refinement => owned("refinement"),
            ProjectPhase::Verification => owned("verification"),
            ProjectPhase::Complete => owned("complete"),
        }
    }

    /// Reads a phase from its text form.
    pub fn parse(s: &str) -> (r: Result<ProjectPhase, MultiAgentError>)
        ensures
            match project_phase_from_text(s@) {
                Some(p) => r matches Ok(x) && x == p,
                None => r matches Err(MultiAgentError::InvalidProjectPhase(t)) && t@ == s@,
            },
    {
        if str_starts_with(s, "development:") {
            proof {
                reveal_strlit("development:");
            }
            let rest = s.substring_char(12, s.unicode_len());
            match parse_u32(rest) {
                Some(iteration) => Ok(ProjectPhase::Development { iteration }),
                None => Err(MultiAgentError::InvalidProjectPhase(owned(s))),
            }
        } else if str_eq(s, "exploration") {
            Ok(ProjectPhase::Exploration)
        } else if str_eq(s, "refinement") {
            Ok(ProjectPhase::Refinement)
        } else if str_eq(s, "verification") {
            Ok(ProjectPhase::Verification)
        } else if str_eq(s, "complete") {
            Ok(ProjectPhase::Complete)
        } else {
            Err(MultiAgentError::InvalidProjectPhase(owned(s)))
        }
    }
}

impl std::str::FromStr for ProjectPhase {
    type Err = MultiAgentError;

    fn from_str(s: &str) -> (r: Result<Self, MultiAgentError>)
        ensures
            match project_phase_from_text(s@) {
                Some(p) => r matches Ok(x) && x == p,
                None => r matches Err(MultiAgentError::InvalidProjectPhase(t)) && t@ == s@,
            },
    {
        ProjectPhase::parse(s)
    }
}

/// Every phase reads back from its own text form.
pub proof fn lemma_project_phase_roundtrip(p: ProjectPhase)
    ensures
        project_phase_from_text(project_phase_text(p)) == Some(p),
{
    reveal_strlit("development:");
    reveal_strlit("exploration");
    reveal_strlit("refinement");
    reveal_strlit("verification");
    reveal_strlit("complete");
    match p {
        ProjectPhase::Development { iteration } => {
            let t = "development:"@ + decimal(iteration as nat);
            assert(t.subrange(0, 12) =~= "development:"@);
            assert(t.subrange(12, t.len() as int) =~= decimal(iteration as nat));
            lemma_u32_decimal_roundtrip(iteration);
        },
        ProjectPhase::Exploration => {
            assert(!seq_starts_with("exploration"@, "development:"@));
        },
        ProjectPhase::Refinement => {
            assert(!seq_starts_with("refinement"@, "development:"@));
            assert("refinement"@.len() != "exploration"@.len());
        },
        ProjectPhase::Verification => {
            assert("verification"@.subrange(0, 12)[0] != "development:"@[0]);
            assert("verification"@.len() != "exploration"@.len());
            assert("verification"@.len() != "refinement"@.len());
        },
        ProjectPhase::Complete => {
            assert(!seq_starts_with("complete"@, "development:"@));
            assert("complete"@.len() != "exploration"@.len());
            assert("complete"@.len() != "refinement"@.len());
            assert("complete"@.len() != "verification"@.len());
        },
    }
}

/// Status of a project run.
#[derive(Debug, Clone, Copy, PartialEq, Eq, Structural)]
pub enum ProjectStatus {
    Initializing,
    Running,
    Paused,
    Completed,
    Failed,
    Cancelled,
}

impl Default for ProjectStatus {
    fn default() -> (s: Self)
        ensures
            s == ProjectStatus::Initializing,
    {
        ProjectStatus::Initializing
    }
}

/// The snake-case name of a status.
pub open spec fn project_status_name(s: ProjectStatus) -> Seq<char> {
    match s {
        ProjectStatus::Initializing => "initializing"@,
        ProjectStatus::Running => "running"@,
        ProjectStatus::Paused => "paused"@,
        ProjectStatus::Completed => "completed"@,
        ProjectStatus::Failed => "failed"@,
        ProjectStatus::Cancelled => "cancelled"@,
    }
}

/// The status named `s`, if any.
pub open spec fn project_status_from_name(s: Seq<char>) -> Option<ProjectStatus> {
    if s == "initializing"@ {
        Some(ProjectStatus::Initializing)
    } else if s == "running"@ {
        Some(ProjectStatus::Running)
    } else if s == "paused"@ {
        Some(ProjectStatus::Paused)
    } else if s == "completed"@ {
        Some(ProjectStatus::Completed)
    } else if s == "failed"@ {
        Some(ProjectStatus::Failed)
    } else if s == "cancelled"@ {
        Some(ProjectStatus::Cancelled)
    } else {
        None
    }
}

impl ProjectStatus {
    /// The snake-case name of the status.
    pub fn to_string(&self) -> (s: String)
        ensures
            s@ == project_status_name(*self),
    {
        match self {
            ProjectStatus::Initializing => owned("initializing"),
            ProjectStatus::Running => owned("running"),
            ProjectStatus::Paused => owned("paused"),
            ProjectStatus::Completed => owned("completed"),
            ProjectStatus::Failed => owned("failed"),
            ProjectStatus::Cancelled => owned("cancelled"),
        }
    }

    /// Reads a status from its snake-case name; an unknown name is reported with the
    /// invalid-project-phase error.
    pub fn parse(s: &str) -> (r: Result<ProjectStatus, MultiAgentError>)
        ensures
            match project_status_from_name(s@) {
                Some(x) => r matches Ok(y) && y == x,
                None => r matches Err(MultiAgentError::InvalidProjectPhase(t)) && t@ == s@,
            },
    {
        if str_eq(s, "initializing") {
            Ok(ProjectStatus::Initializing)
        } else if str_eq(s, "running") {
            Ok(ProjectStatus::Running)
        } else if str_eq(s, "paused") {
            Ok(ProjectStatus::Paused)
        } else if str_eq(s, "completed") {
            Ok(ProjectStatus::Completed)
        } else if str_eq(s, "failed") {
            Ok(ProjectStatus::Failed)
        } else if str_eq(s, "cancelled") {
            Ok(ProjectStatus::Cancelled)
        } else {
            Err(MultiAgentError::InvalidProjectPhase(owned(s)))
        }
    }
}

impl std::str::FromStr for ProjectStatus {
    type Err = MultiAgentError;

    fn from_str(s: &str) -> (r: Result<Self, MultiAgentError>)
        ensures
            match project_status_from_name(s@) {
                Some(x) => r matches Ok(y) && y == x,
                None => r matches Err(MultiAgentError::InvalidProjectPhase(t)) && t@ == s@,
            },
    {
        ProjectStatus::parse(s)
    }
}

/// Every status reads back from its own name.
pub proof fn lemma_project_status_roundtrip(s: ProjectStatus)
    ensures
        project_status_from_name(project_status_name(s)) == Some(s),
{
    reveal_strlit("initializing");
    reveal_strlit("running");
    reveal_strlit("paused");
    reveal_strlit("completed");
    reveal_strlit("failed");
    reveal_strlit("cancelled");
    match s {
        ProjectStatus::Initializing => {},
        ProjectStatus::Running => {
            assert("running"@.len() != "initializing"@.len());
        },
        ProjectStatus::Paused => {
            assert("paused"@.len() != "initializing"@.len());
            assert("paused"@.len() != "running"@.len());
        },
        ProjectStatus::Completed => {
            assert("completed"@.len() != "initializing"@.len());
            assert("completed"@.len() != "running"@.len());
            assert("completed"@.len() != "paused"@.len());
        },
        ProjectStatus::Failed => {
            assert("failed"@.len() != "initializing"@.len());
            assert("failed"@.len() != "running"@.len());
            assert("failed"@[0] != "paused"@[0]);
            assert("failed"@.len() != "completed"@.len());
        },
        ProjectStatus::Cancelled => {
            assert("cancelled"@.len() != "initializing"@.len());
            assert("cancelled"@.len() != "running"@.len());
            assert("cancelled"@.len() != "paused"@.len());
            assert("cancelled"@[1] != "completed"@[1]);
            assert("cancelled"@.len() != "failed"@.len());
        },
    }
}

/// Counters of a domain's work.
#[derive(Debug, Clone, Copy, PartialEq, Eq, Structural)]
pub struct DomainMetrics {
    pub tasks_completed: u64,
    pub tasks_failed: u64,
    pub lines_added: u64,
    pub lines_removed: u64,
    pub avg_task_duration_ms: u64,
}

impl Default for DomainMetrics {
    fn default() -> (m: Self)
        ensures
            m.tasks_completed == 0 && m.tasks_failed == 0 && m.lines_added == 0
                && m.lines_removed == 0 && m.avg_task_duration_ms == 0,
    {
        DomainMetrics { tasks_completed: 0, tasks_failed: 0, lines_added: 0, lines_removed: 0, avg_task_duration_ms: 0 }
    }
}

} // verus!
