//! What a task asks for and what a worker hands back: specifications, outputs,
//! file changes, verification results and completions.
//!

use vstd::prelude::*;
use std::path::PathBuf;
use crate::ids::{PlannerId, TaskId, WorkerId};
use crate::text::owned;
use crate::clock::Timestamp;

verus! {

/// Output produced by a worker for a task.
#[derive(Debug, Clone)]
pub struct TaskOutput {
    /// Summary of what was done.
    pub summary: String,
    /// Notes for the planner.
    pub notes: Vec<String>,
    /// Artifacts produced.
    pub artifacts: Vec<Artifact>,
    /// Follow-up tasks the worker suggests.
    pub suggested_tasks: Vec<TaskSuggestion>,
    /// What was learned along the way.
    pub learnings: Vec<Learning>,
}

impl Default for TaskOutput {
    fn default() -> (r: Self)
        ensures
            r.summary@.len() == 0,
            r.notes@.len() == 0,
            r.artifacts@.len() == 0,
            r.suggested_tasks@.len() == 0,
            r.learnings@.len() == 0,
    {
        TaskOutput {
            summary: String::new(),
            notes: Vec::new(),
            artifacts: Vec::new(),
            suggested_tasks: Vec::new(),
            learnings: Vec::new(),
        }
    }
}

/// A change made to one file.
#[derive(Debug, Clone)]
pub struct FileChange {
    /// Path of the file that changed.
    pub path: String,
    /// How it changed.
    pub change_type: FileChangeType,
    /// Lines added.
    pub lines_added: u32,
    /// Lines removed.
    pub lines_removed: u32,
}

/// How a file changed.
#[derive(Debug, Clone, Copy, PartialEq, Eq, Structural)]
pub enum FileChangeType {
    Created,
    Modified,
    Deleted,
    Renamed,
}

/// The snake-case name of a file change kind.
pub open spec fn file_change_type_name(t: FileChangeType) -> Seq<char> {
    match t {
        FileChangeType::Created => "created"@,
        FileChangeType::Modified => "modified"@,
        FileChangeType::Deleted => "deleted"@,
        FileChangeType::Renamed => "renamed"@,
    }
}

impl FileChangeType {
    /// The snake-case name (`created`, `modified`, `deleted`, `renamed`).
    pub fn to_string(&self) -> (s: String)
        ensures
            s@ == file_change_type_name(*self),
    {
        match self {
            FileChangeType::Created => owned("created"),
            FileChangeType::Modified => owned("modified"),
            FileChangeType::Deleted => owned("deleted"),
            FileChangeType::Renamed => owned("renamed"),
        }
    }
}

/// The outcome of checking one success criterion.
#[derive(Debug, Clone)]
pub struct VerificationResult {
    /// The criterion checked.
    pub criterion: String,
    /// Whether it held.
    pub passed: bool,
    /// Output of the verification, if any.
    pub output: Option<String>,
    /// Error of the verification, if any.
    pub error: Option<String>,
}

/// Something a worker produced besides code changes.
#[derive(Debug, Clone)]
pub struct Artifact {
    /// Name of the artifact.
    pub name: String,
    /// Kind of artifact.
    pub artifact_type: String,
    /// Where it is stored, if on disk.
    pub path: Option<PathBuf>,
    /// Its content, if inline.
    pub content: Option<String>,
}

/// A follow-up task suggested by a worker.
#[derive(Debug, Clone)]
pub struct TaskSuggestion {
    /// What should be done.
    pub description: String,
    /// Kind of task.
    pub task_type: String,
    /// Suggested priority.
    pub priority: i32,
    /// Why it is suggested.
    pub rationale: String,
}

/// Something learned while working on a task.
#[derive(Debug, Clone)]
pub struct Learning {
    /// Kind of learning.
    pub learning_type: LearningType,
    /// What was learned.
    pub content: String,
    /// Domain it concerns, if any.
    pub domain_relevance: Option<String>,
}

/// Kinds of learning.
#[derive(Debug, Clone, Copy, PartialEq, Eq, Structural)]
pub enum LearningType {
    Pattern,
    Constraint,
    Issue,
    Performance,
    Architecture,
    Testing,
}

/// The snake-case name of a learning kind.
pub open spec fn learning_type_name(t: LearningType) -> Seq<char> {
    match t {
        LearningType::Pattern => "pattern"@,
        LearningType::Constraint => "constraint"@,
        LearningType::Issue => "issue"@,
        LearningType::Performance => "performance"@,
        LearningType::Architecture => "architecture"@,
        LearningType::Testing => "testing"@,
    }
}

impl LearningType {
    /// The snake-case name of the kind.
    pub fn to_string(&self) -> (s: String)
        ensures
            s@ == learning_type_name(*self),
    {
        match self {
            LearningType::Pattern => owned("pattern"),
            LearningType::Constraint => owned("constraint"),
            LearningType::Issue => owned("issue"),
            LearningType::Performance => owned("performance"),
            LearningType::Architecture => owned("architecture"),
            LearningType::Testing => owned("testing"),
        }
    }
}

/// What a task must achieve.
#[derive(Debug, Clone)]
pub struct TaskSpecification {
    /// Requirements to meet.
    pub requirements: Vec<String>,
    /// Criteria that can be checked.
    pub success_criteria: Vec<VerifiableCriterion>,
    /// Constraints to respect.
    pub constraints: Vec<String>,
    /// Hints for the worker.
    pub hints: Vec<String>,
    /// Context handed to the worker.
    pub context: Vec<ContextItem>,
}

impl Default for TaskSpecification {
    fn default() -> (r: Self)
        ensures
            r.requirements@.len() == 0,
            r.success_criteria@.len() == 0,
            r.constraints@.len() == 0,
            r.hints@.len() == 0,
            r.context@.len() == 0,
    {
        TaskSpecification {
            requirements: Vec::new(),
            success_criteria: Vec::new(),
            constraints: Vec::new(),
            hints: Vec::new(),
            context: Vec::new(),
        }
    }
}

/// A success criterion with the way to check it.
#[derive(Debug, Clone)]
pub struct VerifiableCriterion {
    /// What must hold.
    pub description: String,
    /// How to check it.
    pub verification: VerificationMethod,
}

/// Ways to check a criterion.
#[derive(Debug, Clone)]
pub enum VerificationMethod {
    TestPass { test_pattern: String },
    CompilationSuccess,
    LintPass { linter: String },
    TypeCheck,
    Command { cmd: String, expected_exit_code: i32 },
    FileExists { path: PathBuf },
    PatternMatch { path: PathBuf, pattern: String },
}

/// One piece of context handed to a worker.
#[derive(Debug, Clone)]
pub struct ContextItem {
    /// Kind of context.
    pub context_type: String,
    /// The context itself.
    pub content: String,
    /// Path of the file it came from, if any.
    pub source_file: Option<String>,
}

/// The context a task was worked in.
#[derive(Debug, Clone)]
pub struct ContextSnapshot {
    /// Context items.
    pub items: Vec<ContextItem>,
    /// Git commit at capture time.
    pub git_sha: Option<String>,
    /// When it was captured.
    pub captured_at: Option<Timestamp>,
    /// Planner that created the task, when known.
    pub planner_id: Option<PlannerId>,
}

impl Default for ContextSnapshot {
    fn default() -> (r: Self)
        ensures
            r.items@.len() == 0,
            r.git_sha is None,
            r.captured_at is None,
            r.planner_id is None,
    {
        ContextSnapshot { items: Vec::new(), git_sha: None, captured_at: None, planner_id: None }
    }
}

/// What a worker reports when it finishes a task.
#[derive(Debug, Clone)]
pub struct TaskCompletion {
    /// The task finished.
    pub task_id: TaskId,
    /// The worker that finished it.
    pub worker_id: WorkerId,
    /// When it finished.
    pub completed_at: Timestamp,
    /// How long the work took, in milliseconds.
    pub duration_ms: u64,
    /// What the worker produced.
    pub output: TaskOutput,
    /// Files changed.
    pub changes: Vec<FileChange>,
    /// Commit holding the changes, if any.
    pub commit_sha: Option<String>,
    /// Results of checking the success criteria.
    pub verifications: Vec<VerificationResult>,
    /// The context the task was worked in.
    pub context_snapshot: ContextSnapshot,
    /// Tasks that were waiting only on the finished one.
    pub unblocked_tasks: Vec<TaskId>,
}

} // verus!
