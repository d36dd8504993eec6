//! Reading context records back from storage: the store keeps a strategy by its
//! name, a claim by the key of its kind, a memory's source as a kind and an
//! identifier, and strategy statistics as signed 64-bit columns. These functions
//! rebuild the library's values from what was kept.

use vstd::prelude::*;
use crate::text::{owned, str_eq};
use crate::strategy::{ReasoningStrategy, PerformanceStats, strategy_name};
use crate::claims::{ClaimType, claim_type_key};
use crate::memory::{MemorySource, source_type_name};
use crate::ids::{TaskId, WorkerId};
use crate::work::{ContextSnapshot, FileChange, TaskCompletion, TaskOutput, VerificationResult};
use crate::clock::Timestamp;

verus! {

/// The strategy stored under `name`: parallel exploration comes back with two branches.
pub open spec fn stored_strategy(name: Seq<char>) -> Option<ReasoningStrategy> {
    if name == "chain_of_thought"@ {
        Some(ReasoningStrategy::ChainOfThought)
    } else if name == "program_of_thought"@ {
        Some(ReasoningStrategy::ProgramOfThought)
    } else if name == "stepwise_refinement"@ {
        Some(ReasoningStrategy::StepwiseRefinement)
    } else if name == "parallel_exploration"@ {
        Some(ReasoningStrategy::ParallelExploration { branches: 2 })
    } else if name == "verified_reasoning"@ {
        Some(ReasoningStrategy::VerifiedReasoning)
    } else {
        None
    }
}

/// The strategy a stored name stands for, if any.
pub fn parse_strategy(name: &str) -> (r: Option<ReasoningStrategy>)
    ensures
        r == stored_strategy(name@),
{
    if str_eq(name, "chain_of_thought") {
        Some(ReasoningStrategy::ChainOfThought)
    } else if str_eq(name, "program_of_thought") {
        Some(ReasoningStrategy::ProgramOfThought)
    } else if str_eq(name, "stepwise_refinement") {
        Some(ReasoningStrategy::StepwiseRefinement)
    } else if str_eq(name, "parallel_exploration") {
        Some(ReasoningStrategy::ParallelExploration { branches: 2 })
    } else if str_eq(name, "verified_reasoning") {
        Some(ReasoningStrategy::VerifiedReasoning)
    } else {
        None
    }
}

/// A strategy stored by its name reads back as itself, but for the branch count of
/// parallel exploration, which is not stored and reads back as two.
pub proof fn lemma_stored_strategy_roundtrip(s: ReasoningStrategy)
    ensures
        stored_strategy(strategy_name(s)) == Some(match s {
            ReasoningStrategy::ParallelExploration { .. } => ReasoningStrategy::ParallelExploration { branches: 2 },
            _ => s,
        }),
{
    reveal_strlit("chain_of_thought");
    reveal_strlit("program_of_thought");
    reveal_strlit("stepwise_refinement");
    reveal_strlit("parallel_exploration");
    reveal_strlit("verified_reasoning");
    let a = "chain_of_thought"@;
    let b = "program_of_thought"@;
    let c = "stepwise_refinement"@;
    let d = "parallel_exploration"@;
    let e = "verified_reasoning"@;
    assert(a.len() == 16 && b.len() == 18 && c.len() == 19 && d.len() == 20 && e.len() == 18);
    assert(e[0] != b[0]);
    assert(a != b && a != c && a != d && a != e && b != c && b != d && b != e && c != d && c != e && d != e);
}

/// Whether `key` is the key of a claim kind.
pub open spec fn known_claim_key(key: Seq<char>) -> bool {
    ||| key == "compiles"@
    ||| key == "tests_pass"@
    ||| key == "file_contains"@
    ||| key == "api_returns"@
    ||| key == "command_succeeds"@
    ||| key == "type_checks"@
    ||| key == "lint_passes"@
}

/// The claim kind stored under `key`, with empty details (an expected status of 200
/// for API claims); an unknown key reads as a command claim.
pub fn claim_type_for_key(key: &str) -> (r: ClaimType)
    ensures
        known_claim_key(key@) ==> claim_type_key(r)@ == key@,
        !known_claim_key(key@) ==> (r matches ClaimType::CommandSucceeds { command } && command@.len() == 0),
        r matches ClaimType::Compiles { files } ==> files@.len() == 0,
        r matches ClaimType::TestsPass { test_pattern } ==> test_pattern@.len() == 0,
        r matches ClaimType::FileContains { path, pattern } ==> path@.len() == 0 && pattern@.len() == 0,
        r matches ClaimType::ApiReturns { endpoint, expected_status } ==> endpoint@.len() == 0 && expected_status == 200,
        r matches ClaimType::CommandSucceeds { command } ==> command@.len() == 0,
        r matches ClaimType::TypeChecks { files } ==> files@.len() == 0,
        r matches ClaimType::LintPasses { files } ==> files@.len() == 0,
{
    proof {
        reveal_strlit("compiles");
        reveal_strlit("tests_pass");
        reveal_strlit("file_contains");
        reveal_strlit("api_returns");
        reveal_strlit("command_succeeds");
        reveal_strlit("type_checks");
        reveal_strlit("lint_passes");
    }
    if str_eq(key, "compiles") {
        ClaimType::Compiles { files: Vec::new() }
    } else if str_eq(key, "tests_pass") {
        ClaimType::TestsPass { test_pattern: String::new() }
    } else if str_eq(key, "file_contains") {
        ClaimType::FileContains { path: String::new(), pattern: String::new() }
    } else if str_eq(key, "api_returns") {
        ClaimType::ApiReturns { endpoint: String::new(), expected_status: 200 }
    } else if str_eq(key, "command_succeeds") {
        ClaimType::CommandSucceeds { command: String::new() }
    } else if str_eq(key, "type_checks") {
        ClaimType::TypeChecks { files: Vec::new() }
    } else if str_eq(key, "lint_passes") {
        ClaimType::LintPasses { files: Vec::new() }
    } else {
        ClaimType::CommandSucceeds { command: String::new() }
    }
}

/// The key of every claim kind is a known key, so a stored claim reads back with
/// the kind it was stored with.
pub proof fn lemma_claim_keys_known(t: ClaimType)
    ensures
        known_claim_key(claim_type_key(t)@),
{
}

/// The source rebuilt from a stored kind and identifier: a task, verification or
/// conversation when the kind names one and an identifier is there, else manual.
pub open spec fn stored_memory_source(kind: Seq<char>, id: Option<String>) -> MemorySource {
    match id {
        Some(x) => if kind == "task"@ {
            MemorySource::Task { task_id: x }
        } else if kind == "verification"@ {
            MemorySource::Verification { verification_id: x }
        } else if kind == "conversation"@ {
            MemorySource::Conversation { conversation_id: x }
        } else {
            MemorySource::Manual
        },
        None => MemorySource::Manual,
    }
}

/// The identifier a source is stored with.
pub open spec fn stored_source_id(s: MemorySource) -> Option<String> {
    match s {
        MemorySource::Task { task_id } => Some(task_id),
        MemorySource::Verification { verification_id } => Some(verification_id),
        MemorySource::Conversation { conversation_id } => Some(conversation_id),
        MemorySource::Manual => None,
    }
}

/// The memory source a stored kind and identifier stand for.
pub fn memory_source_from_parts(kind: &str, id: Option<String>) -> (r: MemorySource)
    ensures
        r == stored_memory_source(kind@, id),
{
    match id {
        Some(x) => {
            if str_eq(kind, "task") {
                MemorySource::Task { task_id: x }
            } else if str_eq(kind, "verification") {
                MemorySource::Verification { verification_id: x }
            } else if str_eq(kind, "conversation") {
                MemorySource::Conversation { conversation_id: x }
            } else {
                MemorySource::Manual
            }
        },
        None => MemorySource::Manual,
    }
}

/// A source stored by its kind and identifier reads back as itself.
pub proof fn lemma_memory_source_roundtrip(s: MemorySource)
    ensures
        stored_memory_source(source_type_name(s)@, stored_source_id(s)) == s,
{
    reveal_strlit("task");
    reveal_strlit("verification");
    reveal_strlit("conversation");
    assert("verification"@[0] != "conversation"@[0]);
}

/// Strategy statistics from stored columns; each count and average is cut to its
/// width as an `as` cast does.
pub fn performance_from_columns(
    attempts: i64,
    successes: i64,
    avg_duration_ms: Option<i64>,
    avg_tokens_used: Option<i64>,
) -> (p: PerformanceStats)
    ensures
        p.attempts == attempts as u32,
        p.successes == successes as u32,
        p.avg_duration_ms == (match avg_duration_ms { Some(v) => Some(v as u64), None => None::<u64> }),
        p.avg_tokens_used == (match avg_tokens_used { Some(v) => Some(v as u64), None => None::<u64> }),
{
    let d = match avg_duration_ms {
        Some(v) => Some(v as u64),
        None => None,
    };
    let t = match avg_tokens_used {
        Some(v) => Some(v as u64),
        None => None,
    };
    PerformanceStats { attempts: attempts as u32, successes: successes as u32, avg_duration_ms: d, avg_tokens_used: t }
}

/// Declaration of the error type of `chrono`'s parsers.
#[verifier::external_type_specification]
#[verifier::external_body]
pub struct ExChronoParseError(chrono::ParseError);

/// The instant that the RFC 3339 text `t` stands for, as
/// `chrono::DateTime::parse_from_rfc3339` reads it: its whole seconds since the Unix
/// epoch and its nanoseconds within the second, as `timestamp` and
/// `timestamp_subsec_nanos` report them; `None` when the text is not valid RFC 3339.
pub uninterp spec fn rfc3339_instant(t: Seq<char>) -> Option<(i64, u32)>;

/// The seconds and nanoseconds of a parsed instant.
pub open spec fn instant_of(v: Option<(i64, u32)>) -> Option<Timestamp> {
    match v {
        Some(t) => Some(Timestamp { secs: t.0, nanos: t.1 }),
        None => None,
    }
}

/// Calls `chrono::DateTime::parse_from_rfc3339` and reads the instant's seconds and
/// sub-second nanoseconds. Claims that the result is
/// `rfc3339_instant(t@)`, and that an error comes exactly when that is `None`.
#[verifier::external_body]
fn parse_rfc3339(t: &str) -> (r: Result<(i64, u32), chrono::ParseError>)
    ensures
        r is Ok <==> rfc3339_instant(t@) is Some,
        r matches Ok(v) ==> rfc3339_instant(t@) == Some(v),
{
    match chrono::DateTime::parse_from_rfc3339(t) {
        Ok(d) => Ok((d.timestamp(), d.timestamp_subsec_nanos())),
        Err(e) => Err(e),
    }
}

/// Reads a stored RFC 3339 timestamp: its seconds since the Unix epoch and its
/// nanoseconds within the second, or the parser's error.
pub fn parse_stored_time(t: &str) -> (r: Result<(i64, u32), chrono::ParseError>)
    ensures
        r is Ok <==> rfc3339_instant(t@) is Some,
        r matches Ok(v) ==> rfc3339_instant(t@) == Some(v),
{
    parse_rfc3339(t)
}

/// Which column of a stored completion could not be read.
#[derive(Debug)]
pub enum ColumnError {
    /// The task identifier.
    TaskId,
    /// The worker identifier.
    WorkerId,
    /// The completion time, with the parser's error.
    CompletedAt(chrono::ParseError),
}

/// A completion rebuilt from its stored columns: the identifiers and the time are
/// read from their text (the task first, then the worker, then the time), the other
/// columns are taken as they come; the stored completion keeps no context snapshot
/// and no unblocked tasks.
pub fn completion_from_columns(
    task_id: &str,
    worker_id: &str,
    completed_at: &str,
    duration_ms: i64,
    output: TaskOutput,
    changes: Vec<FileChange>,
    commit_sha: Option<String>,
    verifications: Vec<VerificationResult>,
) -> (r: Result<TaskCompletion, ColumnError>)
    ensures
        TaskId::parse_spec(task_id@) is None ==> r matches Err(ColumnError::TaskId),
        TaskId::parse_spec(task_id@) is Some && WorkerId::parse_spec(worker_id@) is None
            ==> r matches Err(ColumnError::WorkerId),
        TaskId::parse_spec(task_id@) is Some && WorkerId::parse_spec(worker_id@) is Some
            && rfc3339_instant(completed_at@) is None ==> r matches Err(ColumnError::CompletedAt(_)),
        TaskId::parse_spec(task_id@) is Some && WorkerId::parse_spec(worker_id@) is Some
            && rfc3339_instant(completed_at@) is Some ==> (r matches Ok(c)
            && TaskId::parse_spec(task_id@) == Some(c.task_id)
            && WorkerId::parse_spec(worker_id@) == Some(c.worker_id)
            && instant_of(rfc3339_instant(completed_at@)) == Some(c.completed_at)
            && c.duration_ms == duration_ms as u64
            && c.output == output
            && c.changes == changes
            && c.commit_sha == commit_sha
            && c.verifications == verifications
            && c.context_snapshot.items@.len() == 0
            && c.context_snapshot.git_sha is None
            && c.context_snapshot.captured_at is None
            && c.context_snapshot.planner_id is None
            && c.unblocked_tasks@.len() == 0),
{
    let task = match TaskId::parse(task_id) {
        Ok(t) => t,
        Err(_) => return Err(ColumnError::TaskId),
    };
    let worker = match WorkerId::parse(worker_id) {
        Ok(w) => w,
        Err(_) => return Err(ColumnError::WorkerId),
    };
    let time = match parse_rfc3339(completed_at) {
        Ok(v) => v,
        Err(e) => return Err(ColumnError::CompletedAt(e)),
    };
    Ok(TaskCompletion {
        task_id: task,
        worker_id: worker,
        completed_at: Timestamp { secs: time.0, nanos: time.1 },
        duration_ms: duration_ms as u64,
        output,
        changes,
        commit_sha,
        verifications,
        context_snapshot: ContextSnapshot::default(),
        unblocked_tasks: Vec::new(),
    })
}

} // verus!
