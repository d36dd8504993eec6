use std::time::Duration;

use loom::claims::{Claim, ClaimType, FeedbackSummary, VerificationResult};
use loom::context_error::ContextError;
use loom::core_error::ContextError as StoreError;
use loom::drift::{CorrectionAction, CorrectionReport};
use loom::ids::{ContextSnapshotId, DriftSignalId, MemoryId, OrgId, VerificationId};
use loom::memory::{MemoryContent, MemorySource, MemoryType};
use loom::resource::{ResourceBudget, ResourceUsage, ResourceWarnings};
use loom::strategy::{PerformanceStats, ReasoningStrategy, TaskType};

#[test]
fn memory_id_roundtrip() {
    let id = MemoryId::new();
    let s = id.to_string();
    let parsed: MemoryId = s.parse().unwrap();
    assert_eq!(id, parsed);
}

#[test]
fn context_snapshot_id_roundtrip() {
    let id = ContextSnapshotId::new();
    let s = id.to_string();
    let parsed: ContextSnapshotId = s.parse().unwrap();
    assert_eq!(id, parsed);
}

#[test]
fn verification_id_roundtrip() {
    let id = VerificationId::new();
    let s = id.to_string();
    let parsed: VerificationId = s.parse().unwrap();
    assert_eq!(id, parsed);
}

#[test]
fn drift_signal_id_roundtrip() {
    let id = DriftSignalId::new();
    let s = id.to_string();
    let parsed: DriftSignalId = s.parse().unwrap();
    assert_eq!(id, parsed);
}

#[test]
fn context_ids_print_as_bare_uuid() {
    let id = MemoryId(0x0123_4567_89ab_cdef_0123_4567_89ab_cdef);
    assert_eq!(id.to_string(), "01234567-89ab-cdef-0123-456789abcdef");
    assert!(MemoryId::parse("not-a-uuid").is_err());
}

#[test]
fn default_budget_values() {
    let budget = ResourceBudget::default();
    assert_eq!(budget.max_context_tokens, 128_000);
    assert_eq!(budget.max_operation_tokens, 16_000);
    assert_eq!(budget.max_task_duration, Duration::from_secs(1800));
    assert_eq!(budget.max_reasoning_steps, 25);
    assert_eq!(budget.max_retries, 3);
    assert_eq!(budget.max_memory_items, 1000);
}

#[test]
fn budget_builders_set_one_limit_each() {
    let budget = ResourceBudget::new()
        .with_max_context_tokens(1000)
        .with_max_operation_tokens(200)
        .with_max_task_duration(Duration::from_secs(60))
        .with_max_reasoning_steps(7)
        .with_max_retries(1)
        .with_max_memory_items(9);
    assert_eq!(budget.max_context_tokens, 1000);
    assert_eq!(budget.max_operation_tokens, 200);
    assert_eq!(budget.max_task_duration, Duration::from_secs(60));
    assert_eq!(budget.max_reasoning_steps, 7);
    assert_eq!(budget.max_retries, 1);
    assert_eq!(budget.max_memory_items, 9);
}

#[test]
fn resource_remaining_calculation() {
    let budget = ResourceBudget::default();
    let mut usage = ResourceUsage::new();
    usage.context_tokens = 50_000;
    usage.reasoning_steps = 10;
    usage.retries = 1;

    let remaining = usage.remaining(&budget);
    assert_eq!(remaining.context_tokens, 78_000);
    assert_eq!(remaining.reasoning_steps, 15);
    assert_eq!(remaining.retries, 2);
}

#[test]
fn remaining_saturates_at_zero() {
    let budget = ResourceBudget::default();
    let mut usage = ResourceUsage::new();
    usage.set_context_tokens(200_000);
    usage.set_task_elapsed(Duration::from_secs(4000));
    usage.reasoning_steps = 30;
    usage.retries = 5;
    usage.set_memory_items(2000);
    let remaining = usage.remaining(&budget);
    assert_eq!(remaining.context_tokens, 0);
    assert_eq!(remaining.task_time, Duration::ZERO);
    assert_eq!(remaining.reasoning_steps, 0);
    assert_eq!(remaining.retries, 0);
    assert!(remaining.all_exhausted());
}

#[test]
fn one_exhausted_resource_is_not_all() {
    let budget = ResourceBudget::default();
    let mut usage = ResourceUsage::new();
    usage.set_context_tokens(200_000);
    let remaining = usage.remaining(&budget);
    assert_eq!(remaining.context_tokens, 0);
    assert!(!remaining.all_exhausted());
}

#[test]
fn resource_usage_tracking() {
    let mut usage = ResourceUsage::new();
    assert_eq!(usage.reasoning_steps, 0);

    usage.record_step();
    usage.record_step();
    assert_eq!(usage.reasoning_steps, 2);

    usage.record_retry();
    assert_eq!(usage.retries, 1);
}

#[test]
fn warnings_list_active_pressures() {
    let none = ResourceWarnings::default();
    assert!(none.none());
    assert!(!none.any());
    assert!(none.active_warnings().is_empty());
    let w = ResourceWarnings { context_pressure: true, time_pressure: false, step_pressure: true, memory_pressure: false };
    assert!(w.any());
    assert_eq!(w.active_warnings(), vec!["context_pressure", "step_pressure"]);
}

#[test]
fn reasoning_strategy_properties() {
    let cot = ReasoningStrategy::ChainOfThought;
    assert_eq!(cot.name(), "chain_of_thought");
    assert!(!cot.requires_execution());
    assert_eq!(cot.resource_cost(), 1);

    let pot = ReasoningStrategy::ProgramOfThought;
    assert!(pot.requires_execution());

    let parallel = ReasoningStrategy::ParallelExploration { branches: 3 };
    assert!(parallel.resource_cost() > cot.resource_cost());
}

#[test]
fn parallel_cost_grows_with_branches() {
    assert_eq!(ReasoningStrategy::ParallelExploration { branches: 1 }.resource_cost(), 3);
    assert_eq!(ReasoningStrategy::ParallelExploration { branches: 3 }.resource_cost(), 5);
    assert_eq!(ReasoningStrategy::ParallelExploration { branches: 9 }.resource_cost(), 5);
    assert_eq!(ReasoningStrategy::VerifiedReasoning.resource_cost(), 4);
}

#[test]
fn task_type_default_strategies() {
    assert_eq!(TaskType::BugFix.default_strategy(), ReasoningStrategy::VerifiedReasoning);
    assert_eq!(TaskType::Feature.default_strategy(), ReasoningStrategy::StepwiseRefinement);
    assert_eq!(TaskType::Refactor.default_strategy(), ReasoningStrategy::ProgramOfThought);
}

#[test]
fn task_type_roundtrip() {
    for tt in [
        TaskType::BugFix,
        TaskType::Feature,
        TaskType::Refactor,
        TaskType::Test,
        TaskType::Exploration,
        TaskType::Documentation,
        TaskType::Configuration,
        TaskType::Unknown,
    ] {
        let s = tt.name();
        let parsed: TaskType = s.parse().unwrap();
        assert_eq!(tt, parsed);
    }
}

#[test]
fn task_type_unknown_name_is_an_error() {
    assert_eq!(TaskType::parse("chores").unwrap_err(), "unknown task type: chores");
}

#[test]
fn performance_stats_recording() {
    let mut stats = PerformanceStats::new();
    assert_eq!(stats.attempts, 0);
    assert_eq!(stats.successes, 0);

    stats.record(true, 1000, 500);
    assert_eq!(stats.attempts, 1);
    assert_eq!(stats.successes, 1);
    assert_eq!(stats.avg_duration_ms, Some(1000));

    stats.record(false, 2000, 1000);
    assert_eq!(stats.attempts, 2);
    assert_eq!(stats.successes, 1);
    assert!((stats.successes as f64 / stats.attempts as f64 - 0.5).abs() < f64::EPSILON);
    assert_eq!(stats.avg_duration_ms, Some(1500));
    assert_eq!(stats.avg_tokens_used, Some(750));
}

#[test]
fn memory_type_roundtrip() {
    for mt in [MemoryType::Working, MemoryType::ShortTerm, MemoryType::LongTerm, MemoryType::Episodic] {
        let s = mt.to_string();
        let parsed: MemoryType = s.parse().unwrap();
        assert_eq!(mt, parsed);
    }
    assert_eq!(MemoryType::parse("forever").unwrap_err(), "unknown memory type: forever");
}

#[test]
fn memory_content_and_source_kinds() {
    let content = MemoryContent::CodePattern {
        pattern: "p".to_string(),
        example: "e".to_string(),
        applicability: "a".to_string(),
    };
    assert_eq!(content.content_type(), "code_pattern");
    let k = MemoryContent::CodebaseKnowledge { path: "src".to_string(), summary: "s".to_string(), key_concepts: vec![] };
    assert_eq!(k.content_type(), "codebase_knowledge");
    let src = MemorySource::Task { task_id: "t-1".to_string() };
    assert_eq!(src.source_type(), "task");
    assert_eq!(src.source_id(), Some("t-1"));
    assert_eq!(MemorySource::Manual.source_type(), "manual");
    assert_eq!(MemorySource::Manual.source_id(), None);
}

#[test]
fn claim_creation() {
    let claim = Claim::new(
        "code compiles",
        ClaimType::Compiles { files: vec!["src/main.rs".to_string()] },
    )
    .with_evidence("checked with cargo build");
    assert_eq!(claim.assertion, "code compiles");
    assert_eq!(claim.evidence.len(), 1);
    assert_eq!(claim.claim_type.type_key(), "compiles");
}

#[test]
fn claim_evidences_keep_order() {
    let claim = Claim::new("tests pass", ClaimType::TestsPass { test_pattern: "t".to_string() })
        .with_evidence("first")
        .with_evidences(vec!["second".to_string(), "third".to_string()]);
    assert_eq!(claim.evidence, vec!["first", "second", "third"]);
    assert_eq!(claim.claim_type.type_key(), "tests_pass");
}

#[test]
fn verification_result_success() {
    let org_id = OrgId::new();
    let claim = Claim::new("tests pass", ClaimType::TestsPass { test_pattern: "test_*".to_string() });
    let result = VerificationResult::success(org_id, claim, "10 tests passed", Duration::from_secs(5));
    assert!(result.passed);
    assert_eq!(result.output, "10 tests passed");
}

#[test]
fn verification_result_failure() {
    let org_id = OrgId::new();
    let claim = Claim::new("command succeeds", ClaimType::CommandSucceeds { command: "exit 1".to_string() });
    let result = VerificationResult::failure(org_id, claim, "exit code 1", Duration::from_millis(100));
    assert!(!result.passed);
    let tied = result.with_task_id("task-9");
    assert_eq!(tied.task_id.as_deref(), Some("task-9"));
}

#[test]
fn feedback_summary_rates() {
    let mut summary = FeedbackSummary::default();
    summary.passed = 8;
    summary.failed = 2;
    assert_eq!(summary.total(), 10);
}

#[test]
fn feedback_summary_empty() {
    let summary = FeedbackSummary::default();
    assert_eq!(summary.total(), 0);
}

#[test]
fn correction_action_types() {
    let actions = vec![
        CorrectionAction::RefreshedContext,
        CorrectionAction::ForcedExploration { areas: vec!["test".to_string()] },
        CorrectionAction::PromptInjection { prompt: "test".to_string() },
        CorrectionAction::FreshApproach { approach: "test".to_string() },
        CorrectionAction::ResolvedContradiction { resolution: "test".to_string() },
        CorrectionAction::Escalated { reason: "test".to_string() },
    ];
    for action in actions {
        assert!(!action.action_type().is_empty());
    }
    assert_eq!(CorrectionAction::RefreshedContext.action_type(), "refreshed_context");
}

#[test]
fn correction_report_collects_in_order() {
    let mut report = CorrectionReport::new();
    assert!(!report.success);
    report.add_note("first");
    report.add_action(CorrectionAction::RefreshedContext);
    report.add_note("second");
    report.mark_success();
    assert!(report.success);
    assert_eq!(report.notes, vec!["first", "second"]);
    assert_eq!(report.actions.len(), 1);
}

#[test]
fn store_errors_map_onto_logic_errors() {
    let e: ContextError = StoreError::VerificationNotFound("v".to_string()).into();
    assert_eq!(e, ContextError::VerificationFailed("v".to_string()));
    let e: ContextError = StoreError::DriftSignalNotFound("d".to_string()).into();
    assert_eq!(e, ContextError::DriftError("d".to_string()));
    let e: ContextError = StoreError::MemoryNotFound("m".to_string()).into();
    assert_eq!(e, ContextError::MemoryNotFound("m".to_string()));
}
