use loom::assembly::{compress_content, estimate_tokens, format_memory_content, memory_sections_taken, TokenAccount};
use loom::claims::{Claim, ClaimType};
use loom::context_error::ContextError;
use loom::drift::truncate;
use loom::feedback::{adapt_to_signal, FeedbackSignal, StrategyFeedbackMonitor};
use loom::ids::OrgId;
use loom::memory::MemoryContent;
use loom::prompt::{ResourceAwarePromptBuilder, StrategyPromptBuilder, TaskClassifier};
use loom::resource::{ResourceBudget, ResourceUsage, ResourceWarnings};
use loom::strategy::{ReasoningStrategy, TaskType};
use loom::verifiers::{CommandVerifier, CompileVerifier, FileContainsVerifier, TestVerifier};

fn no_warnings() -> ResourceWarnings {
    ResourceWarnings { context_pressure: false, time_pressure: false, step_pressure: false, memory_pressure: false }
}

#[test]
fn estimate_tokens_basic() {
    assert_eq!(estimate_tokens("test"), 1);
    assert_eq!(estimate_tokens("hello world"), 2);
    assert_eq!(estimate_tokens("a".repeat(100).as_str()), 25);
}

#[test]
fn estimate_tokens_counts_bytes() {
    assert_eq!(estimate_tokens(""), 1);
    assert_eq!(estimate_tokens("ééé"), 1);
    assert_eq!(estimate_tokens("éééé"), 2);
}

#[test]
fn compress_content_short() {
    let short = "short content";
    assert_eq!(compress_content(short), short);
}

#[test]
fn compress_content_long() {
    let long = "a".repeat(3000);
    let compressed = compress_content(&long);
    assert!(compressed.len() < long.len());
    assert!(compressed.ends_with("...[truncated]"));
    assert_eq!(compressed.len(), 2000 + "...[truncated]".len());
}

#[test]
fn truncate_function() {
    assert_eq!(truncate("short", 10), "short");
    assert_eq!(truncate("this is a long string", 10), "this is...");
}

#[test]
fn truncate_below_ellipsis_length() {
    assert_eq!(truncate("abcdef", 2), "..");
    assert_eq!(truncate("abcdef", 1), ".");
    assert_eq!(truncate("abcdef", 0), "");
    assert_eq!(truncate("abcd", 3), "...");
    assert_eq!(truncate("abcdef", 6), "abcdef");
}

#[test]
fn memory_content_rendering() {
    let d = MemoryContent::Decision {
        context: "c".to_string(),
        decision: "d".to_string(),
        rationale: "r".to_string(),
        alternatives_considered: vec!["x".to_string(), "y".to_string()],
    };
    assert_eq!(format_memory_content(&d), "**Context**: c\n**Decision**: d\n**Rationale**: r\n**Alternatives**: x, y");
    let e = MemoryContent::ErrorResolution {
        error_pattern: "E".to_string(),
        root_cause: "R".to_string(),
        solution: "S".to_string(),
    };
    assert_eq!(format_memory_content(&e), "**Error**: E\n**Root Cause**: R\n**Solution**: S");
    let k = MemoryContent::CodebaseKnowledge {
        path: "src/lib.rs".to_string(),
        summary: "root".to_string(),
        key_concepts: vec![],
    };
    assert_eq!(format_memory_content(&k), "**Path**: src/lib.rs\n**Summary**: root");
}

#[test]
fn strategy_prompt_builder_sections() {
    let builder = StrategyPromptBuilder::new();
    for strategy in [
        ReasoningStrategy::ChainOfThought,
        ReasoningStrategy::ProgramOfThought,
        ReasoningStrategy::StepwiseRefinement,
        ReasoningStrategy::ParallelExploration { branches: 3 },
        ReasoningStrategy::VerifiedReasoning,
    ] {
        let section = builder.build_strategy_section(&strategy);
        assert!(section.contains("Reasoning Strategy"));
        assert!(section.contains("Guidelines"));
        assert!(section.contains(strategy.name()));
    }
}

#[test]
fn strategy_section_names_cost_and_branches() {
    let builder = StrategyPromptBuilder::new();
    let section = builder.build_strategy_section(&ReasoningStrategy::ParallelExploration { branches: 3 });
    assert!(section.contains("(resource cost: 5)"));
    assert!(section.contains("1. Consider up to 3 different approaches in parallel"));
}

#[test]
fn strategy_prompt_builder_compact_hints() {
    let builder = StrategyPromptBuilder::new();

    let hint = builder.build_compact_hint(&ReasoningStrategy::ChainOfThought);
    assert!(hint.contains("Strategy"));
    assert!(hint.contains("Single-pass"));

    let hint = builder.build_compact_hint(&ReasoningStrategy::VerifiedReasoning);
    assert!(hint.contains("Verify"));

    let hint = builder.build_compact_hint(&ReasoningStrategy::ParallelExploration { branches: 4 });
    assert_eq!(hint, "[Strategy: Explore 4 approaches. Compare, then commit.]");
}

#[test]
fn task_classification() {
    let classifier = TaskClassifier::new();
    assert_eq!(classifier.classify("fix the login bug"), TaskType::BugFix);
    assert_eq!(classifier.classify("add user authentication"), TaskType::Feature);
    assert_eq!(classifier.classify("refactor the database layer"), TaskType::Refactor);
    assert_eq!(classifier.classify("write tests for the API"), TaskType::Test);
    assert_eq!(classifier.classify("explore the codebase"), TaskType::Exploration);
    assert_eq!(classifier.classify("update the documentation"), TaskType::Documentation);
    assert_eq!(classifier.classify("configure the CI pipeline"), TaskType::Configuration);
    assert_eq!(classifier.classify("do something"), TaskType::Unknown);
}

#[test]
fn classification_ignores_case() {
    let classifier = TaskClassifier::new();
    assert_eq!(classifier.classify("FIX THE CRASH"), TaskType::BugFix);
}

#[test]
fn feedback_monitor_high_failure_rate() {
    let mut monitor = StrategyFeedbackMonitor::new();
    monitor.record_verification(false);
    monitor.record_verification(false);
    monitor.record_verification(false);
    monitor.record_verification(true);

    let (failed, total) = monitor.failure_counts().unwrap();
    assert!((failed as f64 / total as f64 - 0.75).abs() < 0.01);

    let feedback = monitor.check_signals(&no_warnings());
    assert!(feedback.iter().any(|f| matches!(f, FeedbackSignal::HighFailureRate { failed, total } if 2 * failed > *total)));
}

#[test]
fn feedback_monitor_no_progress() {
    let mut monitor = StrategyFeedbackMonitor::new();
    for _ in 0..6 {
        monitor.record_action(vec!["topic".to_string()]);
    }
    let feedback = monitor.check_signals(&no_warnings());
    assert!(feedback.iter().any(|f| matches!(f, FeedbackSignal::NoProgress { .. })));
}

#[test]
fn feedback_monitor_progress_resets() {
    let mut monitor = StrategyFeedbackMonitor::new();
    for _ in 0..4 {
        monitor.record_action(vec!["topic".to_string()]);
    }
    monitor.record_progress();
    let feedback = monitor.check_signals(&no_warnings());
    assert!(!feedback.iter().any(|f| matches!(f, FeedbackSignal::NoProgress { .. })));
}

#[test]
fn feedback_monitor_resource_pressure() {
    let monitor = StrategyFeedbackMonitor::new();
    let warnings = ResourceWarnings { context_pressure: true, time_pressure: false, step_pressure: false, memory_pressure: false };
    let feedback = monitor.check_signals(&warnings);
    assert!(feedback.iter().any(|f| matches!(f, FeedbackSignal::ResourcePressure { resource_type } if *resource_type == "context")));
}

#[test]
fn feedback_monitor_recovery() {
    let mut monitor = StrategyFeedbackMonitor::new();
    monitor.record_verification(true);
    monitor.record_verification(false);
    monitor.record_verification(false);
    monitor.record_verification(true);
    monitor.record_verification(true);
    monitor.record_verification(true);
    let feedback = monitor.check_signals(&no_warnings());
    assert!(feedback.iter().any(|f| matches!(f, FeedbackSignal::RecoveredFromFailure)));
}

#[test]
fn feedback_monitor_complexity() {
    let mut monitor = StrategyFeedbackMonitor::new();
    for i in 0..10 {
        monitor.record_action(vec![format!("topic_{}", i)]);
    }
    let (topics, actions) = monitor.complexity_counts().unwrap();
    let score = (topics as f64 / actions as f64 * 2.0).min(1.0);
    assert!(score > 0.5);
    assert_eq!((topics, actions), (10, 10));
}

#[test]
fn feedback_monitor_reset() {
    let mut monitor = StrategyFeedbackMonitor::new();
    monitor.record_verification(false);
    monitor.record_action(vec!["topic".to_string()]);
    assert!(!monitor.recent_verifications().is_empty());
    monitor.reset();
    assert!(monitor.recent_verifications().is_empty());
    assert_eq!(monitor.action_count(), 0);
}

#[test]
fn monitor_windows_stay_bounded_and_distinct() {
    let mut monitor = StrategyFeedbackMonitor::new();
    for i in 0..30 {
        monitor.record_verification(i % 2 == 0);
    }
    assert_eq!(monitor.recent_verifications().len(), 20);
    for i in 0..60 {
        monitor.record_action(vec![format!("t{}", i % 55), format!("t{}", i % 55)]);
    }
    assert_eq!(monitor.topic_count(), 50);
    assert_eq!(monitor.action_count(), 60);
}

#[test]
fn fresh_monitor_gives_no_signal() {
    let monitor = StrategyFeedbackMonitor::default();
    assert!(monitor.check_signals(&no_warnings()).is_empty());
    assert_eq!(monitor.failure_counts(), None);
    assert_eq!(monitor.complexity_counts(), None);
}

#[test]
fn adaptation_follows_signals() {
    let failing = FeedbackSignal::HighFailureRate { failed: 3, total: 4 };
    assert_eq!(adapt_to_signal(&ReasoningStrategy::ChainOfThought, &failing), Some(ReasoningStrategy::VerifiedReasoning));
    let stuck = FeedbackSignal::NoProgress { steps_without_progress: 5 };
    assert_eq!(
        adapt_to_signal(&ReasoningStrategy::StepwiseRefinement, &stuck),
        Some(ReasoningStrategy::ParallelExploration { branches: 2 })
    );
    let pressure = FeedbackSignal::ResourcePressure { resource_type: "time" };
    assert_eq!(adapt_to_signal(&ReasoningStrategy::VerifiedReasoning, &pressure), Some(ReasoningStrategy::ChainOfThought));
    assert_eq!(adapt_to_signal(&ReasoningStrategy::ChainOfThought, &FeedbackSignal::RecoveredFromFailure), None);
    assert_eq!(stuck.feedback_type(), "no_progress");
}

#[test]
fn suggested_actions_follow_warnings() {
    assert_eq!(ResourceAwarePromptBuilder::suggested_action_for(&no_warnings()), None);
    let ctx = ResourceWarnings { context_pressure: true, time_pressure: false, step_pressure: false, memory_pressure: false };
    assert_eq!(
        ResourceAwarePromptBuilder::suggested_action_for(&ctx),
        Some("Summarize context and remove low-relevance information")
    );
    let both = ResourceWarnings { context_pressure: true, time_pressure: true, step_pressure: false, memory_pressure: false };
    assert!(ResourceAwarePromptBuilder::suggested_action_for(&both).unwrap().contains("CRITICAL"));
}

#[test]
fn warnings_section_lists_pressures() {
    assert_eq!(ResourceAwarePromptBuilder::warnings_section(&no_warnings()), "");
    let w = ResourceWarnings { context_pressure: true, time_pressure: false, step_pressure: false, memory_pressure: true };
    let s = ResourceAwarePromptBuilder::warnings_section(&w);
    assert!(s.contains("Resource Warnings"));
    assert!(s.contains("Context window near capacity"));
    assert!(s.contains("Memory limit approaching"));
    assert!(!s.contains("Task time limit"));
    let builder = ResourceAwarePromptBuilder::new(ResourceBudget::default(), ResourceUsage::new());
    assert_eq!(builder.budget().max_retries, 3);
    assert_eq!(builder.usage().retries, 0);
}

#[test]
fn placeholder_verifiers_report_success() {
    let org = OrgId::new();
    let cmd = Claim::new("runs", ClaimType::CommandSucceeds { command: "echo hello".to_string() });
    let r = CommandVerifier.verify(&cmd, org).unwrap();
    assert!(r.passed);
    assert_eq!(r.output, "Command verification placeholder: echo hello");
    let compile = Claim::new("compiles", ClaimType::Compiles { files: vec!["a.rs".to_string(), "b.rs".to_string()] });
    let r = CompileVerifier.verify(&compile, org).unwrap();
    assert_eq!(r.output, "Compile verification placeholder for 2 files");
    let tests = Claim::new("tests", ClaimType::TestsPass { test_pattern: "test_*".to_string() });
    let r = TestVerifier.verify(&tests, org).unwrap();
    assert_eq!(r.output, "Test verification placeholder for pattern: test_*");
    assert_eq!(CompileVerifier.handles(), vec!["compiles", "type_checks", "lint_passes"]);
}

#[test]
fn compile_verifier_handles_every_kind_it_lists() {
    let org = OrgId::new();
    let typed = Claim::new("types", ClaimType::TypeChecks { files: vec!["a.rs".to_string()] }).with_evidence("cargo check");
    let r = CompileVerifier.verify(&typed, org).unwrap();
    assert!(r.passed);
    assert_eq!(r.output, "Compile verification placeholder for 1 files");
    assert_eq!(r.claim.assertion, "types");
    assert_eq!(r.claim.evidence, vec!["cargo check".to_string()]);
    assert_eq!(r.claim.claim_type.type_key(), "type_checks");
    let lint = Claim::new("lint", ClaimType::LintPasses { files: vec![] });
    assert_eq!(CompileVerifier.verify(&lint, org).unwrap().output, "Compile verification placeholder for 0 files");
    let cmd = Claim::new("runs", ClaimType::CommandSucceeds { command: "ls".to_string() });
    assert!(CompileVerifier.verify(&cmd, org).is_err());
}

#[test]
fn verifier_rejects_other_claim_kinds() {
    let org = OrgId::new();
    let tests = Claim::new("tests", ClaimType::TestsPass { test_pattern: "x".to_string() });
    assert_eq!(CommandVerifier.verify(&tests, org).unwrap_err(), ContextError::Internal("Invalid claim type".to_string()));
}

#[test]
fn file_verifier_judges_content() {
    let org = OrgId::new();
    let claim = Claim::new(
        "file contains hello",
        ClaimType::FileContains { path: "greeting.txt".to_string(), pattern: "Hello".to_string() },
    );
    let v = FileContainsVerifier;
    let found = v.verify_content(&claim, org, Ok("Hello, World!\n".to_string())).unwrap();
    assert!(found.passed);
    assert_eq!(found.output, "Pattern 'Hello' found in greeting.txt");
    let missing = v.verify_content(&claim, org, Ok("Goodbye\n".to_string())).unwrap();
    assert!(!missing.passed);
    assert_eq!(missing.output, "Pattern 'Hello' not found in greeting.txt");
    let unreadable = v.verify_content(&claim, org, Err("no such file".to_string())).unwrap();
    assert!(!unreadable.passed);
    assert_eq!(unreadable.output, "Failed to read greeting.txt: no such file");
}

#[test]
fn memories_enter_until_one_does_not_fit() {
    let mut account = TokenAccount { total_tokens: 10, budget_remaining: 100 };
    // Budget 50: 20 + 25 fit, the next 10 would pass it.
    assert_eq!(memory_sections_taken(&vec![20, 25, 10, 1], 50, &mut account), 2);
    assert_eq!(account.total_tokens, 55);
    assert_eq!(account.budget_remaining, 55);
    // The context's room ends the run too.
    let mut small = TokenAccount { total_tokens: 0, budget_remaining: 30 };
    assert_eq!(memory_sections_taken(&vec![20, 20], 100, &mut small), 1);
    assert_eq!(small.budget_remaining, 10);
    let mut any = TokenAccount::new(5);
    assert_eq!(memory_sections_taken(&vec![], 5, &mut any), 0);
}

#[test]
fn assembly_budget_keeps_a_response_reserve() {
    assert_eq!(loom::assembly::context_allowance(10_000), 5_904);
    assert_eq!(loom::assembly::context_allowance(4_000), 0);
    assert_eq!(loom::assembly::memory_budget(5_904, 904), 2_500);
    assert_eq!(loom::assembly::memory_budget(100, 200), 0);
}
