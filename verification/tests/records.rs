use loom::api::{check_create_project, CreateProjectRequest};
use loom::claims::ClaimType;
use loom::memory::MemorySource;
use loom::records::{claim_type_for_key, memory_source_from_parts, parse_strategy, performance_from_columns};
use loom::strategy::ReasoningStrategy;

#[test]
fn stored_strategy_names_read_back() {
    for s in [
        ReasoningStrategy::ChainOfThought,
        ReasoningStrategy::ProgramOfThought,
        ReasoningStrategy::StepwiseRefinement,
        ReasoningStrategy::VerifiedReasoning,
    ] {
        assert_eq!(parse_strategy(s.name()), Some(s));
    }
    assert_eq!(
        parse_strategy(ReasoningStrategy::ParallelExploration { branches: 5 }.name()),
        Some(ReasoningStrategy::ParallelExploration { branches: 2 })
    );
    assert_eq!(parse_strategy("unknown"), None);
    assert_eq!(parse_strategy(""), None);
}

#[test]
fn claim_kinds_read_back_from_keys() {
    for key in ["compiles", "tests_pass", "file_contains", "api_returns", "command_succeeds", "type_checks", "lint_passes"] {
        assert_eq!(claim_type_for_key(key).type_key(), key);
    }
    match claim_type_for_key("api_returns") {
        ClaimType::ApiReturns { endpoint, expected_status } => {
            assert!(endpoint.is_empty());
            assert_eq!(expected_status, 200);
        }
        _ => panic!("expected an API claim"),
    }
    match claim_type_for_key("mystery") {
        ClaimType::CommandSucceeds { command } => assert!(command.is_empty()),
        _ => panic!("expected a command claim"),
    }
}

#[test]
fn memory_sources_read_back() {
    let sources = vec![
        MemorySource::Task { task_id: "t1".to_string() },
        MemorySource::Verification { verification_id: "v1".to_string() },
        MemorySource::Conversation { conversation_id: "c1".to_string() },
        MemorySource::Manual,
    ];
    for s in sources {
        let back = memory_source_from_parts(s.source_type(), s.source_id().map(|x| x.to_string()));
        assert_eq!(back, s);
    }
    assert_eq!(memory_source_from_parts("task", None), MemorySource::Manual);
    assert_eq!(memory_source_from_parts("other", Some("x".to_string())), MemorySource::Manual);
}

#[test]
fn statistics_from_columns() {
    let p = performance_from_columns(10, 7, Some(1500), None);
    assert_eq!(p.attempts, 10);
    assert_eq!(p.successes, 7);
    assert_eq!(p.avg_duration_ms, Some(1500));
    assert_eq!(p.avg_tokens_used, None);
    let wide = performance_from_columns((1i64 << 32) + 3, -1, Some(-1), Some(42));
    assert_eq!(wide.attempts, 3);
    assert_eq!(wide.successes, u32::MAX);
    assert_eq!(wide.avg_duration_ms, Some(u64::MAX));
    assert_eq!(wide.avg_tokens_used, Some(42));
}

#[test]
fn project_requests_need_path_and_goal() {
    let req = |path: &str, goal: &str| CreateProjectRequest { project_path: path.to_string(), goal: goal.to_string(), config: None };
    let e = check_create_project(&req("", "")).unwrap();
    assert_eq!(e.error, "invalid_request");
    assert_eq!(e.message, "Project path is required");
    let e = check_create_project(&req("/repo", "")).unwrap();
    assert_eq!(e.message, "Goal is required");
    assert!(check_create_project(&req("/repo", "ship it")).is_none());
}

#[test]
fn strategy_performance_row_conversion() {
    assert_eq!(parse_strategy("verified_reasoning"), Some(ReasoningStrategy::VerifiedReasoning));
    let stats = performance_from_columns(10, 8, Some(5000), Some(1000));
    assert_eq!(stats.attempts, 10);
    assert_eq!(stats.successes, 8);
    let success_rate = stats.successes as f64 / stats.attempts as f64;
    assert!((success_rate - 0.8).abs() < f64::EPSILON);
}
