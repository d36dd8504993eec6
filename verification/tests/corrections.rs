use loom::clock::Timestamp;
use loom::drift::{correct_cases, correction_for, CorrectionAction, DriftCase};
use loom::ids::{TaskId, WorkerId};
use loom::planning::names_rust_source;
use loom::records::{completion_from_columns, parse_stored_time, ColumnError};
use loom::work::TaskOutput;

#[test]
fn each_drift_case_gets_its_correction() {
    assert!(matches!(correction_for(&DriftCase::HighFailureRate), CorrectionAction::RefreshedContext));
    assert!(matches!(correction_for(&DriftCase::StaleContext), CorrectionAction::RefreshedContext));
    match correction_for(&DriftCase::RepeatedFailures { claim_type: "tests_pass".to_string() }) {
        CorrectionAction::FreshApproach { approach } => {
            assert_eq!(approach, "Consider alternative verification strategy for tests_pass claims")
        }
        _ => panic!("expected a fresh approach"),
    }
    match correction_for(&DriftCase::TunnelVision { neglected: vec!["docs".to_string()] }) {
        CorrectionAction::ForcedExploration { areas } => assert_eq!(areas, vec!["docs".to_string()]),
        _ => panic!("expected forced exploration"),
    }
    match correction_for(&DriftCase::RiskAversion) {
        CorrectionAction::PromptInjection { prompt } => assert!(prompt.starts_with("Consider larger, more impactful changes.")),
        _ => panic!("expected a prompt"),
    }
    match correction_for(&DriftCase::CircularReasoning { pattern: "edit-a.rs".to_string() }) {
        CorrectionAction::FreshApproach { approach } => assert_eq!(
            approach,
            "The agent appears stuck in pattern: 'edit-a.rs'. Consider:\n1. Re-examine the original goal\n2. Try a completely different approach\n3. Break down the problem differently\n4. Check if assumptions are still valid"
        ),
        _ => panic!("expected a fresh approach"),
    }
    let long = "x".repeat(150);
    match correction_for(&DriftCase::Contradiction { claim_a: "A holds".to_string(), claim_b: long }) {
        CorrectionAction::ResolvedContradiction { resolution } => assert_eq!(
            resolution,
            format!(
                "Contradiction detected:\n- Claim A: A holds\n- Claim B: {}...\n\nResolution: Re-verify both claims independently. One or both may be based on stale information.",
                "x".repeat(97)
            )
        ),
        _ => panic!("expected a resolution"),
    }
}

#[test]
fn correction_report_keeps_order_and_notes() {
    let cases = vec![DriftCase::HighFailureRate, DriftCase::RiskAversion];
    let report = correct_cases(&cases, vec!["n1".to_string(), "n2".to_string()]);
    assert_eq!(report.actions.len(), 2);
    assert!(matches!(report.actions[0], CorrectionAction::RefreshedContext));
    assert!(matches!(report.actions[1], CorrectionAction::PromptInjection { .. }));
    assert_eq!(report.notes, vec!["n1".to_string(), "n2".to_string()]);
    assert!(report.success);
    let empty = correct_cases(&vec![], vec![]);
    assert!(empty.actions.is_empty());
    assert!(!empty.success);
}

#[test]
fn rust_sources_by_extension() {
    assert!(names_rust_source("src/lib.rs"));
    assert!(names_rust_source("a.b.rs"));
    assert!(!names_rust_source(".rs"));
    assert!(!names_rust_source("src/rs"));
    assert!(!names_rust_source("README.md"));
    assert!(names_rust_source("src/main.rs/"));
    assert!(names_rust_source("src/main.rs/."));
    assert!(!names_rust_source("src/.rs"));
    assert!(!names_rust_source("src/.."));
    assert!(!names_rust_source("/"));
    assert!(!names_rust_source(""));
    assert!(!names_rust_source("lib.RS"));
}

#[test]
fn stored_times_read_back() {
    let (secs, nanos) = parse_stored_time("2024-01-02T03:04:05.678901+00:00").unwrap();
    assert_eq!(secs, 1_704_164_645);
    assert_eq!(nanos, 678_901_000);
    assert!(parse_stored_time("yesterday").is_err());
}

#[test]
fn completions_read_from_columns() {
    let task = TaskId::new();
    let worker = WorkerId::new();
    let out = TaskOutput::default();
    let c = completion_from_columns(
        &task.to_string(), &worker.to_string(), "2024-01-02T03:04:05.678Z", 42, out, vec![], None, vec![],
    )
    .unwrap();
    assert_eq!(c.task_id, task);
    assert_eq!(c.worker_id, worker);
    assert_eq!(c.completed_at, Timestamp { secs: 1_704_164_645, nanos: 678_000_000 });
    assert_eq!(c.duration_ms, 42);
    assert!(matches!(
        completion_from_columns("bad", &worker.to_string(), "x", 1, TaskOutput::default(), vec![], None, vec![]),
        Err(ColumnError::TaskId)
    ));
    assert!(matches!(
        completion_from_columns(&task.to_string(), "bad", "x", 1, TaskOutput::default(), vec![], None, vec![]),
        Err(ColumnError::WorkerId)
    ));
    assert!(matches!(
        completion_from_columns(&task.to_string(), &worker.to_string(), "x", 1, TaskOutput::default(), vec![], None, vec![]),
        Err(ColumnError::CompletedAt(_))
    ));
}

#[test]
fn history_time_clauses_keep_sub_millisecond_digits() {
    let mut q = loom::history::EventHistoryQuery::default();
    q.since = Some(Timestamp { secs: 1_704_164_645, nanos: 123_456_789 });
    let sql = loom::history::history_select_sql(&q);
    assert!(sql.contains(" AND timestamp >= '2024-01-02T03:04:05.123456789+00:00'"));
    assert!(sql.ends_with(" ORDER BY timestamp ASC LIMIT 100 OFFSET 0"));
}

#[test]
fn drift_notes_and_descriptions() {
    assert_eq!(loom::drift::repeated_failures_note("tests_pass", 4), "Repeated failures on tests_pass: 4 times");
    assert_eq!(loom::drift::circular_reasoning_note("edit a.rs"), "Circular reasoning detected: edit a.rs");
    assert_eq!(
        loom::drift::contradiction_note("x is true", "x is false"),
        "Contradiction detected between claims: 'x is true' vs 'x is false'"
    );
    let long = "a".repeat(60);
    let note = loom::drift::contradiction_note(&long, "b");
    assert_eq!(note, format!("Contradiction detected between claims: '{}...' vs 'b'", "a".repeat(47)));
    assert_eq!(
        loom::drift::repeated_failures_description("compiles", 12),
        "Repeated failures on claim type 'compiles': 12 failures"
    );
    let d = loom::drift::contradiction_description(&"é".repeat(60), "y");
    assert_eq!(d, format!("Contradictory claims: '{}' vs 'y'", "é".repeat(50)));
}

#[test]
fn tunnel_vision_note_lists_neglected_topics() {
    let note = loom::drift::tunnel_vision_note(&vec!["docs".to_string(), "tests".to_string()]);
    assert_eq!(note, "Tunnel vision detected. Neglected areas: [\"docs\", \"tests\"]");
}
