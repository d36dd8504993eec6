use loom::clock::Timestamp;
use loom::events::PlannerEvent;
use loom::ids::{CheckpointId, DomainId, TaskId, WorkerId};
use loom::planning::{
    accepts_suggestion, change_reaction_plans, exploration_plan, follow_up_plans, investigation_plan,
    iteration_plan, next_step_plans, plan_for_event, suggestion_plan, PlannedKind, PlannedTask, PlannerBook,
    PlannerStep, TEST_COVERAGE_PERCENT,
};
use loom::work::{
    ContextSnapshot, FileChange, FileChangeType, TaskCompletion, TaskOutput, TaskSuggestion,
};

fn suggestion(description: &str, priority: i32) -> TaskSuggestion {
    TaskSuggestion {
        description: description.to_string(),
        task_type: "feature".to_string(),
        priority,
        rationale: format!("because {}", description),
    }
}

fn change(path: &str) -> FileChange {
    FileChange { path: path.to_string(), change_type: FileChangeType::Modified, lines_added: 3, lines_removed: 1 }
}

fn finished(suggested: Vec<TaskSuggestion>, changes: Vec<FileChange>) -> TaskCompletion {
    TaskCompletion {
        task_id: TaskId::new(),
        worker_id: WorkerId::new(),
        completed_at: Timestamp { secs: 0, nanos: 0 },
        duration_ms: 10,
        output: TaskOutput {
            summary: "done".to_string(),
            notes: vec![],
            artifacts: vec![],
            suggested_tasks: suggested,
            learnings: vec![],
        },
        changes,
        commit_sha: None,
        verifications: vec![],
        context_snapshot: ContextSnapshot::default(),
        unblocked_tasks: vec![],
    }
}

fn is_test_task(t: &PlannedTask) -> bool {
    matches!(t.kind, PlannedKind::Test { coverage_percent: Some(p) } if p == TEST_COVERAGE_PERCENT)
}

#[test]
fn first_plan_explores_the_domain() {
    let t = exploration_plan("backend");
    assert_eq!(t.description, "Explore backend domain structure");
    match &t.kind {
        PlannedKind::Exploration { questions } => {
            assert_eq!(
                questions,
                &vec![
                    "What are the main components in backend?".to_string(),
                    "What patterns are used?".to_string(),
                    "What are the key dependencies?".to_string(),
                ]
            );
        }
        _ => panic!("expected an exploration"),
    }
    assert_eq!(
        t.specification.requirements,
        vec!["Identify main components", "Document patterns used", "List key dependencies"]
    );
    assert!(t.specification.hints.is_empty());
}

#[test]
fn suggestions_of_negative_priority_are_dropped() {
    assert!(accepts_suggestion(&suggestion("a", 0)));
    assert!(accepts_suggestion(&suggestion("b", 7)));
    assert!(!accepts_suggestion(&suggestion("c", -1)));
}

#[test]
fn suggestion_becomes_feature() {
    let t = suggestion_plan(&suggestion("Add caching", 2));
    assert_eq!(t.description, "Add caching");
    match &t.kind {
        PlannedKind::Feature { acceptance_criteria } => assert_eq!(acceptance_criteria, &vec!["Add caching".to_string()]),
        _ => panic!("expected a feature"),
    }
    assert_eq!(t.specification.requirements, vec!["Add caching"]);
    assert_eq!(t.specification.hints, vec!["because Add caching"]);
}

#[test]
fn next_steps_keep_accepted_suggestions_in_order() {
    let c = finished(
        vec![suggestion("first", 1), suggestion("dropped", -5), suggestion("second", 0)],
        vec![change("src/lib.rs")],
    );
    let plans = next_step_plans(&c);
    assert_eq!(plans.len(), 2);
    assert_eq!(plans[0].description, "first");
    assert_eq!(plans[1].description, "second");
}

#[test]
fn rust_change_without_suggestions_asks_for_tests() {
    let c = finished(vec![], vec![change("src/lib.rs"), change("README.md")]);
    let plans = follow_up_plans(&c);
    assert_eq!(plans.len(), 1);
    assert!(is_test_task(&plans[0]));
    assert_eq!(plans[0].description, "Add tests for changed files: src/lib.rs, README.md");
    assert_eq!(plans[0].specification.requirements, vec!["Ensure adequate test coverage"]);
    let ctx = &plans[0].specification.context;
    assert_eq!(ctx.len(), 2);
    assert_eq!(ctx[0].context_type, "changed_file");
    assert_eq!(ctx[0].content, "src/lib.rs");
    assert_eq!(ctx[1].source_file, Some("README.md".to_string()));
}

#[test]
fn test_files_and_other_files_need_no_tests() {
    assert!(follow_up_plans(&finished(vec![], vec![change("tests/queue_test.rs")])).is_empty());
    assert!(follow_up_plans(&finished(vec![], vec![change("docs/guide.md")])).is_empty());
    assert!(follow_up_plans(&finished(vec![], vec![change(".rs")])).is_empty());
    assert!(follow_up_plans(&finished(vec![], vec![])).is_empty());
}

#[test]
fn suggestions_suppress_the_test_follow_up() {
    let c = finished(vec![suggestion("ignored", -1)], vec![change("src/main.rs")]);
    assert!(follow_up_plans(&c).is_empty());
    assert!(next_step_plans(&c).is_empty());
}

#[test]
fn iteration_names_the_original_task() {
    let t = iteration_plan("task-42", "fix the parser");
    assert_eq!(t.description, "Iteration for task task-42: fix the parser");
    match &t.kind {
        PlannedKind::BugFix { reproduction_steps, expected_behavior } => {
            assert_eq!(reproduction_steps, &vec!["See original task".to_string()]);
            assert_eq!(expected_behavior, "fix the parser");
        }
        _ => panic!("expected a bug fix"),
    }
    assert_eq!(t.specification.requirements, vec!["fix the parser"]);
    assert_eq!(t.specification.hints, vec!["Original task: task-42"]);
}

#[test]
fn investigation_for_a_reason() {
    let t = investigation_plan("slow builds");
    assert_eq!(t.description, "Investigation: slow builds");
    match &t.kind {
        PlannedKind::Exploration { questions } => assert_eq!(questions, &vec!["How to address: slow builds".to_string()]),
        _ => panic!("expected an exploration"),
    }
    assert_eq!(t.specification.requirements, vec!["slow builds"]);
}

#[test]
fn domain_changes_to_rust_sources_update_tests() {
    let plans = change_reaction_plans(&vec!["docs/a.md".to_string(), "src/bus.rs".to_string()]);
    assert_eq!(plans.len(), 1);
    assert!(is_test_task(&plans[0]));
    assert_eq!(plans[0].description, "Update tests for changed files");
    assert_eq!(plans[0].specification.requirements, vec!["Ensure tests pass"]);
    assert_eq!(plans[0].specification.context.len(), 2);
    assert!(change_reaction_plans(&vec!["docs/a.md".to_string()]).is_empty());
}

#[test]
fn planner_reacts_to_events() {
    assert!(matches!(plan_for_event(&PlannerEvent::Shutdown), PlannerStep::Stop));
    assert!(matches!(
        plan_for_event(&PlannerEvent::ResourceAvailable { resource_type: "gpu".to_string() }),
        PlannerStep::Idle
    ));
    assert!(matches!(
        plan_for_event(&PlannerEvent::CheckpointRestored { checkpoint_id: CheckpointId::new() }),
        PlannerStep::Idle
    ));
    match plan_for_event(&PlannerEvent::PlanningRequested { reason: "coverage".to_string() }) {
        PlannerStep::Plan(v) => {
            assert_eq!(v.len(), 1);
            assert_eq!(v[0].description, "Investigation: coverage");
        }
        _ => panic!("expected a plan"),
    }
    let id = TaskId::new();
    match plan_for_event(&PlannerEvent::IterationFeedback { task_id: id.clone(), feedback: "retry".to_string() }) {
        PlannerStep::Plan(v) => {
            assert_eq!(v.len(), 1);
            assert_eq!(v[0].description, format!("Iteration for task {}: retry", id.to_string()));
        }
        _ => panic!("expected a plan"),
    }
    match plan_for_event(&PlannerEvent::DomainChanged { domain_id: DomainId::new(), changes: vec!["x.rs".to_string()] }) {
        PlannerStep::Plan(v) => assert_eq!(v.len(), 1),
        _ => panic!("expected a plan"),
    }
}

#[test]
fn book_tracks_open_tasks() {
    let mut book = PlannerBook::new();
    let a = TaskId::new();
    let b = TaskId::new();
    book.note_created(a.clone());
    book.note_created(b.clone());
    assert_eq!(book.metrics.tasks_created, 2);
    book.note_completion();
    book.close_task(&a);
    assert_eq!(book.pending_tasks, vec![b.clone()]);
    assert_eq!(book.metrics.wake_ups, 1);
    assert_eq!(book.metrics.tasks_completed_since_plan, 1);
    book.note_planned();
    assert_eq!(book.metrics.tasks_completed_since_plan, 0);
    book.note_wake_up();
    assert_eq!(book.metrics.wake_ups, 2);
}

#[test]
fn created_then_closed_restores_open_tasks() {
    let mut book = PlannerBook::new();
    let a = TaskId::new();
    book.note_created(a.clone());
    let before = book.pending_tasks.clone();
    let c = TaskId::new();
    book.note_created(c.clone());
    book.close_task(&c);
    assert_eq!(book.pending_tasks, before);
}
