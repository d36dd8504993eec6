use std::time::Duration;

use loom::clock::Timestamp;

use loom::agents::{AgentRole, DomainHealth, DomainMetrics, ProjectPhase, ProjectStatus};
use loom::backpressure::{BackpressureController, BackpressureDecision, BackpressureThresholds};
use loom::errors::MultiAgentError;
use loom::events::{
    DependencyResolvedEvent, EventPriority, PlannerEvent, TaskEvent, TaskEventType, WakeUpContext, WorkerEvent,
};
use loom::ids::{CheckpointId, DomainId, PlannerId, ProjectRunId, TaskId, WorkerId};
use loom::metrics::{EventBusMetrics, PersistenceMetrics, PlannerMetrics, QueueStats};
use loom::subscription::{EventFilter, EventType};
use loom::verdict::{evaluate_completion, max_iterations_reached, Verdict};
use loom::work::{
    ContextSnapshot, FileChangeType, LearningType, TaskCompletion, TaskOutput, VerificationResult,
};

fn completion(summary: &str, verifications: Vec<VerificationResult>) -> TaskCompletion {
    TaskCompletion {
        task_id: TaskId::new(),
        worker_id: WorkerId::new(),
        completed_at: Timestamp { secs: 0, nanos: 0 },
        duration_ms: 100,
        output: TaskOutput {
            summary: summary.to_string(),
            notes: vec![],
            artifacts: vec![],
            suggested_tasks: vec![],
            learnings: vec![],
        },
        changes: vec![],
        commit_sha: None,
        verifications,
        context_snapshot: ContextSnapshot::default(),
        unblocked_tasks: Vec::new(),
    }
}

fn check(criterion: &str, passed: bool) -> VerificationResult {
    VerificationResult { criterion: criterion.to_string(), passed, output: None, error: None }
}

fn created(planner_id: &PlannerId) -> TaskEvent {
    TaskEvent::Created { task_id: TaskId::new(), planner_id: planner_id.clone(), description: "Test".to_string() }
}

fn small_thresholds() -> BackpressureThresholds {
    BackpressureThresholds { warning: 5, critical: 10, maximum: 20 }
}

#[test]
fn test_task_id_new() {
    let id = TaskId::new();
    assert!(!id.to_string().is_empty());
    assert!(id.to_string().starts_with("task-"));
}

#[test]
fn test_task_id_parse() {
    let id = TaskId::new();
    let parsed: TaskId = id.to_string().parse().unwrap();
    assert_eq!(id, parsed);
}

#[test]
fn task_id_accepts_bare_uuid() {
    let parsed = TaskId::parse("01234567-89ab-cdef-0123-456789abcdef").unwrap();
    assert_eq!(parsed.as_uuid(), 0x0123_4567_89ab_cdef_0123_4567_89ab_cdef);
    assert!(TaskId::parse("task-nope").is_err());
}

#[test]
fn test_worker_id_display() {
    assert!(WorkerId::new().to_string().starts_with("worker-"));
}

#[test]
fn test_planner_id_display() {
    assert!(PlannerId::new().to_string().starts_with("planner-"));
}

#[test]
fn test_domain_id_display() {
    assert!(DomainId::new().to_string().starts_with("domain-"));
}

#[test]
fn test_project_run_id_display() {
    assert!(ProjectRunId::new().to_string().starts_with("run-"));
}

#[test]
fn test_checkpoint_id_display() {
    assert!(CheckpointId::new().to_string().starts_with("checkpoint-"));
}

#[test]
fn test_agent_role_display() {
    assert_eq!(AgentRole::Planner.to_string(), "planner");
    assert_eq!(AgentRole::Worker.to_string(), "worker");
    assert_eq!(AgentRole::Judge.to_string(), "judge");
    assert_eq!(AgentRole::Explorer.to_string(), "explorer");
}

#[test]
fn test_agent_role_parse() {
    assert_eq!("planner".parse::<AgentRole>().unwrap(), AgentRole::Planner);
    assert_eq!("worker".parse::<AgentRole>().unwrap(), AgentRole::Worker);
    assert!("invalid".parse::<AgentRole>().is_err());
}

#[test]
fn agent_role_error_carries_text() {
    match AgentRole::parse("boss") {
        Err(MultiAgentError::InvalidAgentRole(s)) => assert_eq!(s, "boss"),
        other => panic!("unexpected {:?}", other),
    }
}

#[test]
fn test_project_phase_display() {
    assert_eq!(ProjectPhase::Exploration.to_string(), "exploration");
    assert_eq!(ProjectPhase::Development { iteration: 3 }.to_string(), "development:3");
}

#[test]
fn test_project_phase_parse() {
    assert_eq!("exploration".parse::<ProjectPhase>().unwrap(), ProjectPhase::Exploration);
    assert_eq!("development:5".parse::<ProjectPhase>().unwrap(), ProjectPhase::Development { iteration: 5 });
}

#[test]
fn project_phase_parse_edges() {
    assert_eq!(ProjectPhase::parse("development:+7").unwrap(), ProjectPhase::Development { iteration: 7 });
    assert_eq!(
        ProjectPhase::parse("development:4294967295").unwrap(),
        ProjectPhase::Development { iteration: 4294967295 }
    );
    assert!(ProjectPhase::parse("development:4294967296").is_err());
    assert!(ProjectPhase::parse("development:").is_err());
    assert!(ProjectPhase::parse("development:-1").is_err());
    match ProjectPhase::parse("planning") {
        Err(MultiAgentError::InvalidProjectPhase(s)) => assert_eq!(s, "planning"),
        other => panic!("unexpected {:?}", other),
    }
    for p in [
        ProjectPhase::Exploration,
        ProjectPhase::Development { iteration: 0 },
        ProjectPhase::Development { iteration: 1234 },
        ProjectPhase::Refinement,
        ProjectPhase::Verification,
        ProjectPhase::Complete,
    ] {
        assert_eq!(ProjectPhase::parse(&p.to_string()).unwrap(), p);
    }
}

#[test]
fn test_project_status_display() {
    assert_eq!(ProjectStatus::Running.to_string(), "running");
    assert_eq!(ProjectStatus::Paused.to_string(), "paused");
}

#[test]
fn test_project_status_parse() {
    assert_eq!("running".parse::<ProjectStatus>().unwrap(), ProjectStatus::Running);
    assert_eq!("completed".parse::<ProjectStatus>().unwrap(), ProjectStatus::Completed);
}

#[test]
fn project_status_default_and_errors() {
    assert_eq!(ProjectStatus::default(), ProjectStatus::Initializing);
    assert!(matches!(ProjectStatus::parse("done"), Err(MultiAgentError::InvalidProjectPhase(_))));
}

#[test]
fn test_domain_health_display() {
    assert_eq!(DomainHealth::Healthy.to_string(), "healthy");
    assert_eq!(DomainHealth::Stalled.to_string(), "stalled");
    assert_eq!(DomainHealth::default(), DomainHealth::Healthy);
    assert_eq!(DomainMetrics::default().tasks_completed, 0);
}

#[test]
fn test_file_change_type_display() {
    assert_eq!(FileChangeType::Created.to_string(), "created");
    assert_eq!(FileChangeType::Modified.to_string(), "modified");
    assert_eq!(FileChangeType::Deleted.to_string(), "deleted");
    assert_eq!(FileChangeType::Renamed.to_string(), "renamed");
}

#[test]
fn test_learning_type_display() {
    assert_eq!(LearningType::Pattern.to_string(), "pattern");
    assert_eq!(LearningType::Architecture.to_string(), "architecture");
}

#[test]
fn test_verdict_approved() {
    let verdict = Verdict::approved("Well done");
    assert!(verdict.is_approved());
    assert!(!verdict.needs_work());
    assert!(!verdict.should_escalate());
}

#[test]
fn test_verdict_needs_iteration() {
    let verdict = Verdict::needs_iteration("Missing tests", vec!["Add unit tests".to_string()]);
    assert!(!verdict.is_approved());
    assert!(verdict.needs_work());
    assert!(!verdict.should_escalate());
}

#[test]
fn test_verdict_escalate() {
    let verdict = Verdict::escalate("Requires architectural decision");
    assert!(!verdict.is_approved());
    assert!(!verdict.needs_work());
    assert!(verdict.should_escalate());
}

#[test]
fn test_verdict_display() {
    assert_eq!(Verdict::approved("ok").to_string(), "approved");
    assert_eq!(Verdict::needs_iteration("fix", vec![]).to_string(), "needs_iteration");
    assert_eq!(Verdict::escalate("help").to_string(), "escalate");
}

#[test]
fn test_judge_approve_success() {
    let verdict = evaluate_completion(&completion("Task completed", vec![check("test", true)]));
    assert!(verdict.is_approved());
    match verdict {
        Verdict::Approved { feedback } => assert_eq!(feedback, "Task completed successfully: Task completed"),
        other => panic!("unexpected {:?}", other),
    }
}

#[test]
fn test_judge_needs_iteration_on_failure() {
    let verdict = evaluate_completion(&completion("Task completed", vec![check("test", false)]));
    assert!(verdict.needs_work());
}

#[test]
fn judge_lists_failed_criteria() {
    let verdict = evaluate_completion(&completion(
        "done",
        vec![check("builds", false), check("lints", true), check("tests", false)],
    ));
    match verdict {
        Verdict::NeedsIteration { feedback, suggestions } => {
            assert_eq!(feedback, "Verification failures: builds, tests");
            assert_eq!(suggestions, vec!["builds", "tests"]);
        }
        other => panic!("unexpected {:?}", other),
    }
}

#[test]
fn judge_asks_for_a_summary() {
    match evaluate_completion(&completion("", vec![])) {
        Verdict::NeedsIteration { feedback, suggestions } => {
            assert_eq!(feedback, "Output summary is empty");
            assert_eq!(suggestions, vec!["Provide a meaningful summary"]);
        }
        other => panic!("unexpected {:?}", other),
    }
}

#[test]
fn test_max_iterations() {
    assert!(!max_iterations_reached(0, 3));
    assert!(!max_iterations_reached(2, 3));
    assert!(max_iterations_reached(3, 3));
    assert!(max_iterations_reached(5, 3));
}

#[test]
fn test_task_event_task_id() {
    let task_id = TaskId::new();
    let event = TaskEvent::Created { task_id: task_id.clone(), planner_id: PlannerId::new(), description: "Test".to_string() };
    assert_eq!(event.task_id(), &task_id);
}

#[test]
fn test_task_event_type() {
    let event = created(&PlannerId::new());
    assert_eq!(event.event_type(), TaskEventType::Created);
    assert_eq!(event.event_type().as_str(), "created");
    assert_eq!(TaskEventType::NeedsIteration.as_str(), "needs_iteration");
    assert_eq!(TaskEventType::DependencyResolved.to_string(), "dependency_resolved");
    assert_eq!(TaskEventType::Created.to_string(), TaskEventType::Created.as_str());
}

#[test]
fn test_dependency_resolved_event() {
    let task_id = TaskId::new();
    let dep_id = TaskId::new();
    let event = TaskEvent::DependencyResolved(DependencyResolvedEvent {
        task_id: task_id.clone(),
        dependency_id: dep_id,
        all_resolved: true,
        timestamp: Timestamp { secs: 1_700_000_000, nanos: 0 },
    });
    assert_eq!(event.task_id(), &task_id);
    assert_eq!(event.event_type(), TaskEventType::DependencyResolved);
    assert_eq!(event.priority(), EventPriority::High);
    assert_eq!(event.timestamp(), Timestamp { secs: 1_700_000_000, nanos: 0 });
}

#[test]
fn test_event_priority() {
    let progress = TaskEvent::Progress {
        task_id: TaskId::new(),
        worker_id: WorkerId::new(),
        percentage: 50,
        current_step: "test".to_string(),
    };
    assert_eq!(progress.priority(), EventPriority::Low);
    let failed = TaskEvent::Failed { task_id: TaskId::new(), worker_id: WorkerId::new(), error: "test error".to_string() };
    assert_eq!(failed.priority(), EventPriority::High);
    assert!(EventPriority::Low.rank() < EventPriority::Critical.rank());
}

#[test]
fn event_names_planner_and_worker() {
    let planner = PlannerId::new();
    let event = created(&planner);
    assert_eq!(event.planner_id(), Some(&planner));
    assert_eq!(event.worker_id(), None);
    let worker = WorkerId::new();
    let started = TaskEvent::Started { task_id: TaskId::new(), worker_id: worker.clone() };
    assert_eq!(started.worker_id(), Some(&worker));
    assert_eq!(started.planner_id(), None);
    let mut done = completion("ok", vec![]);
    done.context_snapshot.planner_id = Some(planner.clone());
    let done_event = TaskEvent::Completed(Box::new(done));
    assert_eq!(done_event.planner_id(), Some(&planner));
}

#[test]
fn test_wake_up_context() {
    let trigger = created(&PlannerId::new());
    let ctx = WakeUpContext::new(trigger, Duration::from_secs(60), 5, vec![]);
    assert_eq!(ctx.time_since_last_plan(), Duration::from_secs(60));
    assert_eq!(ctx.tasks_completed_since_plan, 5);
}

#[test]
fn test_planner_event_is_shutdown() {
    assert!(PlannerEvent::Shutdown.is_shutdown());
    assert!(!PlannerEvent::PlanningRequested { reason: "test".to_string() }.is_shutdown());
    assert!(PlannerEvent::CheckpointRestored { checkpoint_id: CheckpointId::new() }.is_urgent());
    assert!(!PlannerEvent::ResourceAvailable { resource_type: "gpu".to_string() }.is_urgent());
}

#[test]
fn test_worker_event_worker_id() {
    let worker_id = WorkerId::new();
    let event = WorkerEvent::Started { worker_id: worker_id.clone() };
    assert_eq!(event.worker_id(), &worker_id);
}

#[test]
fn test_event_filter_all() {
    assert!(EventFilter::All.matches(&created(&PlannerId::new())));
}

#[test]
fn test_event_filter_task() {
    let task_id = TaskId::new();
    let filter = EventFilter::Task(task_id.clone());
    let matching = TaskEvent::Created { task_id: task_id.clone(), planner_id: PlannerId::new(), description: "Test".to_string() };
    assert!(filter.matches(&matching));
    let non_matching = TaskEvent::Created { task_id: TaskId::new(), planner_id: PlannerId::new(), description: "Other".to_string() };
    assert!(!filter.matches(&non_matching));
}

#[test]
fn test_event_filter_completions() {
    assert!(!EventFilter::Completions.matches(&created(&PlannerId::new())));
    let done = TaskEvent::Completed(Box::new(completion("ok", vec![])));
    assert!(EventFilter::Completions.matches(&done));
}

#[test]
fn test_event_filter_custom() {
    let filter = EventFilter::Custom(vec![EventType::Created, EventType::Completed]);
    assert!(filter.matches(&created(&PlannerId::new())));
    let assigned = TaskEvent::Assigned { task_id: TaskId::new(), worker_id: WorkerId::new() };
    assert!(!filter.matches(&assigned));
}

#[test]
fn planner_and_worker_filters() {
    let planner = PlannerId::new();
    assert!(EventFilter::Planner(planner.clone()).matches(&created(&planner)));
    assert!(!EventFilter::Planner(PlannerId::new()).matches(&created(&planner)));
    let worker = WorkerId::new();
    let failed = TaskEvent::Failed { task_id: TaskId::new(), worker_id: worker.clone(), error: "e".to_string() };
    assert!(EventFilter::Worker(worker).matches(&failed));
    assert!(EventFilter::Failures.matches(&failed));
    let resolved = TaskEvent::DependencyResolved(DependencyResolvedEvent {
        task_id: TaskId::new(),
        dependency_id: TaskId::new(),
        all_resolved: false,
        timestamp: Timestamp { secs: 0, nanos: 0 },
    });
    assert!(!EventFilter::Custom(vec![EventType::Created]).matches(&resolved));
}

#[test]
fn test_backpressure_accept() {
    let controller = BackpressureController::new();
    let planner_id = PlannerId::new();
    assert_eq!(controller.can_accept(&planner_id, &created(&planner_id)), BackpressureDecision::Accept);
}

#[test]
fn test_backpressure_warning() {
    let mut controller = BackpressureController::with_thresholds(small_thresholds());
    let planner_id = PlannerId::new();
    for _ in 0..6 {
        controller.record_accepted(&planner_id, BackpressureDecision::Accept);
    }
    assert_eq!(controller.can_accept(&planner_id, &created(&planner_id)), BackpressureDecision::AcceptWithWarning);
}

#[test]
fn test_backpressure_defer_low_priority() {
    let mut controller = BackpressureController::with_thresholds(small_thresholds());
    let planner_id = PlannerId::new();
    for _ in 0..11 {
        controller.record_accepted(&planner_id, BackpressureDecision::Accept);
    }
    let event = TaskEvent::Progress {
        task_id: TaskId::new(),
        worker_id: WorkerId::new(),
        percentage: 50,
        current_step: "Test".to_string(),
    };
    assert_eq!(controller.can_accept(&planner_id, &event), BackpressureDecision::Defer);
}

#[test]
fn test_backpressure_accept_high_priority_at_critical() {
    let mut controller = BackpressureController::with_thresholds(small_thresholds());
    let planner_id = PlannerId::new();
    for _ in 0..11 {
        controller.record_accepted(&planner_id, BackpressureDecision::Accept);
    }
    let event = TaskEvent::Failed { task_id: TaskId::new(), worker_id: WorkerId::new(), error: "Test error".to_string() };
    assert_eq!(controller.can_accept(&planner_id, &event), BackpressureDecision::AcceptWithWarning);
}

#[test]
fn test_backpressure_reject() {
    let mut controller = BackpressureController::with_thresholds(small_thresholds());
    let planner_id = PlannerId::new();
    for _ in 0..21 {
        controller.record_accepted(&planner_id, BackpressureDecision::Accept);
    }
    assert_eq!(controller.can_accept(&planner_id, &created(&planner_id)), BackpressureDecision::Reject);
}

#[test]
fn test_event_processed() {
    let mut controller = BackpressureController::new();
    let planner_id = PlannerId::new();
    controller.record_accepted(&planner_id, BackpressureDecision::Accept);
    controller.record_accepted(&planner_id, BackpressureDecision::Accept);
    assert_eq!(controller.queue_depth(&planner_id), 2);
    controller.event_processed(&planner_id);
    assert_eq!(controller.queue_depth(&planner_id), 1);
}

#[test]
fn test_is_overloaded() {
    let mut controller = BackpressureController::with_thresholds(small_thresholds());
    let planner_id = PlannerId::new();
    assert!(!controller.is_overloaded(&planner_id));
    for _ in 0..10 {
        controller.record_accepted(&planner_id, BackpressureDecision::Accept);
    }
    assert!(controller.is_overloaded(&planner_id));
}

#[test]
fn backpressure_counters_and_planners() {
    let mut controller = BackpressureController::default();
    let a = PlannerId::new();
    let b = PlannerId::new();
    controller.record_accepted(&a, BackpressureDecision::Accept);
    controller.record_accepted(&b, BackpressureDecision::AcceptWithWarning);
    controller.record_deferred();
    controller.record_rejected(&a);
    assert_eq!(controller.active_planners(), 2);
    assert_eq!(controller.metrics().accepted(), 1);
    assert_eq!(controller.metrics().warned(), 1);
    assert_eq!(controller.metrics().deferred(), 1);
    assert_eq!(controller.metrics().rejected(), 1);
    controller.event_processed(&a);
    controller.event_processed(&a);
    assert_eq!(controller.queue_depth(&a), 0);
    assert_eq!(controller.queue_depth(&b), 1);
    controller.reset_planner(&b);
    assert_eq!(controller.queue_depth(&b), 0);
    assert_eq!(controller.active_planners(), 1);
    assert_eq!(BackpressureThresholds::default(), BackpressureThresholds { warning: 100, critical: 500, maximum: 1000 });
}

#[test]
fn test_queue_stats_default() {
    let stats = QueueStats { pending: 5, in_progress: 2, completed: 10, failed: 1 };
    assert_eq!(stats.pending, 5);
    assert_eq!(stats.in_progress, 2);
}

#[test]
fn metric_getters_report_fields() {
    let bus = EventBusMetrics { events_published: 3, events_delivered: 2, events_deferred: 1 };
    assert_eq!((bus.published(), bus.delivered(), bus.deferred()), (3, 2, 1));
    let store = PersistenceMetrics { events_stored: 7, events_replayed: 5, flushes: 2 };
    assert_eq!((store.stored(), store.replayed(), store.flushes()), (7, 5, 2));
    assert_eq!(PlannerMetrics::default().wake_ups, 0);
}

#[test]
fn test_worker_types() {
    let id = WorkerId::new();
    assert!(id.to_string().starts_with("worker-"));
}

#[test]
fn test_worker_pool_types() {
    let worker_id = WorkerId::new();
    assert!(worker_id.to_string().starts_with("worker-"));
}

#[test]
fn fresh_ids_carry_their_uuid_version() {
    let task = TaskId::new().to_string();
    assert_eq!(task.chars().nth("task-".len() + 14), Some('7'));
    let variant = task.chars().nth("task-".len() + 19).unwrap();
    assert!(matches!(variant, '8' | '9' | 'a' | 'b'));
    let org = loom::ids::OrgId::new().to_string();
    assert_eq!(org.chars().nth(14), Some('4'));
    let worker: WorkerId = "worker-01234567-89ab-7def-8123-456789abcdef".parse().unwrap();
    assert_eq!(worker.as_uuid(), 0x0123_4567_89ab_7def_8123_4567_89ab_cdef);
    assert!("worker-xyz".parse::<WorkerId>().is_err());
}
