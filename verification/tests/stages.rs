use loom::stage::TaskStage;

#[test]
fn stage_names_are_snake_case() {
    assert_eq!(TaskStage::Pending.name(), "pending");
    assert_eq!(TaskStage::Blocked.name(), "blocked");
    assert_eq!(TaskStage::InProgress.name(), "in_progress");
    assert_eq!(TaskStage::AwaitingReview.name(), "awaiting_review");
}

#[test]
fn only_a_pending_task_without_dependencies_is_ready() {
    assert!(TaskStage::Pending.is_ready(0));
    assert!(!TaskStage::Pending.is_ready(1));
    assert!(!TaskStage::Blocked.is_ready(0));
    assert!(!TaskStage::Assigned.is_ready(0));
}

#[test]
fn active_and_terminal_stages() {
    assert!(TaskStage::Assigned.is_active());
    assert!(TaskStage::InProgress.is_active());
    assert!(!TaskStage::Pending.is_active());
    assert!(TaskStage::Completed.is_terminal());
    assert!(TaskStage::Failed.is_terminal());
    assert!(TaskStage::Cancelled.is_terminal());
    assert!(!TaskStage::NeedsIteration.is_terminal());
}

#[test]
fn task_id_text_is_prefixed_hyphenated_lowercase_hex() {
    let id = loom::ids::TaskId(0x0123_4567_89ab_cdef_0011_2233_4455_66ff);
    assert_eq!(id.to_string(), "task-01234567-89ab-cdef-0011-2233445566ff");
}
