use std::time::Duration;

use loom::claims::{Claim, ClaimType, VerificationResult};
use loom::ids::OrgId;
use loom::integration::{
    analyze_failure, error_cut_fits, error_memory_content, root_cause_from, success_learning_content,
    try_analyze_failure,
};
use loom::memory::MemoryContent;

#[test]
fn analyze_failure_patterns() {
    assert!(analyze_failure("file not found: foo.rs").contains("not found"));
    assert!(analyze_failure("permission denied").contains("Permission"));
    assert!(analyze_failure("connection timeout").contains("timed out"));
}

#[test]
fn root_cause_from_error_takes_the_line_from_error_on() {
    let out = "build step 3\nFatal ERROR: missing symbol\nmore";
    let lower = out.to_lowercase();
    assert!(error_cut_fits(out, &lower));
    assert_eq!(root_cause_from(out, &lower), "ERROR: missing symbol");
    assert_eq!(analyze_failure(out), "ERROR: missing symbol");
}

#[test]
fn root_cause_strips_carriage_return_and_cuts_to_100_chars() {
    let out = "error: bad\r\nnext";
    assert_eq!(analyze_failure(out), "error: bad");
    let long = format!("error {}", "x".repeat(200));
    assert_eq!(analyze_failure(&long).chars().count(), 100);
}

#[test]
fn root_cause_without_keywords_is_first_line_or_unknown() {
    assert_eq!(analyze_failure("exit status 2\nmore text"), "exit status 2");
    assert_eq!(analyze_failure(""), "Unknown failure");
}

#[test]
fn error_cut_off_a_boundary_is_refused() {
    // The Kelvin sign (three bytes) lowercases to a one-byte 'k', so the offset of
    // "error" in the lowercase text falls inside the original's euro sign.
    let out = "\u{212A}\u{20AC}error";
    let lower = out.to_lowercase();
    assert!(!error_cut_fits(out, &lower));
    assert!(try_analyze_failure(out).is_none());
}

fn failed(output: &str) -> VerificationResult {
    let claim = Claim::new("it builds", ClaimType::CommandSucceeds { command: "make".to_string() });
    VerificationResult::failure(OrgId::new(), claim, output, Duration::from_millis(5))
}

#[test]
fn error_memory_records_pattern_and_cause() {
    match error_memory_content(&failed("permission denied")) {
        Some(MemoryContent::ErrorResolution { error_pattern, root_cause, solution }) => {
            assert_eq!(error_pattern, "Failed: it builds (command_succeeds)");
            assert_eq!(root_cause, "Permission/access issue");
            assert_eq!(solution, "");
        }
        _ => panic!("expected an error memory"),
    }
}

#[test]
fn success_learning_needs_a_slow_check() {
    let claim = Claim::new("tests pass", ClaimType::TestsPass { test_pattern: "all".to_string() })
        .with_evidence("ran suite")
        .with_evidence("all green");
    let quick = VerificationResult::success(OrgId::new(), claim.clone(), "ok", Duration::from_millis(99));
    assert!(success_learning_content(&quick).is_none());
    let slow = VerificationResult::success(OrgId::new(), claim, "ok", Duration::from_millis(150));
    match success_learning_content(&slow) {
        Some(MemoryContent::InteractionLearning { situation, approach, outcome, lesson }) => {
            assert_eq!(situation, "Verification of 'tests pass' (type: tests_pass)");
            assert_eq!(approach, "ran suite; all green");
            assert_eq!(outcome, "Passed");
            assert_eq!(lesson, "Successful tests_pass verification took 150ms");
        }
        _ => panic!("expected a learning"),
    }
}
