//! Claims an agent makes about its work, the results of checking them, and
//! summaries of verification feedback.

use vstd::prelude::*;
use std::path::PathBuf;
use std::time::Duration;
use crate::ids::{OrgId, VerificationId};
use crate::text::owned;
use crate::clock::{now, Timestamp};

verus! {

/// An assertion to be checked, with the evidence offered for it.
#[derive(Debug)]
pub struct Claim {
    /// What is asserted.
    pub assertion: String,
    /// How it can be checked.
    pub claim_type: ClaimType,
    /// Evidence offered.
    pub evidence: Vec<String>,
}

/// `a` and `b` are the same kind of check on the same subject: equal kinds with
/// equal texts, path lists with the same paths in the same order.
pub open spec fn same_claim_type(a: ClaimType, b: ClaimType) -> bool {
    match (a, b) {
        (ClaimType::Compiles { files: x }, ClaimType::Compiles { files: y }) => x@ == y@,
        (ClaimType::TypeChecks { files: x }, ClaimType::TypeChecks { files: y }) => x@ == y@,
        (ClaimType::LintPasses { files: x }, ClaimType::LintPasses { files: y }) => x@ == y@,
        (ClaimType::TestsPass { test_pattern: x }, ClaimType::TestsPass { test_pattern: y }) => x == y,
        (ClaimType::FileContains { path: p, pattern: q }, ClaimType::FileContains { path: p2, pattern: q2 }) => {
            p == p2 && q == q2
        },
        (ClaimType::ApiReturns { endpoint: e, expected_status: s }, ClaimType::ApiReturns {
            endpoint: e2,
            expected_status: s2,
        }) => e == e2 && s == s2,
        (ClaimType::CommandSucceeds { command: x }, ClaimType::CommandSucceeds { command: y }) => x == y,
        _ => false,
    }
}

/// `a` and `b` are the same claim: the same assertion, the same kind of check on
/// the same subject, and the same evidence in the same order.
pub open spec fn same_claim(a: Claim, b: Claim) -> bool {
    &&& a.assertion == b.assertion
    &&& same_claim_type(a.claim_type, b.claim_type)
    &&& a.evidence@ == b.evidence@
}

impl Clone for Claim {
    fn clone(&self) -> (r: Self)
        ensures
            same_claim(r, *self),
    {
        let evidence = self.evidence.clone();
        proof {
            assert(evidence@ =~= self.evidence@);
        }
        Claim { assertion: self.assertion.clone(), claim_type: self.claim_type.clone(), evidence }
    }
}

impl Claim {
    /// A claim with no evidence yet.
    pub fn new(assertion: &str, claim_type: ClaimType) -> (c: Self)
        ensures
            c.assertion@ == assertion@,
            c.claim_type == claim_type,
            c.evidence@.len() == 0,
    {
        Claim { assertion: owned(assertion), claim_type, evidence: Vec::new() }
    }

    /// The claim with one more piece of evidence at the end.
    pub fn with_evidence(self, evidence: &str) -> (c: Self)
        ensures
            c.assertion == self.assertion,
            c.claim_type == self.claim_type,
            c.evidence@.len() == self.evidence@.len() + 1,
            c.evidence@.drop_last() == self.evidence@,
            c.evidence@.last()@ == evidence@,
    {
        let mut c = self;
        c.evidence.push(owned(evidence));
        c
    }

    /// The claim with the given pieces of evidence appended, in order.
    pub fn with_evidences(self, evidence: Vec<String>) -> (c: Self)
        ensures
            c.assertion == self.assertion,
            c.claim_type == self.claim_type,
            c.evidence@ == self.evidence@ + evidence@,
    {
        let mut c = self;
        let mut more = evidence;
        c.evidence.append(&mut more);
        c
    }
}

/// Ways a claim can be checked. Files are named by their path text.
#[derive(Debug)]
pub enum ClaimType {
    Compiles { files: Vec<String> },
    TestsPass { test_pattern: String },
    FileContains { path: String, pattern: String },
    ApiReturns { endpoint: String, expected_status: u16 },
    CommandSucceeds { command: String },
    TypeChecks { files: Vec<String> },
    LintPasses { files: Vec<String> },
}

/// A copy of the path texts `v`.
fn copy_paths(v: &Vec<String>) -> (r: Vec<String>)
    ensures
        r@ == v@,
{
    let r = v.clone();
    proof {
        assert(r@ =~= v@);
    }
    r
}

impl Clone for ClaimType {
    fn clone(&self) -> (r: Self)
        ensures
            same_claim_type(r, *self),
    {
        match self {
            ClaimType::Compiles { files } => ClaimType::Compiles { files: copy_paths(files) },
            ClaimType::TestsPass { test_pattern } => ClaimType::TestsPass { test_pattern: test_pattern.clone() },
            ClaimType::FileContains { path, pattern } => {
                ClaimType::FileContains { path: path.clone(), pattern: pattern.clone() }
            },
            ClaimType::ApiReturns { endpoint, expected_status } => {
                ClaimType::ApiReturns { endpoint: endpoint.clone(), expected_status: *expected_status }
            },
            ClaimType::CommandSucceeds { command } => ClaimType::CommandSucceeds { command: command.clone() },
            ClaimType::TypeChecks { files } => ClaimType::TypeChecks { files: copy_paths(files) },
            ClaimType::LintPasses { files } => ClaimType::LintPasses { files: copy_paths(files) },
        }
    }
}

/// The snake-case key of a claim kind.
pub open spec fn claim_type_key(t: ClaimType) -> &'static str {
    match t {
        ClaimType::Compiles { .. } => "compiles",
        ClaimType::TestsPass { .. } => "tests_pass",
        ClaimType::FileContains { .. } => "file_contains",
        ClaimType::ApiReturns { .. } => "api_returns",
        ClaimType::CommandSucceeds { .. } => "command_succeeds",
        ClaimType::TypeChecks { .. } => "type_checks",
        ClaimType::LintPasses { .. } => "lint_passes",
    }
}

impl ClaimType {
    /// The snake-case key of the kind.
    pub fn type_key(&self) -> (s: &'static str)
        ensures
            s == claim_type_key(*self),
    {
        match self {
            ClaimType::Compiles { .. } => "compiles",
            ClaimType::TestsPass { .. } => "tests_pass",
            ClaimType::FileContains { .. } => "file_contains",
            ClaimType::ApiReturns { .. } => "api_returns",
            ClaimType::CommandSucceeds { .. } => "command_succeeds",
            ClaimType::TypeChecks { .. } => "type_checks",
            ClaimType::LintPasses { .. } => "lint_passes",
        }
    }
}

/// The outcome of checking a claim.
#[derive(Debug, Clone)]
pub struct VerificationResult {
    /// Identifier of this result.
    pub id: VerificationId,
    /// The claim checked.
    pub claim: Claim,
    /// Whether it held.
    pub passed: bool,
    /// Output of the verification.
    pub output: String,
    /// When it was checked.
    pub verified_at: Timestamp,
    /// How long the verification took.
    pub duration: Duration,
    /// The task it belongs to, if any.
    pub task_id: Option<String>,
    /// The organization it belongs to.
    pub org_id: OrgId,
}

impl VerificationResult {
    /// A passed check, stamped with a fresh identifier and the current time.
    pub fn success(org_id: OrgId, claim: Claim, output: &str, duration: Duration) -> (r: Self)
        ensures
            r.passed,
            r.claim == claim,
            r.output@ == output@,
            r.duration == duration,
            r.task_id is None,
            r.org_id == org_id,
    {
        VerificationResult {
            id: VerificationId::new(),
            claim,
            passed: true,
            output: owned(output),
            verified_at: now(),
            duration,
            task_id: None,
            org_id,
        }
    }

    /// A failed check, stamped with a fresh identifier and the current time.
    pub fn failure(org_id: OrgId, claim: Claim, output: &str, duration: Duration) -> (r: Self)
        ensures
            !r.passed,
            r.claim == claim,
            r.output@ == output@,
            r.duration == duration,
            r.task_id is None,
            r.org_id == org_id,
    {
        VerificationResult {
            id: VerificationId::new(),
            claim,
            passed: false,
            output: owned(output),
            verified_at: now(),
            duration,
            task_id: None,
            org_id,
        }
    }

    /// The result tied to a task.
    pub fn with_task_id(self, task_id: &str) -> (r: Self)
        ensures
            r.task_id matches Some(t) && t@ == task_id@,
            r.id == self.id,
            r.claim == self.claim,
            r.passed == self.passed,
            r.output == self.output,
            r.verified_at == self.verified_at,
            r.duration == self.duration,
            r.org_id == self.org_id,
    {
        let mut r = self;
        r.task_id = Some(owned(task_id));
        r
    }
}

/// Counts of verification feedback.
#[derive(Debug, Clone, Copy, PartialEq, Eq, Structural)]
pub struct FeedbackSummary {
    /// Checks that passed.
    pub passed: u32,
    /// Checks that failed.
    pub failed: u32,
    /// Learnings recorded.
    pub learnings_added: u32,
    /// Errors recorded.
    pub errors_recorded: u32,
}

impl Default for FeedbackSummary {
    fn default() -> (s: Self)
        ensures
            s.passed == 0 && s.failed == 0 && s.learnings_added == 0 && s.errors_recorded == 0,
    {
        FeedbackSummary { passed: 0, failed: 0, learnings_added: 0, errors_recorded: 0 }
    }
}

impl FeedbackSummary {
    /// The number of checks, passed and failed.
    pub fn total(&self) -> (n: u32)
        requires
            self.passed + self.failed <= u32::MAX,
        ensures
            n == self.passed + self.failed,
    {
        self.passed + self.failed
    }
}

} // verus!
