//! The built-in verifiers: what each makes of a claim of the kind it handles.
//!
//! Each verifier measures how long its check took. The command, compile and test
//! verifiers report a placeholder success; the file verifier judges content that
//! its caller read from disk.

use vstd::prelude::*;
use std::time::{Duration, Instant};
use crate::claims::{Claim, ClaimType, VerificationResult, same_claim};
use crate::context_error::ContextError;
use crate::ids::OrgId;
use crate::text::{append_str, decimal, decimal_text, owned, seq_contains, str_contains};

verus! {

#[verifier::external_type_specification]
#[verifier::external_body]
pub struct ExInstant(Instant);

/// Calls `Instant::now`. Nothing is claimed of the value.
#[verifier::external_body]
fn instant_now() -> (t: Instant) {
    Instant::now()
}

/// Calls `Instant::elapsed`: the time since `t`. It depends on the clock, so nothing
/// is claimed of it.
#[verifier::external_body]
fn instant_elapsed(t: &Instant) -> (d: Duration) {
    t.elapsed()
}

/// The report of a file-content check: whether the pattern was found in the file,
/// or why the file could not be read.
pub open spec fn file_check_output(read: Result<String, String>, path: Seq<char>, pattern: Seq<char>) -> Seq<char> {
    match read {
        Ok(c) => if seq_contains(c@, pattern) {
            "Pattern '"@ + pattern + "' found in "@ + path
        } else {
            "Pattern '"@ + pattern + "' not found in "@ + path
        },
        Err(m) => "Failed to read "@ + path + ": "@ + m@,
    }
}

/// The error for a claim of a kind the verifier does not handle.
pub open spec fn wrong_kind(e: ContextError) -> bool {
    e matches ContextError::Internal(m) && m@ == "Invalid claim type"@
}

/// Runs shell commands named by claims (a placeholder that reports success).
pub struct CommandVerifier;

impl CommandVerifier {
    /// The claim kinds this verifier handles.
    pub fn handles(&self) -> (v: Vec<&'static str>)
        ensures
            v@ == seq!["command_succeeds"],
    {
        let mut v: Vec<&'static str> = Vec::new();
        v.push("command_succeeds");
        v
    }

    /// Checks a command claim: a success whose output names the command. A claim of
    /// another kind is an error.
    pub fn verify(&self, claim: &Claim, org_id: OrgId) -> (r: Result<VerificationResult, ContextError>)
        ensures
            match claim.claim_type {
                ClaimType::CommandSucceeds { command } => r matches Ok(v) && v.passed
                    && same_claim(v.claim, *claim) && v.task_id is None
                    && v.org_id == org_id && v.output@ == "Command verification placeholder: "@ + command@,
                _ => r matches Err(e) && wrong_kind(e),
            },
    {
        match &claim.claim_type {
            ClaimType::CommandSucceeds { command } => {
                let start = instant_now();
                let mut out = owned("Command verification placeholder: ");
                append_str(&mut out, command.as_str());
                Ok(VerificationResult::success(org_id, claim.clone(), out.as_str(), instant_elapsed(&start)))
            },
            _ => Err(ContextError::Internal(owned("Invalid claim type"))),
        }
    }
}

/// Checks that a file contains a pattern.
pub struct FileContainsVerifier;

impl FileContainsVerifier {
    /// The claim kinds this verifier handles.
    pub fn handles(&self) -> (v: Vec<&'static str>)
        ensures
            v@ == seq!["file_contains"],
    {
        let mut v: Vec<&'static str> = Vec::new();
        v.push("file_contains");
        v
    }

    /// Judges a file-content claim against what was read from the file: `Ok` with the
    /// content, or `Err` with the read error's message. The claim passes exactly when
    /// the file was read and contains the pattern. A claim of another kind is an error.
    pub fn verify_content(&self, claim: &Claim, org_id: OrgId, read: Result<String, String>)
        -> (r: Result<VerificationResult, ContextError>)
        ensures
            match claim.claim_type {
                ClaimType::FileContains { path, pattern } => r matches Ok(v)
                    && same_claim(v.claim, *claim)
                    && v.org_id == org_id
                    && v.task_id is None
                    && v.passed == (read matches Ok(c) && seq_contains(c@, pattern@))
                    && v.output@ == file_check_output(read, path@, pattern@),
                _ => r matches Err(e) && wrong_kind(e),
            },
    {
        match &claim.claim_type {
            ClaimType::FileContains { path, pattern } => {
                let start = instant_now();
                match read {
                    Ok(content) => {
                        if str_contains(content.as_str(), pattern.as_str()) {
                            let mut out = owned("Pattern '");
                            append_str(&mut out, pattern.as_str());
                            append_str(&mut out, "' found in ");
                            append_str(&mut out, path.as_str());
                            Ok(VerificationResult::success(org_id, claim.clone(), out.as_str(), instant_elapsed(&start)))
                        } else {
                            let mut out = owned("Pattern '");
                            append_str(&mut out, pattern.as_str());
                            append_str(&mut out, "' not found in ");
                            append_str(&mut out, path.as_str());
                            Ok(VerificationResult::failure(org_id, claim.clone(), out.as_str(), instant_elapsed(&start)))
                        }
                    },
                    Err(message) => {
                        let mut out = owned("Failed to read ");
                        append_str(&mut out, path.as_str());
                        append_str(&mut out, ": ");
                        append_str(&mut out, message.as_str());
                        Ok(VerificationResult::failure(org_id, claim.clone(), out.as_str(), instant_elapsed(&start)))
                    },
                }
            },
            _ => Err(ContextError::Internal(owned("Invalid claim type"))),
        }
    }
}

/// Checks that files compile (a placeholder that reports success).
pub struct CompileVerifier;

impl CompileVerifier {
    /// The claim kinds this verifier handles.
    pub fn handles(&self) -> (v: Vec<&'static str>)
        ensures
            v@ == seq!["compiles", "type_checks", "lint_passes"],
    {
        let mut v: Vec<&'static str> = Vec::new();
        v.push("compiles");
        v.push("type_checks");
        v.push("lint_passes");
        v
    }

    /// Checks a claim of a kind it handles (compiles, type checks, lint passes): a
    /// success whose output counts the claim's files. A claim of another kind is an
    /// error.
    pub fn verify(&self, claim: &Claim, org_id: OrgId) -> (r: Result<VerificationResult, ContextError>)
        ensures
            match compile_files(claim.claim_type) {
                Some(files) => r matches Ok(v) && v.passed
                    && same_claim(v.claim, *claim) && v.task_id is None
                    && v.org_id == org_id
                    && v.output@ == "Compile verification placeholder for "@ + decimal(files.len())
                        + " files"@,
                None => r matches Err(e) && wrong_kind(e),
            },
    {
        let files = match &claim.claim_type {
            ClaimType::Compiles { files } => files,
            ClaimType::TypeChecks { files } => files,
            ClaimType::LintPasses { files } => files,
            _ => return Err(ContextError::Internal(owned("Invalid claim type"))),
        };
        let start = instant_now();
        let mut out = owned("Compile verification placeholder for ");
        let n = decimal_text(files.len() as u64);
        append_str(&mut out, n.as_str());
        append_str(&mut out, " files");
        Ok(VerificationResult::success(org_id, claim.clone(), out.as_str(), instant_elapsed(&start)))
    }
}

/// The files of a claim that the compile verifier handles: those of a compile,
/// type-check or lint claim; `None` for the other kinds.
pub open spec fn compile_files(t: ClaimType) -> Option<Seq<String>> {
    match t {
        ClaimType::Compiles { files } => Some(files@),
        ClaimType::TypeChecks { files } => Some(files@),
        ClaimType::LintPasses { files } => Some(files@),
        _ => None,
    }
}

/// Runs tests matching a pattern (a placeholder that reports success).
pub struct TestVerifier;

impl TestVerifier {
    /// The claim kinds this verifier handles.
    pub fn handles(&self) -> (v: Vec<&'static str>)
        ensures
            v@ == seq!["tests_pass"],
    {
        let mut v: Vec<&'static str> = Vec::new();
        v.push("tests_pass");
        v
    }

    /// Checks a test claim: a success whose output names the pattern. A claim of
    /// another kind is an error.
    pub fn verify(&self, claim: &Claim, org_id: OrgId) -> (r: Result<VerificationResult, ContextError>)
        ensures
            match claim.claim_type {
                ClaimType::TestsPass { test_pattern } => r matches Ok(v) && v.passed
                    && same_claim(v.claim, *claim) && v.task_id is None
                    && v.org_id == org_id
                    && v.output@ == "Test verification placeholder for pattern: "@ + test_pattern@,
                _ => r matches Err(e) && wrong_kind(e),
            },
    {
        match &claim.claim_type {
            ClaimType::TestsPass { test_pattern } => {
                let start = instant_now();
                let mut out = owned("Test verification placeholder for pattern: ");
                append_str(&mut out, test_pattern.as_str());
                Ok(VerificationResult::success(org_id, claim.clone(), out.as_str(), instant_elapsed(&start)))
            },
            _ => Err(ContextError::Internal(owned("Invalid claim type"))),
        }
    }
}

} // verus!
