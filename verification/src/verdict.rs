//! The judge's verdict on a task completion, and how a completion is judged.

use vstd::prelude::*;
use crate::text::{append_str, join_seq, join_strings, owned, views_of};
use crate::work::{TaskCompletion, VerificationResult};

verus! {

/// Result of judging a task completion.
#[derive(Debug, Clone)]
pub enum Verdict {
    /// The task was completed successfully.
    Approved { feedback: String },
    /// The task needs more work.
    NeedsIteration { feedback: String, suggestions: Vec<String> },
    /// The task cannot be completed here; the planner must decide.
    Escalate { reason: String },
}

/// The snake-case name of a verdict's kind.
pub open spec fn verdict_name(v: Verdict) -> Seq<char> {
    match v {
        Verdict::Approved { .. } => "approved"@,
        Verdict::NeedsIteration { .. } => "needs_iteration"@,
        Verdict::Escalate { .. } => "escalate"@,
    }
}

impl Verdict {
    /// An approval with the given feedback.
    pub fn approved(feedback: &str) -> (v: Self)
        ensures
            v matches Verdict::Approved { feedback: f } && f@ == feedback@,
    {
        Verdict::Approved { feedback: owned(feedback) }
    }

    /// A request for another iteration, with feedback and suggestions.
    pub fn needs_iteration(feedback: &str, suggestions: Vec<String>) -> (v: Self)
        ensures
            v matches Verdict::NeedsIteration { feedback: f, suggestions: s }
                && f@ == feedback@ && s == suggestions,
    {
        Verdict::NeedsIteration { feedback: owned(feedback), suggestions }
    }

    /// An escalation with the given reason.
    pub fn escalate(reason: &str) -> (v: Self)
        ensures
            v matches Verdict::Escalate { reason: r } && r@ == reason@,
    {
        Verdict::Escalate { reason: owned(reason) }
    }

    /// Whether the verdict approves the task.
    pub fn is_approved(&self) -> (b: bool)
        ensures
            b <==> *self is Approved,
    {
        match self {
            Verdict::Approved { .. } => true,
            _ => false,
        }
    }

    /// Whether the verdict asks for another iteration.
    pub fn needs_work(&self) -> (b: bool)
        ensures
            b <==> *self is NeedsIteration,
    {
        match self {
            Verdict::NeedsIteration { .. } => true,
            _ => false,
        }
    }

    /// Whether the verdict escalates to the planner.
    pub fn should_escalate(&self) -> (b: bool)
        ensures
            b <==> *self is Escalate,
    {
        match self {
            Verdict::Escalate { .. } => true,
            _ => false,
        }
    }

    /// The snake-case name of the verdict's kind.
    pub fn to_string(&self) -> (s: String)
        ensures
            s@ == verdict_name(*self),
    {
        match self {
            Verdict::Approved { .. } => owned("approved"),
            Verdict::NeedsIteration { .. } => owned("needs_iteration"),
            Verdict::Escalate { .. } => owned("escalate"),
        }
    }
}

/// Every verdict is exactly one of approved, needing work, or escalated.
pub proof fn lemma_verdict_exactly_one_kind(v: Verdict)
    ensures
        (v is Approved) || (v is NeedsIteration) || (v is Escalate),
        !((v is Approved) && (v is NeedsIteration)),
        !((v is Approved) && (v is Escalate)),
        !((v is NeedsIteration) && (v is Escalate)),
{
}

/// The criteria of the failed verification results, in order.
pub open spec fn failed_criteria(vs: Seq<VerificationResult>) -> Seq<Seq<char>>
    decreases vs.len(),
{
    if vs.len() == 0 {
        Seq::empty()
    } else if vs.last().passed {
        failed_criteria(vs.drop_last())
    } else {
        failed_criteria(vs.drop_last()).push(vs.last().criterion@)
    }
}

/// Whether every verification passed.
pub open spec fn all_passed(vs: Seq<VerificationResult>) -> bool {
    forall|i: int| 0 <= i < vs.len() ==> #[trigger] vs[i].passed
}

proof fn lemma_failed_criteria_empty(vs: Seq<VerificationResult>)
    ensures
        failed_criteria(vs).len() == 0 <==> all_passed(vs),
    decreases vs.len(),
{
    if vs.len() > 0 {
        lemma_failed_criteria_empty(vs.drop_last());
        if all_passed(vs) {
            assert forall|i: int| 0 <= i < vs.drop_last().len() implies #[trigger] vs.drop_last()[i].passed by {
                assert(vs[i].passed);
            }
        } else if vs.last().passed {
            let i = choose|i: int| 0 <= i < vs.len() && !#[trigger] vs[i].passed;
            assert(vs.drop_last()[i] == vs[i]);
        }
    }
}

/// The criteria of the failed verifications, in order.
fn collect_failures(vs: &Vec<VerificationResult>) -> (r: Vec<String>)
    ensures
        views_of(r@) == failed_criteria(vs@),
{
    let mut r: Vec<String> = Vec::new();
    let mut i: usize = 0;
    while i < vs.len()
        invariant
            i <= vs@.len(),
            views_of(r@) == failed_criteria(vs@.subrange(0, i as int)),
        decreases vs.len() - i,
    {
        proof {
            assert(vs@.subrange(0, i + 1).drop_last() =~= vs@.subrange(0, i as int));
        }
        if !vs[i].passed {
            let c = vs[i].criterion.clone();
            r.push(c);
            proof {
                assert(views_of(r@) =~= views_of(r@.drop_last()).push(c@));
            }
        }
        i = i + 1;
    }
    assert(vs@.subrange(0, vs@.len() as int) =~= vs@);
    r
}

/// Judges a completion: any failed verification asks for another iteration that
/// lists the failed criteria; an empty summary asks for a meaningful summary;
/// otherwise the task is approved with its summary.
pub fn evaluate_completion(completion: &TaskCompletion) -> (v: Verdict)
    ensures
        !all_passed(completion.verifications@) ==> (v matches Verdict::NeedsIteration { feedback, suggestions }
            && feedback@ == "Verification failures: "@ + join_seq(failed_criteria(completion.verifications@), ", "@)
            && views_of(suggestions@) == failed_criteria(completion.verifications@)),
        all_passed(completion.verifications@) && completion.output.summary@.len() == 0
            ==> (v matches Verdict::NeedsIteration { feedback, suggestions }
            && feedback@ == "Output summary is empty"@
            && views_of(suggestions@) == seq!["Provide a meaningful summary"@]),
        all_passed(completion.verifications@) && completion.output.summary@.len() > 0
            ==> (v matches Verdict::Approved { feedback }
            && feedback@ == "Task completed successfully: "@ + completion.output.summary@),
{
    let failures = collect_failures(&completion.verifications);
    proof {
        lemma_failed_criteria_empty(completion.verifications@);
    }
    if failures.len() > 0 {
        let joined = join_strings(&failures, ", ");
        let mut feedback = owned("Verification failures: ");
        append_str(&mut feedback, joined.as_str());
        return Verdict::NeedsIteration { feedback, suggestions: failures };
    }
    if completion.output.summary.as_str().is_empty() {
        let mut suggestions: Vec<String> = Vec::new();
        suggestions.push(owned("Provide a meaningful summary"));
        proof {
            assert(views_of(suggestions@) =~= seq!["Provide a meaningful summary"@]);
        }
        return Verdict::NeedsIteration { feedback: owned("Output summary is empty"), suggestions };
    }
    let mut feedback = owned("Task completed successfully: ");
    append_str(&mut feedback, completion.output.summary.as_str());
    Verdict::Approved { feedback }
}

/// Whether `current_iteration` has reached the iteration limit `max_iterations`.
pub fn max_iterations_reached(current_iteration: u32, max_iterations: u32) -> (b: bool)
    ensures
        b <==> current_iteration >= max_iterations,
{
    current_iteration >= max_iterations
}

} // verus!
