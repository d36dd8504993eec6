//! Reasoning strategies, the task kinds that select them, and per-strategy
//! performance statistics.

use vstd::prelude::*;
use crate::text::{str_eq, append_str};

verus! {

/// Reasoning strategies that agents can employ.
#[derive(Debug, Clone, Copy, PartialEq, Eq, Structural, Hash)]
pub enum ReasoningStrategy {
    /// Single-turn reasoning for simple tasks.
    ChainOfThought,
    /// Code-centric reasoning with execution.
    ProgramOfThought,
    /// Iterative decomposition and refinement.
    StepwiseRefinement,
    /// Try multiple approaches in parallel.
    ParallelExploration { branches: u32 },
    /// Verify each reasoning step.
    VerifiedReasoning,
}

/// The storage name of a strategy.
pub open spec fn strategy_name(s: ReasoningStrategy) -> Seq<char> {
    match s {
        ReasoningStrategy::ChainOfThought => "chain_of_thought"@,
        ReasoningStrategy::ProgramOfThought => "program_of_thought"@,
        ReasoningStrategy::StepwiseRefinement => "stepwise_refinement"@,
        ReasoningStrategy::ParallelExploration { .. } => "parallel_exploration"@,
        ReasoningStrategy::VerifiedReasoning => "verified_reasoning"@,
    }
}

/// When to use a strategy.
pub open spec fn strategy_description(s: ReasoningStrategy) -> Seq<char> {
    match s {
        ReasoningStrategy::ChainOfThought => "Single-turn reasoning for simple, well-defined tasks"@,
        ReasoningStrategy::ProgramOfThought =>
            "Code-centric approach with execution verification for implementation tasks"@,
        ReasoningStrategy::StepwiseRefinement => "Iterative decomposition for complex multi-step tasks"@,
        ReasoningStrategy::ParallelExploration { .. } =>
            "Multiple parallel approaches for uncertain or exploratory tasks"@,
        ReasoningStrategy::VerifiedReasoning =>
            "Step-by-step verification for high-stakes or bug-fixing tasks"@,
    }
}

/// Relative resource cost: 1 for chain of thought, 3 for program of thought and
/// stepwise refinement, 4 for verified reasoning, and for parallel exploration 2 plus
/// the branch count (taken modulo 256, as a `u8` cast does) capped at 3.
pub open spec fn strategy_cost(s: ReasoningStrategy) -> u8 {
    match s {
        ReasoningStrategy::ChainOfThought => 1,
        ReasoningStrategy::ProgramOfThought => 3,
        ReasoningStrategy::StepwiseRefinement => 3,
        ReasoningStrategy::ParallelExploration { branches } => {
            let b = (branches % 256) as u8;
            (2 + if b < 3 { b } else { 3 }) as u8
        },
        ReasoningStrategy::VerifiedReasoning => 4,
    }
}

impl ReasoningStrategy {
    /// Returns the strategy name as a string.
    pub fn name(&self) -> (r: &'static str)
        ensures
            r@ == strategy_name(*self),
    {
        match self {
            ReasoningStrategy::ChainOfThought => "chain_of_thought",
            ReasoningStrategy::ProgramOfThought => "program_of_thought",
            ReasoningStrategy::StepwiseRefinement => "stepwise_refinement",
            ReasoningStrategy::ParallelExploration { .. } => "parallel_exploration",
            ReasoningStrategy::VerifiedReasoning => "verified_reasoning",
        }
    }

    /// Returns a description of when to use this strategy.
    pub fn description(&self) -> (r: &'static str)
        ensures
            r@ == strategy_description(*self),
    {
        match self {
            ReasoningStrategy::ChainOfThought => "Single-turn reasoning for simple, well-defined tasks",
            ReasoningStrategy::ProgramOfThought =>
                "Code-centric approach with execution verification for implementation tasks",
            ReasoningStrategy::StepwiseRefinement => "Iterative decomposition for complex multi-step tasks",
            ReasoningStrategy::ParallelExploration { .. } =>
                "Multiple parallel approaches for uncertain or exploratory tasks",
            ReasoningStrategy::VerifiedReasoning =>
                "Step-by-step verification for high-stakes or bug-fixing tasks",
        }
    }

    /// Returns the relative resource cost (1-5, 5 being most expensive).
    pub fn resource_cost(&self) -> (c: u8)
        ensures
            c == strategy_cost(*self),
            1 <= c <= 5,
    {
        match self {
            ReasoningStrategy::ChainOfThought => 1,
            ReasoningStrategy::ProgramOfThought => 3,
            ReasoningStrategy::StepwiseRefinement => 3,
            ReasoningStrategy::ParallelExploration { branches } => {
                let b = (*branches % 256) as u8;
                2 + if b < 3 { b } else { 3 }
            },
            ReasoningStrategy::VerifiedReasoning => 4,
        }
    }

    /// Returns true if this strategy requires execution capability.
    pub fn requires_execution(&self) -> (b: bool)
        ensures
            b == (*self is ProgramOfThought || *self is VerifiedReasoning),
    {
        match self {
            ReasoningStrategy::ProgramOfThought | ReasoningStrategy::VerifiedReasoning => true,
            _ => false,
        }
    }
}

impl Default for ReasoningStrategy {
    fn default() -> (s: Self)
        ensures
            s == ReasoningStrategy::ChainOfThought,
    {
        ReasoningStrategy::ChainOfThought
    }
}

/// Task kinds that influence strategy selection.
#[derive(Debug, Clone, Copy, PartialEq, Eq, Structural, Hash)]
pub enum TaskType {
    /// Bug fix task.
    BugFix,
    /// Feature implementation.
    Feature,
    /// Code refactoring.
    Refactor,
    /// Test writing.
    Test,
    /// Code exploration/understanding.
    Exploration,
    /// Documentation.
    Documentation,
    /// Configuration/setup.
    Configuration,
    /// Unknown/general.
    Unknown,
}

/// The storage name of a task kind.
pub open spec fn task_type_name(t: TaskType) -> Seq<char> {
    match t {
        TaskType::BugFix => "bug_fix"@,
        TaskType::Feature => "feature"@,
        TaskType::Refactor => "refactor"@,
        TaskType::Test => "test"@,
        TaskType::Exploration => "exploration"@,
        TaskType::Documentation => "documentation"@,
        TaskType::Configuration => "configuration"@,
        TaskType::Unknown => "unknown"@,
    }
}

/// The task kind whose name is `s`, if any.
pub open spec fn task_type_from_name(s: Seq<char>) -> Option<TaskType> {
    if s == "bug_fix"@ {
        Some(TaskType::BugFix)
    } else if s == "feature"@ {
        Some(TaskType::Feature)
    } else if s == "refactor"@ {
        Some(TaskType::Refactor)
    } else if s == "test"@ {
        Some(TaskType::Test)
    } else if s == "exploration"@ {
        Some(TaskType::Exploration)
    } else if s == "documentation"@ {
        Some(TaskType::Documentation)
    } else if s == "configuration"@ {
        Some(TaskType::Configuration)
    } else if s == "unknown"@ {
        Some(TaskType::Unknown)
    } else {
        None
    }
}

/// The strategy a task kind starts with.
pub open spec fn default_strategy_for(t: TaskType) -> ReasoningStrategy {
    match t {
        TaskType::BugFix => ReasoningStrategy::VerifiedReasoning,
        TaskType::Feature => ReasoningStrategy::StepwiseRefinement,
        TaskType::Refactor => ReasoningStrategy::ProgramOfThought,
        TaskType::Test => ReasoningStrategy::ProgramOfThought,
        TaskType::Exploration => ReasoningStrategy::ParallelExploration { branches: 3 },
        TaskType::Documentation => ReasoningStrategy::ChainOfThought,
        TaskType::Configuration => ReasoningStrategy::ChainOfThought,
        TaskType::Unknown => ReasoningStrategy::StepwiseRefinement,
    }
}

impl TaskType {
    /// Returns the task type as a string.
    pub fn name(&self) -> (r: &'static str)
        ensures
            r@ == task_type_name(*self),
    {
        match self {
            TaskType::BugFix => "bug_fix",
            TaskType::Feature => "feature",
            TaskType::Refactor => "refactor",
            TaskType::Test => "test",
            TaskType::Exploration => "exploration",
            TaskType::Documentation => "documentation",
            TaskType::Configuration => "configuration",
            TaskType::Unknown => "unknown",
        }
    }

    /// The strategy a task of this kind starts with.
    pub fn default_strategy(&self) -> (s: ReasoningStrategy)
        ensures
            s == default_strategy_for(*self),
    {
        match self {
            TaskType::BugFix => ReasoningStrategy::VerifiedReasoning,
            TaskType::Feature => ReasoningStrategy::StepwiseRefinement,
            TaskType::Refactor => ReasoningStrategy::ProgramOfThought,
            TaskType::Test => ReasoningStrategy::ProgramOfThought,
            TaskType::Exploration => ReasoningStrategy::ParallelExploration { branches: 3 },
            TaskType::Documentation => ReasoningStrategy::ChainOfThought,
            TaskType::Configuration => ReasoningStrategy::ChainOfThought,
            TaskType::Unknown => ReasoningStrategy::StepwiseRefinement,
        }
    }

    /// Reads a task type from its name; other text gives `unknown task type: <text>`.
    pub fn parse(s: &str) -> (r: Result<TaskType, String>)
        ensures
            match task_type_from_name(s@) {
                Some(t) => r == Ok::<TaskType, String>(t),
                None => r matches Err(e) && e@ == "unknown task type: "@ + s@,
            },
    {
        if str_eq(s, "bug_fix") {
            Ok(TaskType::BugFix)
        } else if str_eq(s, "feature") {
            Ok(TaskType::Feature)
        } else if str_eq(s, "refactor") {
            Ok(TaskType::Refactor)
        } else if str_eq(s, "test") {
            Ok(TaskType::Test)
        } else if str_eq(s, "exploration") {
            Ok(TaskType::Exploration)
        } else if str_eq(s, "documentation") {
            Ok(TaskType::Documentation)
        } else if str_eq(s, "configuration") {
            Ok(TaskType::Configuration)
        } else if str_eq(s, "unknown") {
            Ok(TaskType::Unknown)
        } else {
            let mut e = String::new();
            append_str(&mut e, "unknown task type: ");
            append_str(&mut e, s);
            Err(e)
        }
    }

    /// The name of the task type, as an owned string.
    pub fn to_string(&self) -> (r: String)
        ensures
            r@ == task_type_name(*self),
    {
        let mut r = String::new();
        append_str(&mut r, self.name());
        r
    }
}

impl Default for TaskType {
    fn default() -> (t: Self)
        ensures
            t == TaskType::Unknown,
    {
        TaskType::Unknown
    }
}

impl std::str::FromStr for TaskType {
    type Err = String;

    fn from_str(s: &str) -> (r: Result<Self, String>)
        ensures
            match task_type_from_name(s@) {
                Some(t) => r == Ok::<TaskType, String>(t),
                None => r matches Err(e) && e@ == "unknown task type: "@ + s@,
            },
    {
        TaskType::parse(s)
    }
}

/// Every task type reads back from its own name.
pub proof fn lemma_task_type_name_roundtrip(t: TaskType)
    ensures
        task_type_from_name(task_type_name(t)) == Some(t),
{
    reveal_strlit("bug_fix");
    reveal_strlit("feature");
    reveal_strlit("refactor");
    reveal_strlit("test");
    reveal_strlit("exploration");
    reveal_strlit("documentation");
    reveal_strlit("configuration");
    reveal_strlit("unknown");
    match t {
        TaskType::BugFix => {
        },
        TaskType::Feature => {
            assert("feature"@[0] != "bug_fix"@[0]);
        },
        TaskType::Refactor => {
            assert("refactor"@.len() != "bug_fix"@.len());
            assert("refactor"@.len() != "feature"@.len());
        },
        TaskType::Test => {
            assert("test"@.len() != "bug_fix"@.len());
            assert("test"@.len() != "feature"@.len());
            assert("test"@.len() != "refactor"@.len());
        },
        TaskType::Exploration => {
            assert("exploration"@.len() != "bug_fix"@.len());
            assert("exploration"@.len() != "feature"@.len());
            assert("exploration"@.len() != "refactor"@.len());
            assert("exploration"@.len() != "test"@.len());
        },
        TaskType::Documentation => {
            assert("documentation"@.len() != "bug_fix"@.len());
            assert("documentation"@.len() != "feature"@.len());
            assert("documentation"@.len() != "refactor"@.len());
            assert("documentation"@.len() != "test"@.len());
            assert("documentation"@.len() != "exploration"@.len());
        },
        TaskType::Configuration => {
            assert("configuration"@.len() != "bug_fix"@.len());
            assert("configuration"@.len() != "feature"@.len());
            assert("configuration"@.len() != "refactor"@.len());
            assert("configuration"@.len() != "test"@.len());
            assert("configuration"@.len() != "exploration"@.len());
            assert("configuration"@[0] != "documentation"@[0]);
        },
        TaskType::Unknown => {
            assert("unknown"@[0] != "bug_fix"@[0]);
            assert("unknown"@[0] != "feature"@[0]);
            assert("unknown"@.len() != "refactor"@.len());
            assert("unknown"@.len() != "test"@.len());
            assert("unknown"@.len() != "exploration"@.len());
            assert("unknown"@.len() != "documentation"@.len());
            assert("unknown"@.len() != "configuration"@.len());
        },
    }
}

/// Performance statistics for a strategy on a task type.
#[derive(Debug, Clone, Copy, PartialEq, Eq, Structural)]
pub struct PerformanceStats {
    /// Number of attempts with this strategy.
    pub attempts: u32,
    /// Number of successful completions.
    pub successes: u32,
    /// Average duration in milliseconds.
    pub avg_duration_ms: Option<u64>,
    /// Average tokens used.
    pub avg_tokens_used: Option<u64>,
}

/// The running average after the `n`-th sample `x` (integer division, as in `u64`).
pub open spec fn next_average(avg: Option<u64>, n: nat, x: u64) -> Option<u64> {
    match avg {
        Some(a) => Some(((a * (n - 1) + x) / (n as int)) as u64),
        None => Some(x),
    }
}

/// The running average can be updated with sample `x` as the `n`-th one without overflow.
pub open spec fn average_fits(avg: Option<u64>, n: nat, x: u64) -> bool {
    match avg {
        Some(a) => a * (n - 1) + x <= u64::MAX,
        None => true,
    }
}

impl Default for PerformanceStats {
    fn default() -> (s: Self)
        ensures
            s == (PerformanceStats { attempts: 0, successes: 0, avg_duration_ms: None, avg_tokens_used: None }),
    {
        PerformanceStats { attempts: 0, successes: 0, avg_duration_ms: None, avg_tokens_used: None }
    }
}

impl PerformanceStats {
    /// Creates new empty performance stats.
    pub fn new() -> (s: Self)
        ensures
            s == (PerformanceStats { attempts: 0, successes: 0, avg_duration_ms: None, avg_tokens_used: None }),
    {
        Self::default()
    }

    /// Records an attempt with the given outcome, updating the running averages.
    pub fn record(&mut self, success: bool, duration_ms: u64, tokens_used: u64)
        requires
            old(self).attempts < u32::MAX,
            success ==> old(self).successes < u32::MAX,
            average_fits(old(self).avg_duration_ms, (old(self).attempts + 1) as nat, duration_ms),
            average_fits(old(self).avg_tokens_used, (old(self).attempts + 1) as nat, tokens_used),
        ensures
            final(self).attempts == old(self).attempts + 1,
            final(self).successes == old(self).successes + if success { 1int } else { 0int },
            final(self).avg_duration_ms == next_average(old(self).avg_duration_ms, final(self).attempts as nat, duration_ms),
            final(self).avg_tokens_used == next_average(old(self).avg_tokens_used, final(self).attempts as nat, tokens_used),
    {
        self.attempts = self.attempts + 1;
        if success {
            self.successes = self.successes + 1;
        }
        let n = self.attempts as u64;
        match self.avg_duration_ms {
            Some(avg) => {
                assert(avg * (n - 1) <= u64::MAX) by (nonlinear_arith)
                    requires avg * (n - 1) + duration_ms <= u64::MAX, duration_ms >= 0;
                self.avg_duration_ms = Some((avg * (n - 1) + duration_ms) / n);
            },
            None => {
                self.avg_duration_ms = Some(duration_ms);
            },
        }
        match self.avg_tokens_used {
            Some(avg) => {
                assert(avg * (n - 1) <= u64::MAX) by (nonlinear_arith)
                    requires avg * (n - 1) + tokens_used <= u64::MAX, tokens_used >= 0;
                self.avg_tokens_used = Some((avg * (n - 1) + tokens_used) / n);
            },
            None => {
                self.avg_tokens_used = Some(tokens_used);
            },
        }
    }
}

/// Recording keeps the successes within the attempts.
pub proof fn lemma_record_keeps_successes_within_attempts(before: PerformanceStats, after: PerformanceStats, success: bool)
    requires
        before.successes <= before.attempts,
        after.attempts == before.attempts + 1,
        after.successes == before.successes + if success { 1int } else { 0int },
    ensures
        after.successes <= after.attempts,
{
}

/// A running average never rises above the largest sample: if the old average and the
/// new sample are at most `m`, so is the new average.
pub proof fn lemma_running_average_bounded(a: u64, n: nat, x: u64, m: u64)
    requires
        n >= 1,
        a <= m,
        x <= m,
        a * (n - 1) + x <= u64::MAX,
    ensures
        next_average(Some(a), n, x) matches Some(r) && r <= m,
{
    assert(a * (n - 1) + x <= m * n) by (nonlinear_arith)
        requires a <= m, x <= m, n >= 1;
    assert((a * (n - 1) + x) / (n as int) <= m) by (nonlinear_arith)
        requires a * (n - 1) + x <= m * n, n >= 1;
}

} // verus!
