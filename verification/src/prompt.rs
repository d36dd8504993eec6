//! Prompt sections that guide reasoning, and the classifier that maps a task
//! description to a task kind.

use vstd::prelude::*;
use crate::strategy::{ReasoningStrategy, TaskType, strategy_name, strategy_description, strategy_cost};
use crate::text::{append_str, decimal, decimal_text, seq_contains, str_contains};
use crate::resource::{ResourceBudget, ResourceUsage, ResourceWarnings};

verus! {

pub const COT_GUIDELINES: &'static str = "1. Think through the problem step-by-step in a single pass\n2. State your reasoning clearly before taking action\n3. Keep explanations concise and focused\n4. Aim to complete the task in one coherent sequence\n5. Avoid over-analyzing; trust your initial assessment\n";

pub const POT_GUIDELINES: &'static str = "1. Focus on writing and executing code to solve the problem\n2. Use execution results to guide your next steps\n3. Prefer code verification over manual reasoning\n4. Test hypotheses through actual execution\n5. Let the compiler/runtime catch errors rather than over-thinking\n6. Document your code to explain intent\n";

pub const STEPWISE_GUIDELINES: &'static str = "1. Break the task into smaller, manageable subtasks\n2. Complete each subtask fully before moving to the next\n3. Review and refine after each step if needed\n4. Track what has been completed and what remains\n5. Consolidate progress periodically\n6. Adjust the plan as new information emerges\n";

pub const PARALLEL_GUIDELINES_HEAD: &'static str = "1. Consider up to ";

pub const PARALLEL_GUIDELINES_TAIL: &'static str = " different approaches in parallel\n2. Briefly evaluate the pros and cons of each approach\n3. Select the most promising approach based on:\n   - Likelihood of success\n   - Resource efficiency\n   - Alignment with constraints\n4. Document why other approaches were rejected\n5. Be willing to backtrack if the chosen approach fails\n6. Keep exploration focused; don't go too deep on any one path until committed\n";

pub const VERIFIED_GUIDELINES: &'static str = "1. Verify each significant step before proceeding\n2. Make claims that can be tested (e.g., \"this compiles\", \"tests pass\")\n3. Execute verification commands after changes\n4. If verification fails, stop and diagnose before continuing\n5. Prefer small, verified changes over large unverified ones\n6. Document what was verified and the results\n7. Never assume something works without confirmation\n";

/// The guidelines of a strategy.
pub open spec fn guidelines_text(s: ReasoningStrategy) -> Seq<char> {
    match s {
        ReasoningStrategy::ChainOfThought => COT_GUIDELINES@,
        ReasoningStrategy::ProgramOfThought => POT_GUIDELINES@,
        ReasoningStrategy::StepwiseRefinement => STEPWISE_GUIDELINES@,
        ReasoningStrategy::ParallelExploration { branches } =>
            PARALLEL_GUIDELINES_HEAD@ + decimal(branches as nat) + PARALLEL_GUIDELINES_TAIL@,
        ReasoningStrategy::VerifiedReasoning => VERIFIED_GUIDELINES@,
    }
}

/// The full strategy section of a prompt.
pub open spec fn strategy_section_text(s: ReasoningStrategy) -> Seq<char> {
    "## Reasoning Strategy\n\n"@ + "**Active Strategy:** "@ + strategy_name(s) + " (resource cost: "@
        + decimal(strategy_cost(s) as nat) + ")\n\n"@ + strategy_description(s) + "\n\n"@
        + "### Guidelines\n\n"@ + guidelines_text(s)
}

/// The one-line hint of a strategy.
pub open spec fn compact_hint_text(s: ReasoningStrategy) -> Seq<char> {
    match s {
        ReasoningStrategy::ChainOfThought => "[Strategy: Single-pass reasoning. Think through, then act.]"@,
        ReasoningStrategy::ProgramOfThought => "[Strategy: Code-centric. Write code and execute to verify.]"@,
        ReasoningStrategy::StepwiseRefinement => "[Strategy: Decompose. Complete subtasks incrementally.]"@,
        ReasoningStrategy::ParallelExploration { branches } =>
            "[Strategy: Explore "@ + decimal(branches as nat) + " approaches. Compare, then commit.]"@,
        ReasoningStrategy::VerifiedReasoning => "[Strategy: Verify each step. Test before proceeding.]"@,
    }
}

/// Builds strategy-specific prompt sections to guide LLM reasoning.
pub struct StrategyPromptBuilder;

impl Default for StrategyPromptBuilder {
    fn default() -> Self {
        StrategyPromptBuilder
    }
}

impl StrategyPromptBuilder {
    /// Creates a new strategy prompt builder.
    pub fn new() -> Self {
        StrategyPromptBuilder
    }

    /// Builds a strategy instruction section for the given strategy.
    pub fn build_strategy_section(&self, strategy: &ReasoningStrategy) -> (r: String)
        ensures
            r@ == strategy_section_text(*strategy),
    {
        let mut section = String::new();
        append_str(&mut section, "## Reasoning Strategy\n\n");
        append_str(&mut section, "**Active Strategy:** ");
        append_str(&mut section, strategy.name());
        append_str(&mut section, " (resource cost: ");
        let cost = decimal_text(strategy.resource_cost() as u64);
        append_str(&mut section, cost.as_str());
        append_str(&mut section, ")\n\n");
        append_str(&mut section, strategy.description());
        append_str(&mut section, "\n\n");
        append_str(&mut section, "### Guidelines\n\n");
        let g = self.build_guidelines(strategy);
        append_str(&mut section, g.as_str());
        section
    }

    /// Builds strategy-specific guidelines.
    fn build_guidelines(&self, strategy: &ReasoningStrategy) -> (r: String)
        ensures
            r@ == guidelines_text(*strategy),
    {
        let mut r = String::new();
        match strategy {
            ReasoningStrategy::ChainOfThought => append_str(&mut r, COT_GUIDELINES),
            ReasoningStrategy::ProgramOfThought => append_str(&mut r, POT_GUIDELINES),
            ReasoningStrategy::StepwiseRefinement => append_str(&mut r, STEPWISE_GUIDELINES),
            ReasoningStrategy::ParallelExploration { branches } => {
                append_str(&mut r, PARALLEL_GUIDELINES_HEAD);
                let n = decimal_text(*branches as u64);
                append_str(&mut r, n.as_str());
                append_str(&mut r, PARALLEL_GUIDELINES_TAIL);
            },
            ReasoningStrategy::VerifiedReasoning => append_str(&mut r, VERIFIED_GUIDELINES),
        }
        r
    }

    /// Returns a compact strategy hint for inline use.
    pub fn build_compact_hint(&self, strategy: &ReasoningStrategy) -> (r: String)
        ensures
            r@ == compact_hint_text(*strategy),
    {
        let mut r = String::new();
        match strategy {
            ReasoningStrategy::ChainOfThought =>
                append_str(&mut r, "[Strategy: Single-pass reasoning. Think through, then act.]"),
            ReasoningStrategy::ProgramOfThought =>
                append_str(&mut r, "[Strategy: Code-centric. Write code and execute to verify.]"),
            ReasoningStrategy::StepwiseRefinement =>
                append_str(&mut r, "[Strategy: Decompose. Complete subtasks incrementally.]"),
            ReasoningStrategy::ParallelExploration { branches } => {
                append_str(&mut r, "[Strategy: Explore ");
                let n = decimal_text(*branches as u64);
                append_str(&mut r, n.as_str());
                append_str(&mut r, " approaches. Compare, then commit.]");
            },
            ReasoningStrategy::VerifiedReasoning =>
                append_str(&mut r, "[Strategy: Verify each step. Test before proceeding.]"),
        }
        r
    }
}

/// The lowercase form of `s`, as `str::to_lowercase` computes it (Unicode lowercase
/// mapping of each character).
pub uninterp spec fn lowercase(s: Seq<char>) -> Seq<char>;

/// Calls `str::to_lowercase`. Claims that the result is `lowercase(s@)`.
#[verifier::external_body]
pub(crate) fn to_lowercase(s: &str) -> (r: String)
    ensures
        r@ == lowercase(s@),
{
    s.to_lowercase()
}

/// The task kind of a (lowercased) description: the first group with a keyword that
/// occurs in it wins, in the order bug fix, feature, refactor, test, exploration,
/// documentation, configuration.
pub open spec fn classify_lower(d: Seq<char>) -> TaskType {
    if seq_contains(d, "fix"@) || seq_contains(d, "bug"@) || seq_contains(d, "issue"@)
        || seq_contains(d, "error"@) {
        TaskType::BugFix
    } else if seq_contains(d, "add"@) || seq_contains(d, "implement"@) || seq_contains(d, "create"@)
        || seq_contains(d, "new feature"@) {
        TaskType::Feature
    } else if seq_contains(d, "refactor"@) || seq_contains(d, "restructure"@)
        || seq_contains(d, "reorganize"@) || seq_contains(d, "clean up"@) {
        TaskType::Refactor
    } else if seq_contains(d, "test"@) || seq_contains(d, "spec"@) || seq_contains(d, "coverage"@) {
        TaskType::Test
    } else if seq_contains(d, "explore"@) || seq_contains(d, "understand"@)
        || seq_contains(d, "investigate"@) || seq_contains(d, "analyze"@) {
        TaskType::Exploration
    } else if seq_contains(d, "doc"@) || seq_contains(d, "readme"@) || seq_contains(d, "comment"@) {
        TaskType::Documentation
    } else if seq_contains(d, "config"@) || seq_contains(d, "setup"@) || seq_contains(d, "install"@) {
        TaskType::Configuration
    } else {
        TaskType::Unknown
    }
}

/// Classifies tasks to determine appropriate strategies.
pub struct TaskClassifier;

impl Default for TaskClassifier {
    fn default() -> Self {
        TaskClassifier
    }
}

impl TaskClassifier {
    /// Creates a new task classifier.
    pub fn new() -> Self {
        TaskClassifier
    }

    /// Classifies a task based on its description, by keywords of its lowercase form.
    pub fn classify(&self, description: &str) -> (t: TaskType)
        ensures
            t == classify_lower(lowercase(description@)),
    {
        let lower = to_lowercase(description);
        let d = lower.as_str();
        if str_contains(d, "fix") || str_contains(d, "bug") || str_contains(d, "issue")
            || str_contains(d, "error") {
            TaskType::BugFix
        } else if str_contains(d, "add") || str_contains(d, "implement") || str_contains(d, "create")
            || str_contains(d, "new feature") {
            TaskType::Feature
        } else if str_contains(d, "refactor") || str_contains(d, "restructure")
            || str_contains(d, "reorganize") || str_contains(d, "clean up") {
            TaskType::Refactor
        } else if str_contains(d, "test") || str_contains(d, "spec") || str_contains(d, "coverage") {
            TaskType::Test
        } else if str_contains(d, "explore") || str_contains(d, "understand")
            || str_contains(d, "investigate") || str_contains(d, "analyze") {
            TaskType::Exploration
        } else if str_contains(d, "doc") || str_contains(d, "readme") || str_contains(d, "comment") {
            TaskType::Documentation
        } else if str_contains(d, "config") || str_contains(d, "setup") || str_contains(d, "install") {
            TaskType::Configuration
        } else {
            TaskType::Unknown
        }
    }
}

/// Builds resource-awareness sections for prompts from a budget and the usage so far.
pub struct ResourceAwarePromptBuilder {
    budget: ResourceBudget,
    usage: ResourceUsage,
}

/// The action suggested under the given warnings: wrap up when both context and time
/// are under pressure, else address the first pressure among context, time, steps
/// and memory; none without pressure.
pub open spec fn suggested_action_text(w: ResourceWarnings) -> Option<&'static str> {
    if w.context_pressure && w.time_pressure {
        Some("CRITICAL: Wrap up immediately and report partial progress")
    } else if w.context_pressure {
        Some("Summarize context and remove low-relevance information")
    } else if w.time_pressure {
        Some("Prioritize completing the most important subtask")
    } else if w.step_pressure {
        Some("Combine remaining steps and move toward completion")
    } else if w.memory_pressure {
        Some("Consolidate memories and prune low-relevance items")
    } else {
        None
    }
}

/// The warning block of the resource section: empty without warnings, else a
/// heading and one line per resource under pressure.
pub open spec fn warnings_block(w: ResourceWarnings) -> Seq<char> {
    if !(w.context_pressure || w.time_pressure || w.step_pressure || w.memory_pressure) {
        Seq::empty()
    } else {
        "\n**Resource Warnings:**\n"@
            + (if w.context_pressure { "- Context window near capacity. Consider summarizing or completing soon.\n"@ } else { Seq::empty() })
            + (if w.time_pressure { "- Task time limit approaching. Prioritize completion.\n"@ } else { Seq::empty() })
            + (if w.step_pressure { "- Reasoning step limit approaching. Converge on solution.\n"@ } else { Seq::empty() })
            + (if w.memory_pressure { "- Memory limit approaching. Consider consolidating.\n"@ } else { Seq::empty() })
    }
}

impl ResourceAwarePromptBuilder {
    /// A builder for the given budget and usage.
    pub fn new(budget: ResourceBudget, usage: ResourceUsage) -> (b: Self)
        ensures
            b.budget_spec() == budget,
            b.usage_spec() == usage,
    {
        ResourceAwarePromptBuilder { budget, usage }
    }

    /// The budget the builder reports against.
    pub closed spec fn budget_spec(&self) -> ResourceBudget {
        self.budget
    }

    /// The usage the builder reports.
    pub closed spec fn usage_spec(&self) -> ResourceUsage {
        self.usage
    }

    /// The budget the builder reports against.
    pub fn budget(&self) -> (b: &ResourceBudget)
        ensures
            *b == self.budget_spec(),
    {
        &self.budget
    }

    /// The usage the builder reports.
    pub fn usage(&self) -> (u: &ResourceUsage)
        ensures
            *u == self.usage_spec(),
    {
        &self.usage
    }

    /// The action suggested under the given warnings (see `suggested_action_text`).
    pub fn suggested_action_for(warnings: &ResourceWarnings) -> (a: Option<&'static str>)
        ensures
            a == suggested_action_text(*warnings),
    {
        if warnings.context_pressure && warnings.time_pressure {
            Some("CRITICAL: Wrap up immediately and report partial progress")
        } else if warnings.context_pressure {
            Some("Summarize context and remove low-relevance information")
        } else if warnings.time_pressure {
            Some("Prioritize completing the most important subtask")
        } else if warnings.step_pressure {
            Some("Combine remaining steps and move toward completion")
        } else if warnings.memory_pressure {
            Some("Consolidate memories and prune low-relevance items")
        } else {
            None
        }
    }

    /// The warning block of the resource section under the given warnings.
    pub fn warnings_section(warnings: &ResourceWarnings) -> (s: String)
        ensures
            s@ == warnings_block(*warnings),
    {
        let mut s = String::new();
        if warnings.any() {
            append_str(&mut s, "\n**Resource Warnings:**\n");
            let ghost a = s@;
            if warnings.context_pressure {
                append_str(&mut s, "- Context window near capacity. Consider summarizing or completing soon.\n");
            }
            let ghost b = s@;
            if warnings.time_pressure {
                append_str(&mut s, "- Task time limit approaching. Prioritize completion.\n");
            }
            let ghost c = s@;
            if warnings.step_pressure {
                append_str(&mut s, "- Reasoning step limit approaching. Converge on solution.\n");
            }
            let ghost d = s@;
            if warnings.memory_pressure {
                append_str(&mut s, "- Memory limit approaching. Consider consolidating.\n");
            }
            assert(s@ =~= warnings_block(*warnings));
        } else {
            assert(s@ =~= warnings_block(*warnings));
        }
        s
    }
}


/// No character of `s` from index `i` on is `c`.
pub open spec fn lacks_char_from(s: Seq<char>, c: char, i: int) -> bool
    decreases s.len() - i,
{
    if i < 0 || i >= s.len() {
        true
    } else {
        s[i] != c && lacks_char_from(s, c, i + 1)
    }
}

/// A text without `R` does not contain `CRITICAL`.
proof fn lemma_no_critical(s: Seq<char>)
    requires
        lacks_char_from(s, 'R', 0),
    ensures
        !seq_contains(s, "CRITICAL"@),
{
    reveal_strlit("CRITICAL");
    lemma_lacks_char(s, 'R', 0);
    if seq_contains(s, "CRITICAL"@) {
        let i = choose|i: int| crate::text::occurs_at(s, "CRITICAL"@, i);
        assert(s.subrange(i, i + 8)[1] == "CRITICAL"@[1]);
    }
}

/// `lacks_char_from` holds of each index from `i` on.
proof fn lemma_lacks_char(s: Seq<char>, c: char, i: int)
    requires
        0 <= i,
        lacks_char_from(s, c, i),
    ensures
        forall|k: int| i <= k < s.len() ==> s[k] != c,
    decreases s.len() - i,
{
    if i < s.len() {
        lemma_lacks_char(s, c, i + 1);
    }
}

/// The suggested action is absent exactly when no resource is under pressure, and
/// it mentions `CRITICAL` exactly when both the context and the time are under
/// pressure.
pub proof fn lemma_suggested_action_critical(w: ResourceWarnings)
    ensures
        suggested_action_text(w) is None <==> !(w.context_pressure || w.time_pressure || w.step_pressure
            || w.memory_pressure),
        (suggested_action_text(w) matches Some(t) && seq_contains(t@, "CRITICAL"@)) <==> (w.context_pressure
            && w.time_pressure),
{
    if w.context_pressure && w.time_pressure {
        reveal_strlit("CRITICAL: Wrap up immediately and report partial progress");
        reveal_strlit("CRITICAL");
        let t = "CRITICAL: Wrap up immediately and report partial progress"@;
        assert(t.subrange(0, 8) =~= "CRITICAL"@);
        assert(crate::text::occurs_at(t, "CRITICAL"@, 0));
    } else if w.context_pressure {
        reveal_strlit("Summarize context and remove low-relevance information");
        reveal_with_fuel(lacks_char_from, 60);
        lemma_no_critical("Summarize context and remove low-relevance information"@);
    } else if w.time_pressure {
        reveal_strlit("Prioritize completing the most important subtask");
        reveal_with_fuel(lacks_char_from, 60);
        lemma_no_critical("Prioritize completing the most important subtask"@);
    } else if w.step_pressure {
        reveal_strlit("Combine remaining steps and move toward completion");
        reveal_with_fuel(lacks_char_from, 60);
        lemma_no_critical("Combine remaining steps and move toward completion"@);
    } else if w.memory_pressure {
        reveal_strlit("Consolidate memories and prune low-relevance items");
        reveal_with_fuel(lacks_char_from, 60);
        lemma_no_critical("Consolidate memories and prune low-relevance items"@);
    }
}

/// A description is classified by the keywords of its lowercase form, the groups
/// tried in order: a bug-fix keyword (`fix`, `bug`, `issue`, `error`) makes it a bug
/// fix, whatever else it mentions, and a bug fix is worked with verified reasoning;
/// otherwise a feature keyword (`add`, `implement`, `create`, `new feature`) makes it
/// a feature; then refactoring (`refactor`, `restructure`, `reorganize`, `clean
/// up`), tests (`test`, `spec`, `coverage`), exploration (`explore`, `understand`,
/// `investigate`, `analyze`), documentation (`doc`, `readme`, `comment`) and
/// configuration (`config`, `setup`, `install`); a description with none of these
/// keywords is of unknown kind.
pub proof fn lemma_classification_by_keywords(description: Seq<char>)
    ensures
        ({
            let l = lowercase(description);
            let bug = seq_contains(l, "fix"@) || seq_contains(l, "bug"@) || seq_contains(l, "issue"@)
                || seq_contains(l, "error"@);
            let feature = seq_contains(l, "add"@) || seq_contains(l, "implement"@)
                || seq_contains(l, "create"@) || seq_contains(l, "new feature"@);
            let refactor = seq_contains(l, "refactor"@) || seq_contains(l, "restructure"@)
                || seq_contains(l, "reorganize"@) || seq_contains(l, "clean up"@);
            let test = seq_contains(l, "test"@) || seq_contains(l, "spec"@) || seq_contains(l, "coverage"@);
            let explore = seq_contains(l, "explore"@) || seq_contains(l, "understand"@)
                || seq_contains(l, "investigate"@) || seq_contains(l, "analyze"@);
            let doc = seq_contains(l, "doc"@) || seq_contains(l, "readme"@) || seq_contains(l, "comment"@);
            let config = seq_contains(l, "config"@) || seq_contains(l, "setup"@) || seq_contains(l, "install"@);
            let t = classify_lower(l);
            &&& bug ==> t == TaskType::BugFix
            &&& bug ==> crate::strategy::default_strategy_for(t) == ReasoningStrategy::VerifiedReasoning
            &&& !bug && feature ==> t == TaskType::Feature
            &&& !bug && !feature && refactor ==> t == TaskType::Refactor
            &&& !bug && !feature && !refactor && test ==> t == TaskType::Test
            &&& !bug && !feature && !refactor && !test && explore ==> t == TaskType::Exploration
            &&& !bug && !feature && !refactor && !test && !explore && doc ==> t == TaskType::Documentation
            &&& !bug && !feature && !refactor && !test && !explore && !doc && config
                ==> t == TaskType::Configuration
            &&& !bug && !feature && !refactor && !test && !explore && !doc && !config ==> t == TaskType::Unknown
        }),
{
}

} // verus!
