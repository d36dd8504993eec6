//! What a domain planner decides: the tasks it creates when it starts, when one
//! of its tasks completes, when the judge asks for another iteration, when files
//! of its domain change and when planning is requested; and the book it keeps of
//! its open tasks and its activity.
//!
//! A planned task carries everything the runtime needs to create the task: its
//! kind, its description and its specification.

use vstd::prelude::*;
use crate::text::{owned, append_str, views_of, join_seq, join_strings, seq_contains, str_contains, str_eq};
use crate::ids::{TaskId, uuid_hyphenated};
use crate::events::PlannerEvent;
use crate::metrics::PlannerMetrics;

verus! {

/// Coverage target, in percent, of the test tasks a planner creates.
pub const TEST_COVERAGE_PERCENT: u32 = 80;

/// The kind of a planned task and the data that kind carries.
#[derive(Debug, Clone)]
pub enum PlannedKind {
    /// Questions to answer, without code changes.
    Exploration { questions: Vec<String> },
    /// A feature and its acceptance criteria.
    Feature { acceptance_criteria: Vec<String> },
    /// Tests to write, with a coverage target in percent.
    Test { coverage_percent: Option<u32> },
    /// A fix, with the steps that show the bug and the behaviour expected.
    BugFix { reproduction_steps: Vec<String>, expected_behavior: String },
}

/// A task the planner wants created.
#[derive(Debug, Clone)]
pub struct PlannedTask {
    /// Kind of task.
    pub kind: PlannedKind,
    /// Human-readable description.
    pub description: String,
    /// What the task must achieve.
    pub specification: crate::work::TaskSpecification,
}

/// `s` holds exactly the requirements `reqs` and the hints `hints`, and no
/// criteria, constraints or context.
pub open spec fn plain_spec(
    s: crate::work::TaskSpecification,
    reqs: Seq<Seq<char>>,
    hints: Seq<Seq<char>>,
) -> bool {
    &&& views_of(s.requirements@) == reqs
    &&& views_of(s.hints@) == hints
    &&& s.success_criteria@.len() == 0
    &&& s.constraints@.len() == 0
    &&& s.context@.len() == 0
}

/// A list of one string.
fn one_string(a: String) -> (v: Vec<String>)
    ensures
        views_of(v@) == seq![a@],
{
    let mut v: Vec<String> = Vec::new();
    v.push(a);
    assert(views_of(v@) =~= seq![a@]);
    v
}

/// A list of three strings.
fn three_strings(a: String, b: String, c: String) -> (v: Vec<String>)
    ensures
        views_of(v@) == seq![a@, b@, c@],
{
    let mut v: Vec<String> = Vec::new();
    v.push(a);
    v.push(b);
    v.push(c);
    assert(views_of(v@) =~= seq![a@, b@, c@]);
    v
}

/// A specification with the given requirements and hints only.
fn plain_specification(requirements: Vec<String>, hints: Vec<String>) -> (s: crate::work::TaskSpecification)
    ensures
        plain_spec(s, views_of(requirements@), views_of(hints@)),
{
    crate::work::TaskSpecification {
        requirements,
        success_criteria: Vec::new(),
        constraints: Vec::new(),
        hints,
        context: Vec::new(),
    }
}

/// The questions of the first exploration of a domain named `name`.
pub open spec fn exploration_questions(name: Seq<char>) -> Seq<Seq<char>> {
    seq![
        "What are the main components in "@ + name + "?"@,
        "What patterns are used?"@,
        "What are the key dependencies?"@,
    ]
}

/// `t` is the first task of the planner of a domain named `name`.
pub open spec fn is_exploration_plan(t: PlannedTask, name: Seq<char>) -> bool {
    &&& t.kind matches PlannedKind::Exploration { questions }
        && views_of(questions@) == exploration_questions(name)
    &&& t.description@ == "Explore "@ + name + " domain structure"@
    &&& plain_spec(
        t.specification,
        seq!["Identify main components"@, "Document patterns used"@, "List key dependencies"@],
        seq![],
    )
}

/// The task a planner starts with: an exploration of its domain's components,
/// patterns and dependencies.
pub fn exploration_plan(domain_name: &str) -> (t: PlannedTask)
    ensures
        is_exploration_plan(t, domain_name@),
{
    let mut q = owned("What are the main components in ");
    append_str(&mut q, domain_name);
    append_str(&mut q, "?");
    let questions = three_strings(q, owned("What patterns are used?"), owned("What are the key dependencies?"));
    let mut description = owned("Explore ");
    append_str(&mut description, domain_name);
    append_str(&mut description, " domain structure");
    let requirements = three_strings(
        owned("Identify main components"),
        owned("Document patterns used"),
        owned("List key dependencies"),
    );
    let specification = plain_specification(requirements, Vec::new());
    proof {
        assert(views_of(Seq::<String>::empty()) =~= Seq::<Seq<char>>::empty());
    }
    PlannedTask { kind: PlannedKind::Exploration { questions }, description, specification }
}

/// Whether the planner takes up a suggestion: those of negative priority are dropped.
pub fn accepts_suggestion(s: &crate::work::TaskSuggestion) -> (b: bool)
    ensures
        b == (s.priority >= 0),
{
    s.priority >= 0
}

/// `t` is the feature task made from suggestion `s`.
pub open spec fn is_suggestion_plan(t: PlannedTask, s: crate::work::TaskSuggestion) -> bool {
    &&& t.kind matches PlannedKind::Feature { acceptance_criteria }
        && views_of(acceptance_criteria@) == seq![s.description@]
    &&& t.description@ == s.description@
    &&& plain_spec(t.specification, seq![s.description@], seq![s.rationale@])
}

/// A feature task from a worker's suggestion: its description is the single
/// acceptance criterion and requirement, its rationale the single hint.
pub fn suggestion_plan(s: &crate::work::TaskSuggestion) -> (t: PlannedTask)
    ensures
        is_suggestion_plan(t, *s),
{
    let criteria = one_string(s.description.clone());
    let requirements = one_string(s.description.clone());
    let hints = one_string(s.rationale.clone());
    let specification = plain_specification(requirements, hints);
    PlannedTask {
        kind: PlannedKind::Feature { acceptance_criteria: criteria },
        description: s.description.clone(),
        specification,
    }
}

/// `t` is the task that iterates on task `id` after feedback `feedback`.
pub open spec fn is_iteration_plan(t: PlannedTask, id: Seq<char>, feedback: Seq<char>) -> bool {
    &&& t.kind matches PlannedKind::BugFix { reproduction_steps, expected_behavior }
        && views_of(reproduction_steps@) == seq!["See original task"@]
        && expected_behavior@ == feedback
    &&& t.description@ == "Iteration for task "@ + id + ": "@ + feedback
    &&& plain_spec(t.specification, seq![feedback], seq!["Original task: "@ + id])
}

/// The task that acts on the judge's feedback about the task named `original_task_id`.
pub fn iteration_plan(original_task_id: &str, feedback: &str) -> (t: PlannedTask)
    ensures
        is_iteration_plan(t, original_task_id@, feedback@),
{
    let steps = one_string(owned("See original task"));
    let mut description = owned("Iteration for task ");
    append_str(&mut description, original_task_id);
    append_str(&mut description, ": ");
    append_str(&mut description, feedback);
    let mut hint = owned("Original task: ");
    append_str(&mut hint, original_task_id);
    let specification = plain_specification(one_string(owned(feedback)), one_string(hint));
    PlannedTask {
        kind: PlannedKind::BugFix { reproduction_steps: steps, expected_behavior: owned(feedback) },
        description,
        specification,
    }
}

/// `t` is the investigation planned for `reason`.
pub open spec fn is_investigation_plan(t: PlannedTask, reason: Seq<char>) -> bool {
    &&& t.kind matches PlannedKind::Exploration { questions }
        && views_of(questions@) == seq!["How to address: "@ + reason]
    &&& t.description@ == "Investigation: "@ + reason
    &&& plain_spec(t.specification, seq![reason], seq![])
}

/// The exploration a planner plans when asked to plan for `reason`.
pub fn investigation_plan(reason: &str) -> (t: PlannedTask)
    ensures
        is_investigation_plan(t, reason@),
{
    let mut q = owned("How to address: ");
    append_str(&mut q, reason);
    let mut description = owned("Investigation: ");
    append_str(&mut description, reason);
    let specification = plain_specification(one_string(owned(reason)), Vec::new());
    proof {
        assert(views_of(Seq::<String>::empty()) =~= Seq::<Seq<char>>::empty());
    }
    PlannedTask { kind: PlannedKind::Exploration { questions: one_string(q) }, description, specification }
}


/// `p` without its trailing separators and trailing `.` components, which
/// `Path::components` skips (a lone `/`, the root, stays).
pub open spec fn trim_path_end(p: Seq<char>) -> Seq<char>
    decreases p.len(),
{
    if p.len() > 1 && p.last() == '/' {
        trim_path_end(p.drop_last())
    } else if p.len() > 1 && p.last() == '.' && p[p.len() - 2] == '/' {
        trim_path_end(p.drop_last())
    } else {
        p
    }
}

/// The index where the last `/`-separated piece of `s[..i]` starts.
pub open spec fn last_piece_start(s: Seq<char>, i: int) -> int
    decreases i,
{
    if i <= 0 {
        0
    } else if s[i - 1] == '/' {
        i
    } else {
        last_piece_start(s, i - 1)
    }
}

/// The final component of the path `p` when it names a file or directory, as
/// `Path::file_name` gives it: `None` for an empty path, the root, `.` or a path
/// that ends in `..` (Unix path syntax).
pub open spec fn path_file_name(p: Seq<char>) -> Option<Seq<char>> {
    let t = trim_path_end(p);
    let name = t.subrange(last_piece_start(t, t.len() as int), t.len() as int);
    if name.len() == 0 || name == seq!['.'] || name == seq!['.', '.'] {
        None
    } else {
        Some(name)
    }
}

/// The index of the last `.` in `s[..i]`, or -1 when there is none.
pub open spec fn last_dot_before(s: Seq<char>, i: int) -> int
    decreases i,
{
    if i <= 0 {
        -1
    } else if s[i - 1] == '.' {
        i - 1
    } else {
        last_dot_before(s, i - 1)
    }
}

/// The extension of the path `p`, as `Path::extension` documents it: the part of
/// the file name after its final `.`; `None` when there is no file name, no `.`
/// in it, or only a leading one.
pub open spec fn path_extension_of(p: Seq<char>) -> Option<Seq<char>> {
    match path_file_name(p) {
        Some(name) => {
            let d = last_dot_before(name, name.len() as int);
            if d <= 0 {
                None
            } else {
                Some(name.subrange(d + 1, name.len() as int))
            }
        },
        None => None,
    }
}

/// Calls `Path::extension` on the path `p` and converts the extension to text
/// (a part of valid UTF-8 text, so the conversion loses nothing). Claims that the
/// result is `path_extension_of(p@)`, the extension as the documentation of
/// `Path::extension`, `Path::file_name` and `Path::components` describes it for
/// Unix paths.
#[verifier::external_body]
fn path_extension(p: &str) -> (e: Option<String>)
    ensures
        match path_extension_of(p@) {
            Some(t) => e matches Some(x) && x@ == t,
            None => e is None,
        },
{
    match std::path::Path::new(p).extension() {
        Some(x) => Some(x.to_string_lossy().into_owned()),
        None => None,
    }
}

/// Whether the path text `p` names a Rust source: its extension is `rs`.
pub open spec fn is_rust_source(p: Seq<char>) -> bool {
    path_extension_of(p) == Some("rs"@)
}

/// Whether the file at `p` is a Rust source.
pub fn names_rust_source(p: &str) -> (b: bool)
    ensures
        b == is_rust_source(p@),
{
    match path_extension(p) {
        Some(e) => str_eq(e.as_str(), "rs"),
        None => false,
    }
}

/// `items` describe, in order, the changed files whose paths are `texts`.
pub open spec fn changed_file_items(items: Seq<crate::work::ContextItem>, texts: Seq<Seq<char>>) -> bool {
    &&& items.len() == texts.len()
    &&& forall|i: int| 0 <= i < items.len() ==> {
        &&& (#[trigger] items[i]).context_type@ == "changed_file"@
        &&& items[i].content@ == texts[i]
        &&& items[i].source_file matches Some(f) && f@ == texts[i]
    }
}

/// `t` is a test task described by `description`, with the single requirement
/// `requirement` and, as context, the changed files whose paths are `texts`.
pub open spec fn is_test_plan(t: PlannedTask, description: Seq<char>, requirement: Seq<char>, texts: Seq<Seq<char>>) -> bool {
    &&& t.kind matches PlannedKind::Test { coverage_percent } && coverage_percent == Some(TEST_COVERAGE_PERCENT)
    &&& t.description@ == description
    &&& views_of(t.specification.requirements@) == seq![requirement]
    &&& t.specification.hints@.len() == 0
    &&& t.specification.success_criteria@.len() == 0
    &&& t.specification.constraints@.len() == 0
    &&& changed_file_items(t.specification.context@, texts)
}

/// The context items naming the changed files.
fn changed_file_context(texts: &Vec<String>) -> (items: Vec<crate::work::ContextItem>)
    ensures
        changed_file_items(items@, views_of(texts@)),
{
    let mut items: Vec<crate::work::ContextItem> = Vec::new();
    let mut i: usize = 0;
    while i < texts.len()
        invariant
            i <= texts@.len(),
            changed_file_items(items@, views_of(texts@).subrange(0, i as int)),
        decreases texts.len() - i,
    {
        let item = crate::work::ContextItem {
            context_type: owned("changed_file"),
            content: texts[i].clone(),
            source_file: Some(texts[i].clone()),
        };
        items.push(item);
        i = i + 1;
    }
    assert(views_of(texts@).subrange(0, texts@.len() as int) =~= views_of(texts@));
    items
}

/// A test task over the changed files.
fn test_plan(description: String, requirement: &str, texts: &Vec<String>) -> (t: PlannedTask)
    ensures
        is_test_plan(t, description@, requirement@, views_of(texts@)),
{
    let context = changed_file_context(texts);
    let specification = crate::work::TaskSpecification {
        requirements: one_string(owned(requirement)),
        success_criteria: Vec::new(),
        constraints: Vec::new(),
        hints: Vec::new(),
        context,
    };
    PlannedTask { kind: PlannedKind::Test { coverage_percent: Some(TEST_COVERAGE_PERCENT) }, description, specification }
}

/// Some changed file is a Rust source.
pub open spec fn any_rust_source(texts: Seq<Seq<char>>) -> bool {
    exists|i: int| 0 <= i < texts.len() && is_rust_source(#[trigger] texts[i])
}

/// A completion calls for a test task when the worker suggested nothing and some
/// changed Rust source has a path that does not mention `test`.
pub open spec fn calls_for_tests(suggested: nat, texts: Seq<Seq<char>>) -> bool {
    &&& suggested == 0
    &&& exists|i: int| 0 <= i < texts.len() && is_rust_source(#[trigger] texts[i]) && !seq_contains(texts[i], "test"@)
}

/// The description of the test task that follows a completion.
pub open spec fn follow_up_description(texts: Seq<Seq<char>>) -> Seq<char> {
    "Add tests for changed files: "@ + join_seq(texts, ", "@)
}

/// `r` is the test follow-up for changed files with paths `texts`, `suggested`
/// tasks having been suggested: one test task exactly when the change calls for
/// tests, else none.
pub open spec fn test_follow_ups_of(r: Seq<PlannedTask>, suggested: nat, texts: Seq<Seq<char>>) -> bool {
    if calls_for_tests(suggested, texts) {
        r.len() == 1 && is_test_plan(r[0], follow_up_description(texts), "Ensure adequate test coverage"@, texts)
    } else {
        r.len() == 0
    }
}

/// The test task that follows a completion whose changed files have the paths
/// `texts`; `suggested` counts the tasks the worker suggested.
pub fn test_follow_ups(suggested: usize, texts: &Vec<String>) -> (r: Vec<PlannedTask>)
    ensures
        test_follow_ups_of(r@, suggested as nat, views_of(texts@)),
{
    let mut r: Vec<PlannedTask> = Vec::new();
    if suggested > 0 {
        return r;
    }
    let mut found = false;
    let mut i: usize = 0;
    while i < texts.len()
        invariant
            i <= texts@.len(),
            found <==> exists|j: int| 0 <= j < i && is_rust_source(#[trigger] views_of(texts@)[j])
                && !seq_contains(views_of(texts@)[j], "test"@),
        decreases texts.len() - i,
    {
        if names_rust_source(texts[i].as_str()) && !str_contains(texts[i].as_str(), "test") {
            found = true;
        }
        proof {
            assert(views_of(texts@)[i as int] == texts@[i as int]@);
        }
        i = i + 1;
    }
    if found {
        let joined = join_strings(texts, ", ");
        let mut description = owned("Add tests for changed files: ");
        append_str(&mut description, joined.as_str());
        r.push(test_plan(description, "Ensure adequate test coverage", texts));
    }
    r
}

/// `r` are the tasks planned for a change of the files with paths `texts`: one
/// task to update the tests, over the changed files, exactly when one of them is
/// a Rust source, else none.
pub open spec fn change_plans_of(r: Seq<PlannedTask>, texts: Seq<Seq<char>>) -> bool {
    if any_rust_source(texts) {
        r.len() == 1 && is_test_plan(r[0], "Update tests for changed files"@, "Ensure tests pass"@, texts)
    } else {
        r.len() == 0
    }
}

/// The tasks a change of the files `changes` of the planner's domain calls for:
/// when one of them is a Rust source, a task to update the tests, with the
/// changed files as context; else none.
pub fn change_reaction_plans(changes: &Vec<String>) -> (r: Vec<PlannedTask>)
    ensures
        change_plans_of(r@, views_of(changes@)),
{
    let mut r: Vec<PlannedTask> = Vec::new();
    let mut found = false;
    let mut i: usize = 0;
    while i < changes.len()
        invariant
            i <= changes@.len(),
            found <==> exists|j: int| 0 <= j < i && is_rust_source(#[trigger] views_of(changes@)[j]),
        decreases changes.len() - i,
    {
        if names_rust_source(changes[i].as_str()) {
            found = true;
        }
        proof {
            assert(views_of(changes@)[i as int] == changes@[i as int]@);
        }
        i = i + 1;
    }
    if found {
        r.push(test_plan(owned("Update tests for changed files"), "Ensure tests pass", changes));
    }
    r
}

/// The paths of a list of file changes.
pub open spec fn change_paths(changes: Seq<crate::work::FileChange>) -> Seq<Seq<char>> {
    changes.map_values(|f: crate::work::FileChange| f.path@)
}

/// The paths of the changed files of a completion.
fn changed_paths(changes: &Vec<crate::work::FileChange>) -> (r: Vec<String>)
    ensures
        views_of(r@) == change_paths(changes@),
{
    let mut r: Vec<String> = Vec::new();
    let mut i: usize = 0;
    while i < changes.len()
        invariant
            i <= changes@.len(),
            views_of(r@) == change_paths(changes@.subrange(0, i as int)),
        decreases changes.len() - i,
    {
        let ghost before = r@;
        let p = changes[i].path.clone();
        r.push(p);
        proof {
            let prev = changes@.subrange(0, i as int);
            let next = changes@.subrange(0, i + 1);
            assert(next =~= prev.push(changes@[i as int]));
            assert(change_paths(next) =~= change_paths(prev).push(changes@[i as int].path@));
            assert(r@ =~= before.push(p));
            assert(views_of(r@) =~= views_of(before).push(p@));
        }
        i = i + 1;
    }
    assert(changes@.subrange(0, changes@.len() as int) =~= changes@);
    r
}

/// `r` are the follow-ups of `c`: one task to add tests for its changed files
/// exactly when the worker suggested nothing and a changed Rust source has a path
/// that does not mention `test`, else none.
pub open spec fn follow_ups_of(r: Seq<PlannedTask>, c: crate::work::TaskCompletion) -> bool {
    test_follow_ups_of(r, c.output.suggested_tasks@.len(), change_paths(c.changes@))
}

/// The follow-up tasks of a completion: when the worker suggested nothing and a
/// changed Rust source has a path that does not mention `test`, a task to add
/// tests for the changed files; else none.
pub fn follow_up_plans(completion: &crate::work::TaskCompletion) -> (r: Vec<PlannedTask>)
    ensures
        follow_ups_of(r@, *completion),
{
    let paths = changed_paths(&completion.changes);
    test_follow_ups(completion.output.suggested_tasks.len(), &paths)
}

/// The suggestions of `s` that the planner takes up, in order.
pub open spec fn accepted_suggestions(s: Seq<crate::work::TaskSuggestion>) -> Seq<crate::work::TaskSuggestion>
    decreases s.len(),
{
    if s.len() == 0 {
        Seq::empty()
    } else if s.last().priority >= 0 {
        accepted_suggestions(s.drop_last()).push(s.last())
    } else {
        accepted_suggestions(s.drop_last())
    }
}

/// `r` are the next steps after completion `c`: a feature task for each accepted
/// suggestion, in order, then the follow-ups.
pub open spec fn next_steps_of(r: Seq<PlannedTask>, c: crate::work::TaskCompletion) -> bool {
    let acc = accepted_suggestions(c.output.suggested_tasks@);
    &&& acc.len() <= r.len()
    &&& forall|i: int| 0 <= i < acc.len() ==> is_suggestion_plan(#[trigger] r[i], acc[i])
    &&& follow_ups_of(r.subrange(acc.len() as int, r.len() as int), c)
}

/// The tasks a planner creates after one of its tasks completed: one for each
/// suggestion of non-negative priority, then the follow-ups.
pub fn next_step_plans(completion: &crate::work::TaskCompletion) -> (r: Vec<PlannedTask>)
    ensures
        next_steps_of(r@, *completion),
{
    let suggestions = &completion.output.suggested_tasks;
    let mut r: Vec<PlannedTask> = Vec::new();
    let mut i: usize = 0;
    while i < suggestions.len()
        invariant
            suggestions == &completion.output.suggested_tasks,
            i <= suggestions@.len(),
            r@.len() == accepted_suggestions(suggestions@.subrange(0, i as int)).len(),
            forall|k: int| 0 <= k < r@.len() ==> is_suggestion_plan(#[trigger] r@[k],
                accepted_suggestions(suggestions@.subrange(0, i as int))[k]),
        decreases suggestions.len() - i,
    {
        let ghost before = suggestions@.subrange(0, i as int);
        proof {
            assert(suggestions@.subrange(0, i + 1).drop_last() =~= before);
        }
        if accepts_suggestion(&suggestions[i]) {
            let t = suggestion_plan(&suggestions[i]);
            r.push(t);
        }
        i = i + 1;
    }
    assert(suggestions@.subrange(0, suggestions@.len() as int) =~= suggestions@);
    let ghost front = r@;
    let mut follow = follow_up_plans(completion);
    let ghost tail = follow@;
    r.append(&mut follow);
    proof {
        assert(r@.subrange(front.len() as int, r@.len() as int) =~= tail);
        assert forall|k: int| 0 <= k < front.len() implies #[trigger] r@[k] == front[k] by {}
    }
    r
}

/// What a planner does on an event.
#[derive(Debug)]
pub enum PlannerStep {
    /// Create these tasks.
    Plan(Vec<PlannedTask>),
    /// Stop the planner.
    Stop,
    /// Nothing to do.
    Idle,
}

/// The planner's reaction to an event: plans after a completion, an iteration
/// after judge feedback, test updates after domain changes, an investigation when
/// planning is requested; a stop on shutdown; nothing on the other events.
pub fn plan_for_event(event: &PlannerEvent) -> (s: PlannerStep)
    ensures
        (*event is Shutdown) <==> (s is Stop),
        (*event is ResourceAvailable || *event is CheckpointRestored || *event is SubPlannerCompleted)
            <==> (s is Idle),
        event matches PlannerEvent::TaskCompleted(c) ==> (s matches PlannerStep::Plan(v) && next_steps_of(v@, **c)),
        event matches PlannerEvent::IterationFeedback { task_id, feedback } ==> (s matches PlannerStep::Plan(v)
            && v@.len() == 1 && is_iteration_plan(v@[0], "task-"@ + uuid_hyphenated(task_id.0), feedback@)),
        event matches PlannerEvent::DomainChanged { changes, .. } ==> (s matches PlannerStep::Plan(v)
            && change_plans_of(v@, views_of(changes@))),
        event matches PlannerEvent::PlanningRequested { reason } ==> (s matches PlannerStep::Plan(v)
            && v@.len() == 1 && is_investigation_plan(v@[0], reason@)),
{
    match event {
        PlannerEvent::TaskCompleted(c) => PlannerStep::Plan(next_step_plans(c)),
        PlannerEvent::IterationFeedback { task_id, feedback } => {
            let id = task_id.to_string();
            let mut v: Vec<PlannedTask> = Vec::new();
            v.push(iteration_plan(id.as_str(), feedback.as_str()));
            PlannerStep::Plan(v)
        },
        PlannerEvent::DomainChanged { changes, .. } => PlannerStep::Plan(change_reaction_plans(changes)),
        PlannerEvent::PlanningRequested { reason } => {
            let mut v: Vec<PlannedTask> = Vec::new();
            v.push(investigation_plan(reason.as_str()));
            PlannerStep::Plan(v)
        },
        PlannerEvent::Shutdown => PlannerStep::Stop,
        _ => PlannerStep::Idle,
    }
}

/// `s` without the entries equal to `id`, the others in their order.
pub open spec fn without_task(s: Seq<TaskId>, id: TaskId) -> Seq<TaskId>
    decreases s.len(),
{
    if s.len() == 0 {
        s
    } else if s.last() == id {
        without_task(s.drop_last(), id)
    } else {
        without_task(s.drop_last(), id).push(s.last())
    }
}

/// A sequence with one more entry holds what it held, and the new entry.
proof fn lemma_push_contains(q: Seq<TaskId>, x: TaskId, t: TaskId)
    ensures
        q.push(x).contains(t) <==> (q.contains(t) || x == t),
{
    if q.contains(t) {
        let k = choose|k: int| 0 <= k < q.len() && q[k] == t;
        assert(q.push(x)[k] == t);
    }
    if x == t {
        assert(q.push(x)[q.len() as int] == t);
    }
    if q.push(x).contains(t) {
        let k = choose|k: int| 0 <= k < q.len() + 1 && q.push(x)[k] == t;
        if k < q.len() {
            assert(q[k] == t);
        }
    }
}

/// Removing `id` keeps every other entry and drops every `id`.
pub proof fn lemma_without_task_members(s: Seq<TaskId>, id: TaskId)
    ensures
        !without_task(s, id).contains(id),
        forall|t: TaskId| t != id ==> (without_task(s, id).contains(t) <==> s.contains(t)),
    decreases s.len(),
{
    if s.len() > 0 {
        let d = s.drop_last();
        lemma_without_task_members(d, id);
        let r = without_task(d, id);
        assert(d.push(s.last()) =~= s);
        assert forall|t: TaskId| t != id implies (without_task(s, id).contains(t) <==> s.contains(t)) by {
            lemma_push_contains(d, s.last(), t);
            lemma_push_contains(r, s.last(), t);
        }
        lemma_push_contains(r, s.last(), id);
    } else {
        assert(without_task(s, id) =~= s);
    }
}

/// A task created and then closed leaves the open tasks as they were, when it was
/// not among them before.
pub proof fn lemma_created_then_closed_restores_pending(s: Seq<TaskId>, id: TaskId)
    requires
        !s.contains(id),
    ensures
        without_task(s.push(id), id) == s,
    decreases s.len(),
{
    assert(s.push(id).drop_last() =~= s);
    lemma_without_id_absent(s, id);
}

/// Removing an absent entry changes nothing.
proof fn lemma_without_id_absent(s: Seq<TaskId>, id: TaskId)
    requires
        !s.contains(id),
    ensures
        without_task(s, id) == s,
    decreases s.len(),
{
    if s.len() > 0 {
        assert(!s.drop_last().contains(id)) by {
            if s.drop_last().contains(id) {
                let k = choose|k: int| 0 <= k < s.drop_last().len() && s.drop_last()[k] == id;
                assert(s[k] == id);
            }
        }
        lemma_without_id_absent(s.drop_last(), id);
        assert(s.last() != id) by {
            assert(s[s.len() - 1] == s.last());
        }
        assert(s.drop_last().push(s.last()) =~= s);
    }
}

/// What a planner keeps between events: the tasks it created that are still open,
/// and its activity counters.
#[derive(Debug, Clone)]
pub struct PlannerBook {
    /// Tasks created by the planner and not yet completed, oldest first.
    pub pending_tasks: Vec<TaskId>,
    /// Activity counters.
    pub metrics: PlannerMetrics,
}

/// A `u64` counter advanced by one, wrapping as an atomic counter does.
pub open spec fn step_u64(n: u64) -> u64 {
    vstd::wrapping::u64_specs::wrapping_add(n, 1)
}

/// A `u32` counter advanced by one, wrapping as an atomic counter does.
pub open spec fn step_u32(n: u32) -> u32 {
    vstd::wrapping::u32_specs::wrapping_add(n, 1)
}

impl PlannerBook {
    /// A book with no open task and zero counters.
    pub fn new() -> (b: Self)
        ensures
            b.pending_tasks@.len() == 0,
            b.metrics.wake_ups == 0,
            b.metrics.tasks_completed_since_plan == 0,
            b.metrics.tasks_created == 0,
    {
        PlannerBook {
            pending_tasks: Vec::new(),
            metrics: PlannerMetrics { wake_ups: 0, tasks_completed_since_plan: 0, tasks_created: 0 },
        }
    }

    /// The planner woke up.
    pub fn note_wake_up(&mut self)
        ensures
            final(self).pending_tasks@ == old(self).pending_tasks@,
            final(self).metrics == (PlannerMetrics { wake_ups: step_u64(old(self).metrics.wake_ups), ..old(self).metrics }),
    {
        self.metrics.wake_ups = self.metrics.wake_ups.wrapping_add(1);
    }

    /// The planner woke up because one of its tasks completed.
    pub fn note_completion(&mut self)
        ensures
            final(self).pending_tasks@ == old(self).pending_tasks@,
            final(self).metrics == (PlannerMetrics {
                wake_ups: step_u64(old(self).metrics.wake_ups),
                tasks_completed_since_plan: step_u32(old(self).metrics.tasks_completed_since_plan),
                ..old(self).metrics
            }),
    {
        self.metrics.wake_ups = self.metrics.wake_ups.wrapping_add(1);
        self.metrics.tasks_completed_since_plan = self.metrics.tasks_completed_since_plan.wrapping_add(1);
    }

    /// A task of the planner completed: it is no longer open; the other open
    /// tasks keep their order.
    pub fn close_task(&mut self, task_id: &TaskId)
        ensures
            final(self).pending_tasks@ == without_task(old(self).pending_tasks@, *task_id),
            !final(self).pending_tasks@.contains(*task_id),
            forall|t: TaskId| t != *task_id ==> (final(self).pending_tasks@.contains(t)
                <==> old(self).pending_tasks@.contains(t)),
            final(self).metrics == old(self).metrics,
    {
        let ghost before = self.pending_tasks@;
        let mut kept: Vec<TaskId> = Vec::new();
        let mut i: usize = 0;
        while i < self.pending_tasks.len()
            invariant
                self.pending_tasks@ == before,
                i <= before.len(),
                kept@ == without_task(before.subrange(0, i as int), *task_id),
            decreases self.pending_tasks.len() - i,
        {
            proof {
                assert(before.subrange(0, i + 1).drop_last() =~= before.subrange(0, i as int));
            }
            let t = self.pending_tasks[i].clone();
            if t != *task_id {
                kept.push(t);
            }
            i = i + 1;
        }
        assert(before.subrange(0, before.len() as int) =~= before);
        self.pending_tasks = kept;
        proof {
            lemma_without_task_members(before, *task_id);
        }
    }

    /// The planner created a task: it is open, after the others.
    pub fn note_created(&mut self, task_id: TaskId)
        ensures
            final(self).pending_tasks@ == old(self).pending_tasks@.push(task_id),
            final(self).metrics == (PlannerMetrics { tasks_created: step_u64(old(self).metrics.tasks_created), ..old(self).metrics }),
    {
        self.pending_tasks.push(task_id);
        self.metrics.tasks_created = self.metrics.tasks_created.wrapping_add(1);
    }

    /// The planner finished planning after a completion: the count of tasks
    /// completed since the last plan starts over.
    pub fn note_planned(&mut self)
        ensures
            final(self).pending_tasks@ == old(self).pending_tasks@,
            final(self).metrics == (PlannerMetrics { tasks_completed_since_plan: 0, ..old(self).metrics }),
    {
        self.metrics.tasks_completed_since_plan = 0;
    }
}

} // verus!
