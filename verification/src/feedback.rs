//! Monitoring of task progress that signals when the reasoning strategy should change.
//!
//! The monitor keeps a sliding window of the last verification outcomes, the
//! number of steps since the last measurable progress, the distinct topics of
//! recent actions (a sliding window of its own), and the number of actions.

use vstd::prelude::*;
use crate::resource::ResourceWarnings;
use crate::strategy::ReasoningStrategy;
use crate::text::{str_eq, views_of};

verus! {

/// How many verification outcomes the monitor keeps.
pub const MAX_VERIFICATIONS: usize = 20;

/// How many distinct topics the monitor keeps.
pub const MAX_TOPICS: usize = 50;

/// `s` with `x` appended; when `s` already holds `cap` items the oldest is dropped first.
pub open spec fn slide<T>(s: Seq<T>, x: T, cap: nat) -> Seq<T> {
    if s.len() >= cap {
        s.drop_first().push(x)
    } else {
        s.push(x)
    }
}

/// The number of `true` entries of `s`.
pub open spec fn count_passed(s: Seq<bool>) -> nat
    decreases s.len(),
{
    if s.len() == 0 {
        0
    } else {
        count_passed(s.drop_last()) + if s.last() { 1nat } else { 0nat }
    }
}

/// The topic window after seeing topic `t`: unchanged when `t` is already in it,
/// else `t` slides in.
pub open spec fn note_topic(s: Seq<Seq<char>>, t: Seq<char>) -> Seq<Seq<char>> {
    if s.contains(t) {
        s
    } else {
        slide(s, t, MAX_TOPICS as nat)
    }
}

/// The topic window after seeing the topics `ts` in order.
pub open spec fn note_topics(s: Seq<Seq<char>>, ts: Seq<Seq<char>>) -> Seq<Seq<char>>
    decreases ts.len(),
{
    if ts.len() == 0 {
        s
    } else {
        note_topic(note_topics(s, ts.drop_last()), ts.last())
    }
}

/// The window after sliding in each of `xs` in order.
pub open spec fn slide_all<T>(s: Seq<T>, xs: Seq<T>, cap: nat) -> Seq<T>
    decreases xs.len(),
{
    if xs.len() == 0 {
        s
    } else {
        slide(slide_all(s, xs.drop_last(), cap), xs.last(), cap)
    }
}

/// The last `cap` entries of `s` (all of them when there are fewer).
pub open spec fn latest<T>(s: Seq<T>, cap: nat) -> Seq<T> {
    if s.len() <= cap {
        s
    } else {
        s.subrange(s.len() - cap, s.len() as int)
    }
}

/// A window of capacity `cap` that slides in a run of entries keeps the latest
/// `cap` of everything it has seen, oldest first, the oldest dropped first.
pub proof fn lemma_window_keeps_latest<T>(s: Seq<T>, xs: Seq<T>, cap: nat)
    requires
        cap > 0,
        s.len() <= cap,
    ensures
        slide_all(s, xs, cap) == latest(s + xs, cap),
    decreases xs.len(),
{
    if xs.len() > 0 {
        let prev = xs.drop_last();
        lemma_window_keeps_latest(s, prev, cap);
        let all = s + xs;
        let before = s + prev;
        assert(before =~= all.drop_last());
        let w = latest(before, cap);
        if w.len() >= cap {
            assert(before.len() >= cap);
            assert(w.drop_first().push(xs.last()) =~= latest(all, cap));
        } else {
            assert(before.len() < cap);
            assert(w.push(xs.last()) =~= latest(all, cap));
        }
    } else {
        assert(s + xs =~= s);
    }
}

/// From a fresh monitor, a run of verifications leaves the window holding the
/// most recent `MAX_VERIFICATIONS` results in order, older ones dropped first.
pub proof fn lemma_verification_window(results: Seq<bool>)
    ensures
        slide_all(Seq::<bool>::empty(), results, MAX_VERIFICATIONS as nat)
            == latest(results, MAX_VERIFICATIONS as nat),
{
    lemma_window_keeps_latest(Seq::<bool>::empty(), results, MAX_VERIFICATIONS as nat);
    assert(Seq::<bool>::empty() + results =~= results);
}

/// Seeing the topics `a` and then the topics `b` is seeing `a + b`: the topic
/// windows of successive actions compose into the window of all their topics.
pub proof fn lemma_note_topics_concat(s: Seq<Seq<char>>, a: Seq<Seq<char>>, b: Seq<Seq<char>>)
    ensures
        note_topics(note_topics(s, a), b) == note_topics(s, a + b),
    decreases b.len(),
{
    if b.len() == 0 {
        assert(a + b =~= a);
    } else {
        lemma_note_topics_concat(s, a, b.drop_last());
        assert((a + b).drop_last() =~= a + b.drop_last());
        assert((a + b).last() == b.last());
    }
}

/// From a fresh monitor, a run of topics with at most `MAX_TOPICS` distinct ones
/// leaves the topic window holding each distinct topic exactly once, so its length
/// is the number of distinct topics.
pub proof fn lemma_topic_window_holds_distinct(ts: Seq<Seq<char>>)
    requires
        ts.to_set().len() <= MAX_TOPICS,
    ensures
        note_topics(Seq::empty(), ts).to_set() == ts.to_set(),
        note_topics(Seq::empty(), ts).no_duplicates(),
        note_topics(Seq::empty(), ts).len() == ts.to_set().len(),
    decreases ts.len(),
{
    broadcast use vstd::seq_lib::group_seq_properties, vstd::set::group_set_axioms;
    let w0 = note_topics(Seq::empty(), ts);
    if ts.len() == 0 {
        assert(ts.to_set() =~= Set::<Seq<char>>::empty());
        assert(w0 =~= Seq::<Seq<char>>::empty());
        assert(w0.to_set() =~= Set::<Seq<char>>::empty());
    } else {
        let prev = ts.drop_last();
        let t = ts.last();
        assert(prev.push(t) =~= ts);
        prev.lemma_push_to_set_commute(t);
        assert(ts.to_set() == prev.to_set().insert(t));
        vstd::set_lib::lemma_len_subset(prev.to_set(), ts.to_set());
        lemma_topic_window_holds_distinct(prev);
        let w = note_topics(Seq::empty(), prev);
        w.unique_seq_to_set();
        if w.contains(t) {
            assert(w.to_set().contains(t));
            assert(prev.to_set().insert(t) =~= prev.to_set());
        } else {
            assert(!prev.to_set().contains(t));
            assert(ts.to_set().len() == prev.to_set().len() + 1);
            assert(w.len() < MAX_TOPICS);
            assert(w0 == w.push(t));
            w.lemma_push_to_set_commute(t);
            assert forall|i: int, j: int| 0 <= i < j < w0.len() implies w0[i] != w0[j] by {
                if j == w.len() {
                    assert(w.contains(w0[i]));
                }
            }
            w0.unique_seq_to_set();
        }
    }
}


/// The topics of a run of actions, in order: those of the first action, then those
/// of the second, and so on.
pub open spec fn run_topics(runs: Seq<Seq<Seq<char>>>) -> Seq<Seq<char>>
    decreases runs.len(),
{
    if runs.len() == 0 {
        Seq::empty()
    } else {
        run_topics(runs.drop_last()) + runs.last()
    }
}

/// `ms` are the states of a monitor through a run of actions that touched the
/// topics `runs`, as `record_action` leaves them: each action adds one action and
/// one step without progress, and slides its topics into the window.
pub open spec fn action_run(ms: Seq<StrategyFeedbackMonitor>, runs: Seq<Seq<Seq<char>>>) -> bool {
    &&& ms.len() == runs.len() + 1
    &&& forall|i: int| 0 <= i < runs.len() ==> {
        &&& #[trigger] ms[i + 1].steps() == ms[i].steps() + 1
        &&& ms[i + 1].actions() == ms[i].actions() + 1
        &&& ms[i + 1].topics() == note_topics(ms[i].topics(), runs[i])
    }
}

/// Over a run of actions from a monitor's state, the steps and actions grow by the
/// number of actions and the window sees all their topics in order.
proof fn lemma_action_run_window(ms: Seq<StrategyFeedbackMonitor>, runs: Seq<Seq<Seq<char>>>)
    requires
        action_run(ms, runs),
    ensures
        ms.last().steps() == ms[0].steps() + runs.len(),
        ms.last().actions() == ms[0].actions() + runs.len(),
        ms.last().topics() == note_topics(ms[0].topics(), run_topics(runs)),
    decreases runs.len(),
{
    if runs.len() == 0 {
        assert(run_topics(runs) =~= Seq::<Seq<char>>::empty());
    } else {
        let n = runs.len() - 1;
        let prev_ms = ms.drop_last();
        let prev_runs = runs.drop_last();
        assert forall|i: int| 0 <= i < prev_runs.len() implies {
            &&& #[trigger] prev_ms[i + 1].steps() == prev_ms[i].steps() + 1
            &&& prev_ms[i + 1].actions() == prev_ms[i].actions() + 1
            &&& prev_ms[i + 1].topics() == note_topics(prev_ms[i].topics(), prev_runs[i])
        } by {
            assert(ms[i + 1].steps() == ms[i].steps() + 1);
        }
        lemma_action_run_window(prev_ms, prev_runs);
        assert(ms[n + 1].steps() == ms[n].steps() + 1);
        lemma_note_topics_concat(ms[0].topics(), run_topics(prev_runs), runs.last());
    }
}

/// From a fresh monitor, `n` actions leave `n` actions and `n` steps without
/// progress recorded, and, when their topics hold at most `MAX_TOPICS` distinct
/// ones, a topic window holding each distinct topic exactly once.
pub proof fn lemma_action_run(ms: Seq<StrategyFeedbackMonitor>, runs: Seq<Seq<Seq<char>>>)
    requires
        action_run(ms, runs),
        ms[0].topics() == Seq::<Seq<char>>::empty(),
        ms[0].steps() == 0,
        ms[0].actions() == 0,
        run_topics(runs).to_set().len() <= MAX_TOPICS,
    ensures
        ms.last().steps() == runs.len(),
        ms.last().actions() == runs.len(),
        ms.last().topics().to_set() == run_topics(runs).to_set(),
        ms.last().topics().no_duplicates(),
        ms.last().topics().len() == run_topics(runs).to_set().len(),
{
    lemma_action_run_window(ms, runs);
    lemma_topic_window_holds_distinct(run_topics(runs));
}

/// `ms` are the states of a monitor through a run of verifications with outcomes
/// `vs`, as `record_verification` leaves them: each outcome slides into the window.
pub open spec fn verification_run(ms: Seq<StrategyFeedbackMonitor>, vs: Seq<bool>) -> bool {
    &&& ms.len() == vs.len() + 1
    &&& forall|i: int| 0 <= i < vs.len() ==> #[trigger] ms[i + 1].verifications() == slide(
        ms[i].verifications(),
        vs[i],
        MAX_VERIFICATIONS as nat,
    )
}

/// Over a run of verifications, the window is the run's outcomes slid into the
/// starting window.
proof fn lemma_verification_run_window(ms: Seq<StrategyFeedbackMonitor>, vs: Seq<bool>)
    requires
        verification_run(ms, vs),
    ensures
        ms.last().verifications() == slide_all(ms[0].verifications(), vs, MAX_VERIFICATIONS as nat),
    decreases vs.len(),
{
    if vs.len() > 0 {
        let prev_ms = ms.drop_last();
        let prev_vs = vs.drop_last();
        assert forall|i: int| 0 <= i < prev_vs.len() implies #[trigger] prev_ms[i + 1].verifications() == slide(
            prev_ms[i].verifications(),
            prev_vs[i],
            MAX_VERIFICATIONS as nat,
        ) by {
            assert(ms[i + 1].verifications() == slide(ms[i].verifications(), vs[i], MAX_VERIFICATIONS as nat));
        }
        lemma_verification_run_window(prev_ms, prev_vs);
        let n = vs.len() - 1;
        assert(ms[n + 1].verifications() == slide(ms[n].verifications(), vs[n], MAX_VERIFICATIONS as nat));
    }
}

/// From a fresh monitor, a run of verifications leaves the window holding the
/// latest `MAX_VERIFICATIONS` outcomes in order, the older ones dropped first.
pub proof fn lemma_verification_run(ms: Seq<StrategyFeedbackMonitor>, vs: Seq<bool>)
    requires
        verification_run(ms, vs),
        ms[0].verifications() == Seq::<bool>::empty(),
    ensures
        ms.last().verifications() == latest(vs, MAX_VERIFICATIONS as nat),
{
    lemma_verification_run_window(ms, vs);
    lemma_verification_window(vs);
}

/// A signal that the current strategy may need to change.
#[derive(Debug, Clone, Copy, PartialEq, Eq)]
pub enum FeedbackSignal {
    /// More than half of the recent verifications failed (`failed` of `total`).
    HighFailureRate { failed: u32, total: u32 },
    /// No measurable progress for this many steps.
    NoProgress { steps_without_progress: u32 },
    /// A resource is near its limit: `context`, `time` or `reasoning_steps`.
    ResourcePressure { resource_type: &'static str },
    /// Many distinct topics per action: `topics` distinct topics over `actions` actions.
    HighComplexity { topics: u32, actions: u32 },
    /// The last three verifications passed after earlier failures.
    RecoveredFromFailure,
}

/// The snake-case name of a signal's kind.
pub open spec fn signal_type_name(s: FeedbackSignal) -> &'static str {
    match s {
        FeedbackSignal::HighFailureRate { .. } => "high_failure_rate",
        FeedbackSignal::NoProgress { .. } => "no_progress",
        FeedbackSignal::ResourcePressure { .. } => "resource_pressure",
        FeedbackSignal::HighComplexity { .. } => "high_complexity",
        FeedbackSignal::RecoveredFromFailure => "recovered_from_failure",
    }
}

impl FeedbackSignal {
    /// The snake-case name of the signal's kind.
    pub fn feedback_type(&self) -> (s: &'static str)
        ensures
            s == signal_type_name(*self),
    {
        match self {
            FeedbackSignal::HighFailureRate { .. } => "high_failure_rate",
            FeedbackSignal::NoProgress { .. } => "no_progress",
            FeedbackSignal::ResourcePressure { .. } => "resource_pressure",
            FeedbackSignal::HighComplexity { .. } => "high_complexity",
            FeedbackSignal::RecoveredFromFailure => "recovered_from_failure",
        }
    }
}

/// The strategy to switch to on a signal, if any: failing verifications and high
/// complexity call for verified reasoning; a stuck single-pass or stepwise strategy
/// tries parallel exploration with two branches, and a parallel exploration stuck for
/// more than three steps turns to verified reasoning; resource pressure makes
/// parallel exploration and verified reasoning fall back to chain of thought.
pub open spec fn adapted_strategy(current: ReasoningStrategy, signal: FeedbackSignal) -> Option<ReasoningStrategy> {
    match signal {
        FeedbackSignal::HighFailureRate { failed, total } =>
            if 2 * failed > total { Some(ReasoningStrategy::VerifiedReasoning) } else { None },
        FeedbackSignal::NoProgress { steps_without_progress } => match current {
            ReasoningStrategy::ChainOfThought => Some(ReasoningStrategy::ParallelExploration { branches: 2 }),
            ReasoningStrategy::StepwiseRefinement => Some(ReasoningStrategy::ParallelExploration { branches: 2 }),
            ReasoningStrategy::ParallelExploration { .. } =>
                if steps_without_progress > 3 { Some(ReasoningStrategy::VerifiedReasoning) } else { None },
            _ => None,
        },
        FeedbackSignal::ResourcePressure { .. } => match current {
            ReasoningStrategy::ParallelExploration { .. } => Some(ReasoningStrategy::ChainOfThought),
            ReasoningStrategy::VerifiedReasoning => Some(ReasoningStrategy::ChainOfThought),
            _ => None,
        },
        FeedbackSignal::HighComplexity { topics, actions } =>
            if 5 * topics > 2 * actions { Some(ReasoningStrategy::VerifiedReasoning) } else { None },
        FeedbackSignal::RecoveredFromFailure => None,
    }
}

/// The strategy to switch to on a signal, if any (see `adapted_strategy`).
pub fn adapt_to_signal(current: &ReasoningStrategy, signal: &FeedbackSignal) -> (r: Option<ReasoningStrategy>)
    ensures
        r == adapted_strategy(*current, *signal),
{
    match signal {
        FeedbackSignal::HighFailureRate { failed, total } => {
            if 2 * (*failed as u64) > *total as u64 {
                Some(ReasoningStrategy::VerifiedReasoning)
            } else {
                None
            }
        },
        FeedbackSignal::NoProgress { steps_without_progress } => match current {
            ReasoningStrategy::ChainOfThought => Some(ReasoningStrategy::ParallelExploration { branches: 2 }),
            ReasoningStrategy::StepwiseRefinement => Some(ReasoningStrategy::ParallelExploration { branches: 2 }),
            ReasoningStrategy::ParallelExploration { .. } => {
                if *steps_without_progress > 3 {
                    Some(ReasoningStrategy::VerifiedReasoning)
                } else {
                    None
                }
            },
            _ => None,
        },
        FeedbackSignal::ResourcePressure { .. } => match current {
            ReasoningStrategy::ParallelExploration { .. } => Some(ReasoningStrategy::ChainOfThought),
            ReasoningStrategy::VerifiedReasoning => Some(ReasoningStrategy::ChainOfThought),
            _ => None,
        },
        FeedbackSignal::HighComplexity { topics, actions } => {
            if 5 * (*topics as u64) > 2 * (*actions as u64) {
                Some(ReasoningStrategy::VerifiedReasoning)
            } else {
                None
            }
        },
        FeedbackSignal::RecoveredFromFailure => None,
    }
}

/// Every signal the monitor raises about failures or complexity calls for verified
/// reasoning, whatever the current strategy.
pub proof fn lemma_monitor_signals_call_for_care(
    current: ReasoningStrategy,
    v: Seq<bool>,
    steps: u32,
    topic_count: nat,
    actions: u32,
    w: ResourceWarnings,
    i: int,
)
    requires
        v.len() <= MAX_VERIFICATIONS,
        topic_count <= MAX_TOPICS,
        0 <= i < expected_signals(v, steps, topic_count, actions, w).len(),
        expected_signals(v, steps, topic_count, actions, w)[i] is HighFailureRate
            || expected_signals(v, steps, topic_count, actions, w)[i] is HighComplexity,
    ensures
        adapted_strategy(current, expected_signals(v, steps, topic_count, actions, w)[i])
            == Some(ReasoningStrategy::VerifiedReasoning),
{
    lemma_count_passed_bound(v);
}

/// The signals for a monitor in the given state under the given resource warnings, in
/// the order: failure rate, progress, resource pressure, complexity, recovery.
pub open spec fn expected_signals(
    v: Seq<bool>,
    steps: u32,
    topic_count: nat,
    actions: u32,
    w: ResourceWarnings,
) -> Seq<FeedbackSignal> {
    let failed = (v.len() - count_passed(v)) as nat;
    let s1 = if v.len() >= 3 && 2 * failed > v.len() {
        seq![FeedbackSignal::HighFailureRate { failed: failed as u32, total: v.len() as u32 }]
    } else {
        seq![]
    };
    let s2 = if steps >= 5 {
        s1.push(FeedbackSignal::NoProgress { steps_without_progress: steps })
    } else {
        s1
    };
    let s3 = if w.context_pressure {
        s2.push(FeedbackSignal::ResourcePressure { resource_type: "context" })
    } else if w.time_pressure {
        s2.push(FeedbackSignal::ResourcePressure { resource_type: "time" })
    } else if w.step_pressure {
        s2.push(FeedbackSignal::ResourcePressure { resource_type: "reasoning_steps" })
    } else {
        s2
    };
    let s4 = if actions >= 5 && 5 * topic_count > 2 * actions {
        s3.push(FeedbackSignal::HighComplexity { topics: topic_count as u32, actions })
    } else {
        s3
    };
    if v.len() >= 3 && count_passed(v.subrange(v.len() - 3, v.len() as int)) == 3
        && count_passed(v.subrange(0, v.len() - 3)) < v.len() - 3 {
        s4.push(FeedbackSignal::RecoveredFromFailure)
    } else {
        s4
    }
}

/// Monitors task progress and produces strategy feedback signals.
pub struct StrategyFeedbackMonitor {
    recent_verifications: Vec<bool>,
    steps_since_progress: u32,
    last_success_count: u32,
    recent_topics: Vec<String>,
    action_count: u32,
    max_verifications: usize,
    max_topics: usize,
}

proof fn lemma_count_passed_bound(s: Seq<bool>)
    ensures
        count_passed(s) <= s.len(),
    decreases s.len(),
{
    if s.len() > 0 {
        lemma_count_passed_bound(s.drop_last());
    }
}

proof fn lemma_count_passed_drop_first(s: Seq<bool>)
    requires
        s.len() > 0,
    ensures
        count_passed(s) == count_passed(s.drop_first()) + if s[0] { 1nat } else { 0nat },
    decreases s.len(),
{
    if s.len() > 1 {
        assert(s.drop_first().drop_last() =~= s.drop_last().drop_first());
        lemma_count_passed_drop_first(s.drop_last());
    } else {
        assert(s.drop_first() =~= Seq::<bool>::empty());
        assert(s.drop_last() =~= Seq::<bool>::empty());
    }
}

proof fn lemma_count_passed_slide(s: Seq<bool>, x: bool, cap: nat)
    requires
        cap > 0,
    ensures
        count_passed(slide(s, x, cap)) <= count_passed(s) + if x { 1nat } else { 0nat },
{
    let r = slide(s, x, cap);
    if s.len() >= cap {
        lemma_count_passed_drop_first(s);
        assert(r.drop_last() =~= s.drop_first());
    } else {
        assert(r.drop_last() =~= s);
    }
}

proof fn lemma_note_topic_keeps_window(s: Seq<Seq<char>>, t: Seq<char>)
    requires
        s.len() <= MAX_TOPICS,
        s.no_duplicates(),
    ensures
        note_topic(s, t).len() <= MAX_TOPICS,
        note_topic(s, t).no_duplicates(),
        note_topic(s, t).contains(t),
{
    if !s.contains(t) {
        let r = slide(s, t, MAX_TOPICS as nat);
        let base = if s.len() >= MAX_TOPICS { s.drop_first() } else { s };
        assert(r == base.push(t));
        assert forall|i: int| 0 <= i < base.len() implies base[i] != t by {
            if s.len() >= MAX_TOPICS {
                assert(base[i] == s[i + 1]);
            }
            if base[i] == t {
                if s.len() >= MAX_TOPICS {
                    assert(s.contains(s[i + 1]));
                } else {
                    assert(s.contains(s[i]));
                }
            }
        }
        assert forall|i: int, j: int| 0 <= i < r.len() && 0 <= j < r.len() && i != j implies r[i] != r[j] by {
            if s.len() >= MAX_TOPICS {
                if i < base.len() && j < base.len() {
                    assert(base[i] == s[i + 1] && base[j] == s[j + 1]);
                }
            }
        }
        assert(r[r.len() - 1] == t);
    } else {
        let k = choose|k: int| 0 <= k < s.len() && s[k] == t;
        assert(s[k] == t);
    }
}

impl StrategyFeedbackMonitor {
    /// The window of recent verification outcomes, oldest first.
    pub closed spec fn verifications(&self) -> Seq<bool> {
        self.recent_verifications@
    }

    /// The window of distinct recent topics, oldest first.
    pub closed spec fn topics(&self) -> Seq<Seq<char>> {
        views_of(self.recent_topics@)
    }

    /// Steps since the last measurable progress.
    pub closed spec fn steps(&self) -> u32 {
        self.steps_since_progress
    }

    /// The highest number of passed verifications seen in the window since the last reset.
    pub closed spec fn best_successes(&self) -> u32 {
        self.last_success_count
    }

    /// Actions recorded since the last reset.
    pub closed spec fn actions(&self) -> u32 {
        self.action_count
    }

    /// The windows stay within their sizes, topics are distinct, and the passed
    /// verifications in the window never exceed the best count seen.
    pub closed spec fn wf(&self) -> bool {
        &&& self.max_verifications == MAX_VERIFICATIONS
        &&& self.max_topics == MAX_TOPICS
        &&& self.recent_verifications@.len() <= MAX_VERIFICATIONS
        &&& self.recent_topics@.len() <= MAX_TOPICS
        &&& views_of(self.recent_topics@).no_duplicates()
        &&& count_passed(self.recent_verifications@) <= self.last_success_count
    }

    /// A monitor with nothing recorded.
    pub fn new() -> (m: Self)
        ensures
            m.wf(),
            m.verifications() == Seq::<bool>::empty(),
            m.topics() == Seq::<Seq<char>>::empty(),
            m.steps() == 0,
            m.best_successes() == 0,
            m.actions() == 0,
    {
        let m = StrategyFeedbackMonitor {
            recent_verifications: Vec::new(),
            steps_since_progress: 0,
            last_success_count: 0,
            recent_topics: Vec::new(),
            action_count: 0,
            max_verifications: MAX_VERIFICATIONS,
            max_topics: MAX_TOPICS,
        };
        assert(views_of(m.recent_topics@) =~= Seq::<Seq<char>>::empty());
        m
    }

    /// The recent verification outcomes, oldest first.
    pub fn recent_verifications(&self) -> (v: &Vec<bool>)
        ensures
            v@ == self.verifications(),
    {
        &self.recent_verifications
    }

    /// The number of actions recorded since the last reset.
    pub fn action_count(&self) -> (n: u32)
        ensures
            n == self.actions(),
    {
        self.action_count
    }

    /// Steps since the last measurable progress.
    pub fn steps_since_progress(&self) -> (n: u32)
        ensures
            n == self.steps(),
    {
        self.steps_since_progress
    }

    /// The number of distinct recent topics.
    pub fn topic_count(&self) -> (n: usize)
        requires
            self.wf(),
        ensures
            n == self.topics().len(),
    {
        self.recent_topics.len()
    }

    /// Records a verification outcome. It slides into the window; when the window then
    /// holds more passes than ever before, that is progress, and a failure is one more
    /// step without progress.
    pub fn record_verification(&mut self, passed: bool)
        requires
            old(self).wf(),
            !passed ==> old(self).steps() < u32::MAX,
        ensures
            final(self).wf(),
            final(self).verifications() == slide(old(self).verifications(), passed, MAX_VERIFICATIONS as nat),
            final(self).topics() == old(self).topics(),
            final(self).actions() == old(self).actions(),
            count_passed(final(self).verifications()) > old(self).best_successes() ==> {
                &&& final(self).steps() == 0
                &&& final(self).best_successes() == count_passed(final(self).verifications())
            },
            count_passed(final(self).verifications()) <= old(self).best_successes() ==> {
                &&& final(self).best_successes() == old(self).best_successes()
                &&& final(self).steps() == if passed { old(self).steps() } else { (old(self).steps() + 1) as u32 }
            },
    {
        let ghost old_v = self.recent_verifications@;
        if self.recent_verifications.len() >= self.max_verifications {
            self.recent_verifications.remove(0);
            assert(self.recent_verifications@ =~= old_v.drop_first());
        }
        self.recent_verifications.push(passed);
        assert(self.recent_verifications@ =~= slide(old_v, passed, MAX_VERIFICATIONS as nat));
        proof {
            lemma_count_passed_slide(old_v, passed, MAX_VERIFICATIONS as nat);
            lemma_count_passed_bound(self.recent_verifications@);
        }
        let current = count_true(&self.recent_verifications);
        if current > self.last_success_count {
            self.steps_since_progress = 0;
            self.last_success_count = current;
        } else if !passed {
            self.steps_since_progress = self.steps_since_progress + 1;
        }
    }

    /// Records an action and the topics it touched: one more action and one more step
    /// without progress; each topic not yet in the window slides into it.
    pub fn record_action(&mut self, topics: Vec<String>)
        requires
            old(self).wf(),
            old(self).actions() < u32::MAX,
            old(self).steps() < u32::MAX,
        ensures
            final(self).wf(),
            final(self).actions() == old(self).actions() + 1,
            final(self).steps() == old(self).steps() + 1,
            final(self).topics() == note_topics(old(self).topics(), views_of(topics@)),
            final(self).verifications() == old(self).verifications(),
            final(self).best_successes() == old(self).best_successes(),
    {
        self.action_count = self.action_count + 1;
        self.steps_since_progress = self.steps_since_progress + 1;
        let ghost start = views_of(self.recent_topics@);
        let ghost ts = views_of(topics@);
        let ghost actions = self.action_count;
        let ghost steps = self.steps_since_progress;
        let ghost verifications = self.recent_verifications@;
        let ghost best = self.last_success_count;
        let mut i: usize = 0;
        while i < topics.len()
            invariant
                i <= topics@.len(),
                ts == views_of(topics@),
                views_of(self.recent_topics@) == note_topics(start, ts.subrange(0, i as int)),
                self.recent_topics@.len() <= MAX_TOPICS,
                views_of(self.recent_topics@).no_duplicates(),
                self.max_topics == MAX_TOPICS,
                self.max_verifications == MAX_VERIFICATIONS,
                self.action_count == actions,
                self.steps_since_progress == steps,
                self.recent_verifications@ == verifications,
                self.last_success_count == best,
            decreases topics.len() - i,
        {
            let ghost before = views_of(self.recent_topics@);
            proof {
                assert(ts.subrange(0, i + 1).drop_last() =~= ts.subrange(0, i as int));
                assert(ts.subrange(0, i + 1).last() == topics@[i as int]@);
                lemma_note_topic_keeps_window(before, topics@[i as int]@);
            }
            let known = topic_known(&self.recent_topics, topics[i].as_str());
            if !known {
                if self.recent_topics.len() >= self.max_topics {
                    self.recent_topics.remove(0);
                    assert(views_of(self.recent_topics@) =~= before.drop_first());
                }
                let t = topics[i].clone();
                let ghost mid = views_of(self.recent_topics@);
                self.recent_topics.push(t);
                assert(views_of(self.recent_topics@) =~= mid.push(t@));
            }
            assert(views_of(self.recent_topics@) =~= note_topic(before, topics@[i as int]@));
            i = i + 1;
        }
        assert(ts.subrange(0, topics@.len() as int) =~= ts);
    }

    /// Records measurable progress: the count of steps without progress restarts.
    pub fn record_progress(&mut self)
        requires
            old(self).wf(),
        ensures
            final(self).wf(),
            final(self).steps() == 0,
            final(self).verifications() == old(self).verifications(),
            final(self).topics() == old(self).topics(),
            final(self).actions() == old(self).actions(),
            final(self).best_successes() == old(self).best_successes(),
    {
        self.steps_since_progress = 0;
    }

    /// Forgets everything recorded.
    pub fn reset(&mut self)
        requires
            old(self).wf(),
        ensures
            final(self).wf(),
            final(self).verifications() == Seq::<bool>::empty(),
            final(self).topics() == Seq::<Seq<char>>::empty(),
            final(self).steps() == 0,
            final(self).best_successes() == 0,
            final(self).actions() == 0,
    {
        self.recent_verifications.clear();
        self.steps_since_progress = 0;
        self.last_success_count = 0;
        self.recent_topics.clear();
        self.action_count = 0;
        assert(views_of(self.recent_topics@) =~= Seq::<Seq<char>>::empty());
    }

    /// Failed and total verifications in the window, once it holds at least three.
    pub fn failure_counts(&self) -> (r: Option<(u32, u32)>)
        requires
            self.wf(),
        ensures
            self.verifications().len() < 3 ==> r is None,
            self.verifications().len() >= 3 ==> r == Some((
                (self.verifications().len() - count_passed(self.verifications())) as u32,
                self.verifications().len() as u32,
            )),
    {
        let n = self.recent_verifications.len();
        if n < 3 {
            return None;
        }
        proof {
            lemma_count_passed_bound(self.recent_verifications@);
        }
        let passed = count_true(&self.recent_verifications);
        Some(((n as u32) - passed, n as u32))
    }

    /// Distinct topics and actions, once at least five actions were recorded.
    pub fn complexity_counts(&self) -> (r: Option<(u32, u32)>)
        requires
            self.wf(),
        ensures
            self.actions() < 5 ==> r is None,
            self.actions() >= 5 ==> r == Some((self.topics().len() as u32, self.actions())),
    {
        if self.action_count < 5 {
            return None;
        }
        Some((self.recent_topics.len() as u32, self.action_count))
    }

    /// The feedback signals under the given resource warnings: a failure rate above
    /// one half (at least three verifications), five or more steps without progress,
    /// the first resource under pressure among context, time and reasoning steps, more
    /// than 0.4 distinct topics per action (at least five actions), and recovery when
    /// the last three verifications passed after an earlier failure.
    pub fn check_signals(&self, warnings: &ResourceWarnings) -> (r: Vec<FeedbackSignal>)
        requires
            self.wf(),
        ensures
            r@ == expected_signals(self.verifications(), self.steps(), self.topics().len(),
                self.actions(), *warnings),
    {
        let ghost v = self.recent_verifications@;
        let mut signals: Vec<FeedbackSignal> = Vec::new();
        let n = self.recent_verifications.len();
        proof {
            lemma_count_passed_bound(v);
        }
        let passed = count_true(&self.recent_verifications);
        let failed = (n as u32) - passed;
        if n >= 3 && 2 * (failed as u64) > n as u64 {
            signals.push(FeedbackSignal::HighFailureRate { failed, total: n as u32 });
        }
        if self.steps_since_progress >= 5 {
            signals.push(FeedbackSignal::NoProgress { steps_without_progress: self.steps_since_progress });
        }
        if warnings.context_pressure {
            signals.push(FeedbackSignal::ResourcePressure { resource_type: "context" });
        } else if warnings.time_pressure {
            signals.push(FeedbackSignal::ResourcePressure { resource_type: "time" });
        } else if warnings.step_pressure {
            signals.push(FeedbackSignal::ResourcePressure { resource_type: "reasoning_steps" });
        }
        let topic_count = self.recent_topics.len();
        if self.action_count >= 5 && 5 * (topic_count as u64) > 2 * (self.action_count as u64) {
            signals.push(FeedbackSignal::HighComplexity { topics: topic_count as u32, actions: self.action_count });
        }
        if n >= 3 {
            let last_three = count_true_range(&self.recent_verifications, n - 3, n);
            let earlier = count_true_range(&self.recent_verifications, 0, n - 3);
            if last_three == 3 && earlier < n - 3 {
                signals.push(FeedbackSignal::RecoveredFromFailure);
            }
        }
        signals
    }
}

impl Default for StrategyFeedbackMonitor {
    fn default() -> (m: Self)
        ensures
            m.wf(),
            m.verifications() == Seq::<bool>::empty(),
            m.topics() == Seq::<Seq<char>>::empty(),
            m.steps() == 0,
            m.best_successes() == 0,
            m.actions() == 0,
    {
        Self::new()
    }
}

/// The number of `true` entries of `v` between `lo` and `hi`.
fn count_true_range(v: &Vec<bool>, lo: usize, hi: usize) -> (n: usize)
    requires
        lo <= hi <= v@.len(),
    ensures
        n == count_passed(v@.subrange(lo as int, hi as int)),
{
    let mut n: usize = 0;
    let mut i: usize = lo;
    while i < hi
        invariant
            lo <= i <= hi <= v@.len(),
            n == count_passed(v@.subrange(lo as int, i as int)),
            n <= i - lo,
        decreases hi - i,
    {
        assert(v@.subrange(lo as int, i + 1).drop_last() =~= v@.subrange(lo as int, i as int));
        if v[i] {
            n = n + 1;
        }
        i = i + 1;
    }
    n
}

/// The number of `true` entries of `v`.
fn count_true(v: &Vec<bool>) -> (n: u32)
    requires
        v@.len() <= MAX_VERIFICATIONS,
    ensures
        n == count_passed(v@),
{
    let n = count_true_range(v, 0, v.len());
    assert(v@.subrange(0, v@.len() as int) =~= v@);
    proof {
        lemma_count_passed_bound(v@);
    }
    n as u32
}

/// Whether `t` is one of `topics`.
fn topic_known(topics: &Vec<String>, t: &str) -> (b: bool)
    ensures
        b == views_of(topics@).contains(t@),
{
    let mut i: usize = 0;
    while i < topics.len()
        invariant
            i <= topics@.len(),
            forall|j: int| 0 <= j < i ==> topics@[j]@ != t@,
        decreases topics.len() - i,
    {
        if str_eq(topics[i].as_str(), t) {
            assert(views_of(topics@)[i as int] == t@);
            return true;
        }
        i = i + 1;
    }
    assert forall|j: int| 0 <= j < views_of(topics@).len() implies views_of(topics@)[j] != t@ by {
        assert(views_of(topics@)[j] == topics@[j]@);
    }
    false
}

/// After an action, the last topic it touched is in the topic window, and the
/// window stays within its size and free of duplicates.
pub proof fn lemma_last_topic_is_kept(s: Seq<Seq<char>>, ts: Seq<Seq<char>>)
    requires
        s.len() <= MAX_TOPICS,
        s.no_duplicates(),
    ensures
        note_topics(s, ts).len() <= MAX_TOPICS,
        note_topics(s, ts).no_duplicates(),
        ts.len() > 0 ==> note_topics(s, ts).contains(ts.last()),
    decreases ts.len(),
{
    if ts.len() > 0 {
        lemma_last_topic_is_kept(s, ts.drop_last());
        lemma_note_topic_keeps_window(note_topics(s, ts.drop_last()), ts.last());
    }
}

/// A monitor with nothing recorded gives no signal unless a resource is under pressure.
pub proof fn lemma_fresh_monitor_is_quiet(w: ResourceWarnings)
    requires
        !w.context_pressure && !w.time_pressure && !w.step_pressure,
    ensures
        expected_signals(Seq::<bool>::empty(), 0, 0, 0, w) == Seq::<FeedbackSignal>::empty(),
{
    assert(count_passed(Seq::<bool>::empty()) == 0);
}

/// How the strategy adapts to each signal, for every strategy and every signal:
/// failing verifications (more than half failed) and high complexity (more than
/// two topics for every five actions) call for verified reasoning; under resource
/// pressure the expensive strategies, parallel exploration with any number of
/// branches and verified reasoning, fall back to chain of thought, and the others
/// stay; a single-pass or stepwise strategy that makes no progress tries parallel
/// exploration with two branches, a parallel exploration stuck for more than three
/// steps turns to verified reasoning; a recovery changes nothing.
pub proof fn lemma_adaptation(current: ReasoningStrategy, signal: FeedbackSignal)
    ensures
        ({
            let r = adapted_strategy(current, signal);
            &&& signal matches FeedbackSignal::HighFailureRate { failed, total }
                ==> (r == if 2 * failed > total { Some(ReasoningStrategy::VerifiedReasoning) } else { None })
            &&& signal is ResourcePressure ==> (current is ParallelExploration || current is VerifiedReasoning
                ==> r == Some(ReasoningStrategy::ChainOfThought))
            &&& signal is ResourcePressure ==> (!(current is ParallelExploration) && !(current is VerifiedReasoning)
                ==> r is None)
            &&& signal matches FeedbackSignal::NoProgress { steps_without_progress } ==> {
                &&& (current is ChainOfThought || current is StepwiseRefinement)
                    ==> r == Some(ReasoningStrategy::ParallelExploration { branches: 2 })
                &&& current is ParallelExploration ==> (r == if steps_without_progress > 3 {
                    Some(ReasoningStrategy::VerifiedReasoning)
                } else {
                    None
                })
                &&& current is VerifiedReasoning ==> r is None
            }
            &&& signal matches FeedbackSignal::HighComplexity { topics, actions }
                ==> (r == if 5 * topics > 2 * actions { Some(ReasoningStrategy::VerifiedReasoning) } else { None })
            &&& signal is RecoveredFromFailure ==> r is None
        }),
{
}

/// A resource-pressure signal is raised exactly when the context, the time or the
/// reasoning steps are under pressure, and it names the first of these that is;
/// memory pressure alone raises none. From a fresh monitor, pressure yields that
/// one signal and nothing else.
pub proof fn lemma_resource_pressure_signal(v: Seq<bool>, steps: u32, topic_count: nat, actions: u32, w: ResourceWarnings)
    ensures
        ({
            let s = expected_signals(v, steps, topic_count, actions, w);
            let first: &'static str = if w.context_pressure {
                "context"
            } else if w.time_pressure {
                "time"
            } else {
                "reasoning_steps"
            };
            &&& (exists|i: int| 0 <= i < s.len() && #[trigger] s[i] is ResourcePressure)
                <==> (w.context_pressure || w.time_pressure || w.step_pressure)
            &&& forall|i: int| 0 <= i < s.len() && #[trigger] s[i] is ResourcePressure
                ==> s[i] == FeedbackSignal::ResourcePressure { resource_type: first }
        }),
        expected_signals(Seq::<bool>::empty(), 0, 0, 0, w) == if w.context_pressure || w.time_pressure
            || w.step_pressure {
            seq![FeedbackSignal::ResourcePressure {
                resource_type: if w.context_pressure {
                    "context"
                } else if w.time_pressure {
                    "time"
                } else {
                    "reasoning_steps"
                },
            }]
        } else {
            Seq::<FeedbackSignal>::empty()
        },
{
    let s = expected_signals(v, steps, topic_count, actions, w);
    let failed = (v.len() - count_passed(v)) as nat;
    let s1 = if v.len() >= 3 && 2 * failed > v.len() {
        seq![FeedbackSignal::HighFailureRate { failed: failed as u32, total: v.len() as u32 }]
    } else {
        seq![]
    };
    let s2 = if steps >= 5 {
        s1.push(FeedbackSignal::NoProgress { steps_without_progress: steps })
    } else {
        s1
    };
    assert forall|i: int| 0 <= i < s2.len() implies !(#[trigger] s2[i] is ResourcePressure) by {
        if steps >= 5 && i == s2.len() - 1 {
        } else {
            assert(s2[i] == s1[i]);
        }
    }
    let first: &'static str = if w.context_pressure {
        "context"
    } else if w.time_pressure {
        "time"
    } else {
        "reasoning_steps"
    };
    let s3 = if w.context_pressure || w.time_pressure || w.step_pressure {
        s2.push(FeedbackSignal::ResourcePressure { resource_type: first })
    } else {
        s2
    };
    let s4 = if actions >= 5 && 5 * topic_count > 2 * actions {
        s3.push(FeedbackSignal::HighComplexity { topics: topic_count as u32, actions })
    } else {
        s3
    };
    assert(s == s4 || s == s4.push(FeedbackSignal::RecoveredFromFailure));
    assert forall|i: int| 0 <= i < s.len() && #[trigger] s[i] is ResourcePressure implies
        s[i] == FeedbackSignal::ResourcePressure { resource_type: first } by {
        if i < s2.len() {
            assert(s[i] == s2[i]);
        } else if i == s2.len() && (w.context_pressure || w.time_pressure || w.step_pressure) {
            assert(s[i] == s3[i]);
        } else if i < s4.len() {
            assert(s[i] == s4[i]);
        }
    }
    if w.context_pressure || w.time_pressure || w.step_pressure {
        let k = s2.len() as int;
        assert(s[k] == s3[k]);
        assert(s[k] is ResourcePressure);
    } else {
        assert forall|i: int| 0 <= i < s.len() implies !(#[trigger] s[i] is ResourcePressure) by {
            if i < s2.len() {
                assert(s[i] == s2[i]);
            } else if i < s4.len() {
                assert(s[i] == s4[i]);
            }
        }
    }
    assert(count_passed(Seq::<bool>::empty()) == 0);
}

/// Each kind of signal is raised exactly when its condition holds, at most once, and
/// with the measures of the monitor: a high failure rate when at least three
/// verifications are in the window and more than half of them failed; no progress
/// from five steps without progress on; high complexity from five actions on when
/// there are more than two distinct topics for every five actions; recovery when
/// the last three verifications passed after an earlier failure in the window.
pub proof fn lemma_signal_conditions(v: Seq<bool>, steps: u32, topic_count: nat, actions: u32, w: ResourceWarnings)
    ensures
        ({
            let s = expected_signals(v, steps, topic_count, actions, w);
            let failed = v.len() - count_passed(v);
            &&& (exists|i: int| 0 <= i < s.len() && #[trigger] s[i] is HighFailureRate)
                <==> (v.len() >= 3 && 2 * failed > v.len())
            &&& forall|i: int| 0 <= i < s.len() && #[trigger] s[i] is HighFailureRate
                ==> s[i] == FeedbackSignal::HighFailureRate { failed: failed as u32, total: v.len() as u32 }
            &&& (exists|i: int| 0 <= i < s.len() && #[trigger] s[i] is NoProgress) <==> steps >= 5
            &&& forall|i: int| 0 <= i < s.len() && #[trigger] s[i] is NoProgress
                ==> s[i] == FeedbackSignal::NoProgress { steps_without_progress: steps }
            &&& (exists|i: int| 0 <= i < s.len() && #[trigger] s[i] is HighComplexity)
                <==> (actions >= 5 && 5 * topic_count > 2 * actions)
            &&& forall|i: int| 0 <= i < s.len() && #[trigger] s[i] is HighComplexity
                ==> s[i] == FeedbackSignal::HighComplexity { topics: topic_count as u32, actions }
            &&& (exists|i: int| 0 <= i < s.len() && #[trigger] s[i] is RecoveredFromFailure)
                <==> (v.len() >= 3 && (forall|k: int| v.len() - 3 <= k < v.len() ==> #[trigger] v[k])
                    && (exists|k: int| 0 <= k < v.len() - 3 && !#[trigger] v[k]))
            &&& s.len() <= 5
        }),
{
    let s = expected_signals(v, steps, topic_count, actions, w);
    let failed = (v.len() - count_passed(v)) as nat;
    lemma_count_passed_bound(v);
    let c1 = v.len() >= 3 && 2 * failed > v.len();
    let s1 = if c1 {
        seq![FeedbackSignal::HighFailureRate { failed: failed as u32, total: v.len() as u32 }]
    } else {
        seq![]
    };
    let s2 = if steps >= 5 {
        s1.push(FeedbackSignal::NoProgress { steps_without_progress: steps })
    } else {
        s1
    };
    let s3 = if w.context_pressure {
        s2.push(FeedbackSignal::ResourcePressure { resource_type: "context" })
    } else if w.time_pressure {
        s2.push(FeedbackSignal::ResourcePressure { resource_type: "time" })
    } else if w.step_pressure {
        s2.push(FeedbackSignal::ResourcePressure { resource_type: "reasoning_steps" })
    } else {
        s2
    };
    let c4 = actions >= 5 && 5 * topic_count > 2 * actions;
    let s4 = if c4 {
        s3.push(FeedbackSignal::HighComplexity { topics: topic_count as u32, actions })
    } else {
        s3
    };
    let c5 = v.len() >= 3 && count_passed(v.subrange(v.len() - 3, v.len() as int)) == 3
        && count_passed(v.subrange(0, v.len() - 3)) < v.len() - 3;
    assert(s == if c5 { s4.push(FeedbackSignal::RecoveredFromFailure) } else { s4 });
    // Where each kind can stand.
    assert forall|i: int| 0 <= i < s.len() && #[trigger] s[i] is HighFailureRate implies i == 0 && c1
        && s[i] == FeedbackSignal::HighFailureRate { failed: failed as u32, total: v.len() as u32 } by {
        if i < s1.len() { assert(s[i] == s1[i]); }
        else if i < s2.len() { assert(s[i] == s2[i]); }
        else if i < s3.len() { assert(s[i] == s3[i]); }
        else if i < s4.len() { assert(s[i] == s4[i]); }
    }
    if c1 {
        assert(s[0] == s1[0]);
    }
    assert forall|i: int| 0 <= i < s.len() && #[trigger] s[i] is NoProgress implies steps >= 5
        && s[i] == FeedbackSignal::NoProgress { steps_without_progress: steps } by {
        if i < s1.len() { assert(s[i] == s1[i]); }
        else if i < s2.len() { assert(s[i] == s2[i]); }
        else if i < s3.len() { assert(s[i] == s3[i]); }
        else if i < s4.len() { assert(s[i] == s4[i]); }
    }
    if steps >= 5 {
        let k = s1.len() as int;
        assert(s[k] == s2[k]);
    }
    assert forall|i: int| 0 <= i < s.len() && #[trigger] s[i] is HighComplexity implies c4
        && s[i] == FeedbackSignal::HighComplexity { topics: topic_count as u32, actions } by {
        if i < s1.len() { assert(s[i] == s1[i]); }
        else if i < s2.len() { assert(s[i] == s2[i]); }
        else if i < s3.len() { assert(s[i] == s3[i]); }
        else if i < s4.len() { assert(s[i] == s4[i]); }
    }
    if c4 {
        let k = s3.len() as int;
        assert(s[k] == s4[k]);
    }
    assert forall|i: int| 0 <= i < s.len() && #[trigger] s[i] is RecoveredFromFailure implies c5 by {
        if i < s1.len() { assert(s[i] == s1[i]); }
        else if i < s2.len() { assert(s[i] == s2[i]); }
        else if i < s3.len() { assert(s[i] == s3[i]); }
        else if i < s4.len() { assert(s[i] == s4[i]); }
    }
    if c5 {
        let k = s4.len() as int;
        assert(s[k] is RecoveredFromFailure);
    }
    if v.len() >= 3 {
        let tail = v.subrange(v.len() - 3, v.len() as int);
        let head = v.subrange(0, v.len() - 3);
        lemma_all_passed(tail);
        lemma_all_passed(head);
        assert forall|k: int| v.len() - 3 <= k < v.len() implies (#[trigger] v[k] <==> tail[k - (v.len() - 3)]) by {}
        assert forall|k: int| 0 <= k < v.len() - 3 implies (#[trigger] v[k] <==> head[k]) by {}
        if (forall|k: int| v.len() - 3 <= k < v.len() ==> #[trigger] v[k]) {
            assert forall|j: int| 0 <= j < tail.len() implies #[trigger] tail[j] by {
                assert(v[j + v.len() - 3]);
            }
        }
        if count_passed(tail) == 3 {
            assert forall|k: int| v.len() - 3 <= k < v.len() implies #[trigger] v[k] by {
                assert(tail[k - (v.len() - 3)]);
            }
        }
        if exists|k: int| 0 <= k < v.len() - 3 && !#[trigger] v[k] {
            let k = choose|k: int| 0 <= k < v.len() - 3 && !#[trigger] v[k];
            assert(!head[k]);
        }
        if count_passed(head) < head.len() {
            let j = choose|j: int| 0 <= j < head.len() && !#[trigger] head[j];
            assert(!v[j]);
        }
    }
}

/// `count_passed` is the length exactly when every outcome passed.
proof fn lemma_all_passed(s: Seq<bool>)
    ensures
        count_passed(s) <= s.len(),
        count_passed(s) == s.len() <==> forall|j: int| 0 <= j < s.len() ==> #[trigger] s[j],
    decreases s.len(),
{
    if s.len() > 0 {
        lemma_all_passed(s.drop_last());
        assert forall|j: int| 0 <= j < s.len() - 1 implies s.drop_last()[j] == #[trigger] s[j] by {}
        if count_passed(s) == s.len() {
            assert forall|j: int| 0 <= j < s.len() implies #[trigger] s[j] by {
                if j < s.len() - 1 {
                    assert(s.drop_last()[j]);
                }
            }
        }
        if forall|j: int| 0 <= j < s.len() ==> #[trigger] s[j] {
            assert forall|j: int| 0 <= j < s.drop_last().len() implies #[trigger] s.drop_last()[j] by {
                assert(s[j]);
            }
        }
    }
}

} // verus!
