//! Resource budgets and usage tracking for bounded context operations.

use vstd::prelude::*;
use std::time::Duration;
use crate::duration::{duration_nanos, duration_from_secs, duration_zero, duration_saturating_sub, duration_is_zero};

verus! {

/// Explicit resource limits for context operations.
#[derive(Debug, Clone)]
pub struct ResourceBudget {
    /// Maximum tokens per context window.
    pub max_context_tokens: u32,
    /// Maximum tokens per single operation.
    pub max_operation_tokens: u32,
    /// Maximum time per task.
    pub max_task_duration: Duration,
    /// Maximum reasoning steps per task.
    pub max_reasoning_steps: u32,
    /// Maximum retries before escalation.
    pub max_retries: u32,
    /// Memory budget for persistent state.
    pub max_memory_items: usize,
}

/// The default budget: 128 000 context tokens, 16 000 operation tokens, 30 minutes,
/// 25 reasoning steps, 3 retries and 1000 memory items.
pub open spec fn is_default_budget(b: ResourceBudget) -> bool {
    &&& b.max_context_tokens == 128_000
    &&& b.max_operation_tokens == 16_000
    &&& duration_nanos(b.max_task_duration) == 1800 * 1_000_000_000
    &&& b.max_reasoning_steps == 25
    &&& b.max_retries == 3
    &&& b.max_memory_items == 1000
}

impl Default for ResourceBudget {
    fn default() -> (b: Self)
        ensures
            is_default_budget(b),
    {
        ResourceBudget {
            max_context_tokens: 128_000,
            max_operation_tokens: 16_000,
            max_task_duration: duration_from_secs(1800),
            max_reasoning_steps: 25,
            max_retries: 3,
            max_memory_items: 1000,
        }
    }
}

impl ResourceBudget {
    /// Creates a new resource budget with default values.
    pub fn new() -> (b: Self)
        ensures
            is_default_budget(b),
    {
        Self::default()
    }

    /// Sets the maximum context tokens.
    pub fn with_max_context_tokens(self, tokens: u32) -> (b: Self)
        ensures
            b == (ResourceBudget { max_context_tokens: tokens, ..self }),
    {
        ResourceBudget { max_context_tokens: tokens, ..self }
    }

    /// Sets the maximum operation tokens.
    pub fn with_max_operation_tokens(self, tokens: u32) -> (b: Self)
        ensures
            b == (ResourceBudget { max_operation_tokens: tokens, ..self }),
    {
        ResourceBudget { max_operation_tokens: tokens, ..self }
    }

    /// Sets the maximum task duration.
    pub fn with_max_task_duration(self, duration: Duration) -> (b: Self)
        ensures
            b == (ResourceBudget { max_task_duration: duration, ..self }),
    {
        ResourceBudget { max_task_duration: duration, ..self }
    }

    /// Sets the maximum reasoning steps.
    pub fn with_max_reasoning_steps(self, steps: u32) -> (b: Self)
        ensures
            b == (ResourceBudget { max_reasoning_steps: steps, ..self }),
    {
        ResourceBudget { max_reasoning_steps: steps, ..self }
    }

    /// Sets the maximum retries.
    pub fn with_max_retries(self, retries: u32) -> (b: Self)
        ensures
            b == (ResourceBudget { max_retries: retries, ..self }),
    {
        ResourceBudget { max_retries: retries, ..self }
    }

    /// Sets the maximum memory items.
    pub fn with_max_memory_items(self, items: usize) -> (b: Self)
        ensures
            b == (ResourceBudget { max_memory_items: items, ..self }),
    {
        ResourceBudget { max_memory_items: items, ..self }
    }
}

/// Current resource usage tracking.
#[derive(Debug, Clone)]
pub struct ResourceUsage {
    /// Current context token usage.
    pub context_tokens: u32,
    /// Tokens used in current operation.
    pub operation_tokens: u32,
    /// Time elapsed on current task.
    pub task_elapsed: Duration,
    /// Reasoning steps taken.
    pub reasoning_steps: u32,
    /// Current retry count.
    pub retries: u32,
    /// Current memory item count.
    pub memory_items: usize,
}

/// Usage with every counter at zero.
pub open spec fn is_empty_usage(u: ResourceUsage) -> bool {
    &&& u.context_tokens == 0
    &&& u.operation_tokens == 0
    &&& duration_nanos(u.task_elapsed) == 0
    &&& u.reasoning_steps == 0
    &&& u.retries == 0
    &&& u.memory_items == 0
}

impl Default for ResourceUsage {
    fn default() -> (u: Self)
        ensures
            is_empty_usage(u),
    {
        ResourceUsage {
            context_tokens: 0,
            operation_tokens: 0,
            task_elapsed: duration_zero(),
            reasoning_steps: 0,
            retries: 0,
            memory_items: 0,
        }
    }
}

/// The budget left once `u` is spent from `b`; each count stops at zero.
pub open spec fn remaining_spec(u: ResourceUsage, b: ResourceBudget, r: ResourceRemaining) -> bool {
    &&& r.context_tokens == sat_sub(b.max_context_tokens as int, u.context_tokens as int)
    &&& r.operation_tokens == sat_sub(b.max_operation_tokens as int, u.operation_tokens as int)
    &&& duration_nanos(r.task_time) == sat_sub(duration_nanos(b.max_task_duration) as int,
        duration_nanos(u.task_elapsed) as int)
    &&& r.reasoning_steps == sat_sub(b.max_reasoning_steps as int, u.reasoning_steps as int)
    &&& r.retries == sat_sub(b.max_retries as int, u.retries as int)
    &&& r.memory_items == sat_sub(b.max_memory_items as int, u.memory_items as int)
}

/// `a - b`, or zero when `b > a`.
pub open spec fn sat_sub(a: int, b: int) -> int {
    if a >= b { a - b } else { 0 }
}

impl ResourceUsage {
    /// Creates a new empty resource usage tracker.
    pub fn new() -> (u: Self)
        ensures
            is_empty_usage(u),
    {
        Self::default()
    }

    /// Calculate remaining budget.
    pub fn remaining(&self, budget: &ResourceBudget) -> (r: ResourceRemaining)
        ensures
            remaining_spec(*self, *budget, r),
    {
        ResourceRemaining {
            context_tokens: budget.max_context_tokens.saturating_sub(self.context_tokens),
            operation_tokens: budget.max_operation_tokens.saturating_sub(self.operation_tokens),
            task_time: duration_saturating_sub(budget.max_task_duration, self.task_elapsed),
            reasoning_steps: budget.max_reasoning_steps.saturating_sub(self.reasoning_steps),
            retries: budget.max_retries.saturating_sub(self.retries),
            memory_items: budget.max_memory_items.saturating_sub(self.memory_items),
        }
    }

    /// Records a reasoning step.
    pub fn record_step(&mut self)
        requires
            old(self).reasoning_steps < u32::MAX,
        ensures
            *final(self) == (ResourceUsage { reasoning_steps: (old(self).reasoning_steps + 1) as u32, ..*old(self) }),
    {
        self.reasoning_steps = self.reasoning_steps + 1;
    }

    /// Records a retry attempt.
    pub fn record_retry(&mut self)
        requires
            old(self).retries < u32::MAX,
        ensures
            *final(self) == (ResourceUsage { retries: (old(self).retries + 1) as u32, ..*old(self) }),
    {
        self.retries = self.retries + 1;
    }

    /// Updates the context token count.
    pub fn set_context_tokens(&mut self, tokens: u32)
        ensures
            *final(self) == (ResourceUsage { context_tokens: tokens, ..*old(self) }),
    {
        self.context_tokens = tokens;
    }

    /// Updates the operation token count.
    pub fn set_operation_tokens(&mut self, tokens: u32)
        ensures
            *final(self) == (ResourceUsage { operation_tokens: tokens, ..*old(self) }),
    {
        self.operation_tokens = tokens;
    }

    /// Updates the task elapsed time.
    pub fn set_task_elapsed(&mut self, elapsed: Duration)
        ensures
            *final(self) == (ResourceUsage { task_elapsed: elapsed, ..*old(self) }),
    {
        self.task_elapsed = elapsed;
    }

    /// Updates the memory item count.
    pub fn set_memory_items(&mut self, count: usize)
        ensures
            *final(self) == (ResourceUsage { memory_items: count, ..*old(self) }),
    {
        self.memory_items = count;
    }
}

/// Resource pressure warnings.
#[derive(Debug, Clone, Copy, PartialEq, Eq, Structural)]
pub struct ResourceWarnings {
    /// Context window near capacity.
    pub context_pressure: bool,
    /// Task time limit approaching.
    pub time_pressure: bool,
    /// Reasoning step limit approaching.
    pub step_pressure: bool,
    /// Memory item limit approaching.
    pub memory_pressure: bool,
}

impl Default for ResourceWarnings {
    fn default() -> (w: Self)
        ensures
            !w.context_pressure && !w.time_pressure && !w.step_pressure && !w.memory_pressure,
    {
        ResourceWarnings {
            context_pressure: false,
            time_pressure: false,
            step_pressure: false,
            memory_pressure: false,
        }
    }
}

/// The names of the active warnings, in the order context, time, step, memory.
pub open spec fn active_warning_names(w: ResourceWarnings) -> Seq<Seq<char>> {
    (if w.context_pressure { seq!["context_pressure"@] } else { Seq::empty() })
    + (if w.time_pressure { seq!["time_pressure"@] } else { Seq::empty() })
    + (if w.step_pressure { seq!["step_pressure"@] } else { Seq::empty() })
    + (if w.memory_pressure { seq!["memory_pressure"@] } else { Seq::empty() })
}

/// Whether any warning is active.
pub open spec fn any_warning(w: ResourceWarnings) -> bool {
    w.context_pressure || w.time_pressure || w.step_pressure || w.memory_pressure
}

impl ResourceWarnings {
    /// Returns true if any warning is active.
    pub fn any(&self) -> (b: bool)
        ensures
            b == any_warning(*self),
    {
        self.context_pressure || self.time_pressure || self.step_pressure || self.memory_pressure
    }

    /// Returns true if no warnings are active.
    pub fn none(&self) -> (b: bool)
        ensures
            b == !any_warning(*self),
    {
        !self.any()
    }

    /// Returns a list of active warning descriptions.
    pub fn active_warnings(&self) -> (v: Vec<&'static str>)
        ensures
            v@.map_values(|s: &'static str| s@) == active_warning_names(*self),
    {
        let mut warnings: Vec<&'static str> = Vec::new();
        let ghost names: Seq<Seq<char>> = Seq::empty();
        if self.context_pressure {
            warnings.push("context_pressure");
        }
        assert(warnings@.map_values(|s: &'static str| s@) =~= (if self.context_pressure { seq!["context_pressure"@] } else { Seq::empty() }));
        if self.time_pressure {
            warnings.push("time_pressure");
        }
        assert(warnings@.map_values(|s: &'static str| s@) =~= (if self.context_pressure { seq!["context_pressure"@] } else { Seq::empty() })
            + (if self.time_pressure { seq!["time_pressure"@] } else { Seq::empty() }));
        if self.step_pressure {
            warnings.push("step_pressure");
        }
        assert(warnings@.map_values(|s: &'static str| s@) =~= (if self.context_pressure { seq!["context_pressure"@] } else { Seq::empty() })
            + (if self.time_pressure { seq!["time_pressure"@] } else { Seq::empty() })
            + (if self.step_pressure { seq!["step_pressure"@] } else { Seq::empty() }));
        if self.memory_pressure {
            warnings.push("memory_pressure");
        }
        assert(warnings@.map_values(|s: &'static str| s@) =~= active_warning_names(*self));
        warnings
    }
}

/// Remaining resource budget.
#[derive(Debug, Clone)]
pub struct ResourceRemaining {
    /// Remaining context tokens.
    pub context_tokens: u32,
    /// Remaining operation tokens.
    pub operation_tokens: u32,
    /// Remaining task time.
    pub task_time: Duration,
    /// Remaining reasoning steps.
    pub reasoning_steps: u32,
    /// Remaining retries.
    pub retries: u32,
    /// Remaining memory items.
    pub memory_items: usize,
}

impl ResourceRemaining {
    /// Returns true when all of the context tokens, the task time, the reasoning
    /// steps and the retries have run out.
    pub fn all_exhausted(&self) -> (b: bool)
        ensures
            b == (self.context_tokens == 0 && duration_nanos(self.task_time) == 0
                && self.reasoning_steps == 0 && self.retries == 0),
    {
        self.context_tokens == 0 && duration_is_zero(self.task_time) && self.reasoning_steps == 0
            && self.retries == 0
    }
}

/// What is left of a budget never exceeds the budget itself.
pub proof fn lemma_remaining_within_budget(u: ResourceUsage, b: ResourceBudget, r: ResourceRemaining)
    requires
        remaining_spec(u, b, r),
    ensures
        r.context_tokens <= b.max_context_tokens,
        r.operation_tokens <= b.max_operation_tokens,
        duration_nanos(r.task_time) <= duration_nanos(b.max_task_duration),
        r.reasoning_steps <= b.max_reasoning_steps,
        r.retries <= b.max_retries,
        r.memory_items <= b.max_memory_items,
{
}

/// Nothing spent leaves the whole budget.
pub proof fn lemma_empty_usage_leaves_whole_budget(u: ResourceUsage, b: ResourceBudget, r: ResourceRemaining)
    requires
        is_empty_usage(u),
        remaining_spec(u, b, r),
    ensures
        r.context_tokens == b.max_context_tokens,
        r.operation_tokens == b.max_operation_tokens,
        duration_nanos(r.task_time) == duration_nanos(b.max_task_duration),
        r.reasoning_steps == b.max_reasoning_steps,
        r.retries == b.max_retries,
        r.memory_items == b.max_memory_items,
{
}

} // verus!
