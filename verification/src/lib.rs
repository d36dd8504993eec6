//! Verified core of the Loom context-management and multi-agent coordination system.
//!
//! The crate holds the deterministic logic of the system: identifiers, resource
//! budgets, reasoning strategies, verdicts, task events and their filters, the
//! back-pressure controller, and the text builders used in prompts.

#![allow(unused_imports)]

pub mod ids;
pub mod text;
pub mod duration;
pub mod resource;
pub mod strategy;
pub mod prompt;
pub mod clock;
pub mod work;
pub mod events;
pub mod subscription;
pub mod backpressure;
pub mod verdict;
pub mod core_error;
pub mod context_error;
pub mod errors;
pub mod agents;
pub mod memory;
pub mod claims;
pub mod drift;
pub mod feedback;
pub mod verifiers;
pub mod metrics;
pub mod api;
pub mod assembly;
pub mod history;
pub mod planning;
pub mod records;
pub mod integration;
pub mod stage;
pub mod pruning;
pub mod memory_index;
