//! Errors of the context store layer.

use vstd::prelude::*;

verus! {

/// Errors that can occur in the context management system.
#[derive(Debug, Clone, PartialEq, Eq)]
pub enum ContextError {
    MemoryNotFound(String),
    SnapshotNotFound(String),
    VerificationNotFound(String),
    DriftSignalNotFound(String),
    BudgetExceeded(String),
    DriftDetected(String),
    Serialization(String),
    Internal(String),
}

} // verus!
