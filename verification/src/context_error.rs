//! Errors of the context logic layer, and how store-layer errors map onto them.

use vstd::prelude::*;
use vstd::std_specs::convert::FromSpecImpl;

verus! {

/// Errors that can occur in context management operations.
#[derive(Debug, Clone, PartialEq, Eq)]
pub enum ContextError {
    MemoryNotFound(String),
    SnapshotNotFound(String),
    VerificationFailed(String),
    BudgetExceeded(String),
    DriftError(String),
    Serialization(String),
    Internal(String),
}

/// The logic-layer error for a store-layer error: a missing verification becomes a
/// failed verification, drift and missing drift signals become drift errors, and
/// the other kinds keep their kind; the message is kept.
pub open spec fn from_store_error(e: crate::core_error::ContextError) -> ContextError {
    match e {
        crate::core_error::ContextError::MemoryNotFound(s) => ContextError::MemoryNotFound(s),
        crate::core_error::ContextError::SnapshotNotFound(s) => ContextError::SnapshotNotFound(s),
        crate::core_error::ContextError::BudgetExceeded(s) => ContextError::BudgetExceeded(s),
        crate::core_error::ContextError::DriftDetected(s) => ContextError::DriftError(s),
        crate::core_error::ContextError::Serialization(s) => ContextError::Serialization(s),
        crate::core_error::ContextError::Internal(s) => ContextError::Internal(s),
        crate::core_error::ContextError::VerificationNotFound(s) => ContextError::VerificationFailed(s),
        crate::core_error::ContextError::DriftSignalNotFound(s) => ContextError::DriftError(s),
    }
}

impl From<crate::core_error::ContextError> for ContextError {
    fn from(err: crate::core_error::ContextError) -> (r: Self) {
        match err {
            crate::core_error::ContextError::MemoryNotFound(s) => ContextError::MemoryNotFound(s),
            crate::core_error::ContextError::SnapshotNotFound(s) => ContextError::SnapshotNotFound(s),
            crate::core_error::ContextError::BudgetExceeded(s) => ContextError::BudgetExceeded(s),
            crate::core_error::ContextError::DriftDetected(s) => ContextError::DriftError(s),
            crate::core_error::ContextError::Serialization(s) => ContextError::Serialization(s),
            crate::core_error::ContextError::Internal(s) => ContextError::Internal(s),
            crate::core_error::ContextError::VerificationNotFound(s) => ContextError::VerificationFailed(s),
            crate::core_error::ContextError::DriftSignalNotFound(s) => ContextError::DriftError(s),
        }
    }
}

impl FromSpecImpl<crate::core_error::ContextError> for ContextError {
    open spec fn obeys_from_spec() -> bool {
        true
    }

    open spec fn from_spec(err: crate::core_error::ContextError) -> ContextError {
        from_store_error(err)
    }
}

} // verus!
