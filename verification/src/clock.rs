//! Outside values that the library carries without reading them: file-system
//! paths, and the current time. An instant is kept as whole seconds since the
//! Unix epoch and nanoseconds within the second, as chrono's `timestamp` and
//! `timestamp_subsec_nanos` report it.

use vstd::prelude::*;
use std::path::PathBuf;

verus! {

#[verifier::external_type_specification]
#[verifier::external_body]
pub struct ExPathBuf(PathBuf);

/// `PathBuf::clone` may be called; nothing is claimed of the copy.
pub assume_specification[ <PathBuf as Clone>::clone ](p: &PathBuf) -> PathBuf;

/// An instant: whole seconds since the Unix epoch and nanoseconds within the second.
#[derive(Debug, Clone, Copy, PartialEq, Eq, Structural)]
pub struct Timestamp {
    /// Whole seconds since the Unix epoch.
    pub secs: i64,
    /// Nanoseconds within the second.
    pub nanos: u32,
}

/// Calls `chrono::Utc::now` and returns its `timestamp` and `timestamp_subsec_nanos`.
/// The value depends on the clock, so nothing is claimed of it.
#[verifier::external_body]
pub(crate) fn now() -> (t: Timestamp)
{
    let n = chrono::Utc::now();
    Timestamp { secs: n.timestamp(), nanos: n.timestamp_subsec_nanos() }
}

} // verus!
