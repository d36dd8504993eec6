//! Trusted specifications of the `std::time::Duration` operations the library uses.
//!
//! A duration is described by its length in nanoseconds, the value that
//! `Duration::as_nanos` reports for it.

use vstd::prelude::*;
use std::time::Duration;

verus! {

/// The total length of `d` in nanoseconds, as `Duration::as_nanos` returns it.
pub uninterp spec fn duration_nanos(d: Duration) -> nat;

/// `Duration` is `Copy`: its `clone` returns an equal value.
pub assume_specification[ <Duration as Clone>::clone ](d: &Duration) -> (r: Duration)
    ensures
        r == *d,
;

/// Calls `Duration::from_secs`: a duration of `secs` whole seconds.
#[verifier::external_body]
pub(crate) fn duration_from_secs(secs: u64) -> (d: Duration)
    ensures
        duration_nanos(d) == secs as nat * 1_000_000_000,
{
    Duration::from_secs(secs)
}

/// Calls `Duration::from_millis`: a duration of `millis` milliseconds.
#[verifier::external_body]
pub(crate) fn duration_from_millis(millis: u64) -> (d: Duration)
    ensures
        duration_nanos(d) == millis as nat * 1_000_000,
{
    Duration::from_millis(millis)
}

/// Calls `Duration::default()`, the zero duration.
#[verifier::external_body]
pub(crate) fn duration_zero() -> (d: Duration)
    ensures
        duration_nanos(d) == 0,
{
    Duration::default()
}

/// Calls `Duration::saturating_sub`: `a - b`, or zero when `b` is the longer one.
#[verifier::external_body]
pub(crate) fn duration_saturating_sub(a: Duration, b: Duration) -> (d: Duration)
    ensures
        duration_nanos(d) == if duration_nanos(a) >= duration_nanos(b) {
            (duration_nanos(a) - duration_nanos(b)) as nat
        } else {
            0nat
        },
{
    a.saturating_sub(b)
}

/// Calls `Duration::is_zero`: whether the duration is empty.
#[verifier::external_body]
pub(crate) fn duration_is_zero(d: Duration) -> (b: bool)
    ensures
        b == (duration_nanos(d) == 0),
{
    d.is_zero()
}

/// Calls `Duration::as_secs`: the number of whole seconds in `d`.
#[verifier::external_body]
pub(crate) fn duration_as_secs(d: Duration) -> (s: u64)
    ensures
        s as nat == duration_nanos(d) / 1_000_000_000,
{
    d.as_secs()
}

/// Calls `Duration::as_millis`: the number of whole milliseconds in `d`.
#[verifier::external_body]
pub(crate) fn duration_as_millis(d: Duration) -> (m: u128)
    ensures
        m as nat == duration_nanos(d) / 1_000_000,
{
    d.as_millis()
}

/// The text that `Duration`'s `Debug` impl writes for a duration of `nanos`
/// nanoseconds (such as `150ms` or `1.5s`).
pub uninterp spec fn duration_debug_text(nanos: nat) -> Seq<char>;

/// Formats `d` with `Duration`'s `Debug` impl. Claims only that the text is a
/// function of the duration's length.
#[verifier::external_body]
pub(crate) fn duration_debug(d: Duration) -> (r: String)
    ensures
        r@ == duration_debug_text(duration_nanos(d)),
{
    format!("{:?}", d)
}

} // verus!
