//! Contracts for the few `std::time::Duration` operations the library uses.
//!
//! A `Duration` is opaque to the verifier; it is described by two names: the
//! value `Duration::from_secs` / `Duration::from_millis` build, and the whole
//! number of seconds `Duration::as_secs` reads back.
use vstd::prelude::*;

verus! {

/// `Duration` is `Copy`: its `clone` returns the same value.
pub assume_specification[ <std::time::Duration as Clone>::clone ](d: &std::time::Duration) -> (r: std::time::Duration)
    ensures
        r == *d,
;

/// The duration of `secs` whole seconds, as `Duration::from_secs` builds it.
pub uninterp spec fn duration_of_secs(secs: u64) -> std::time::Duration;

/// The duration of `millis` milliseconds, as `Duration::from_millis` builds it.
pub uninterp spec fn duration_of_millis(millis: u64) -> std::time::Duration;

/// The whole seconds of a duration, as `Duration::as_secs` reports them.
pub uninterp spec fn whole_secs(d: std::time::Duration) -> u64;

/// `Duration::from_secs`: the duration of `secs` whole seconds, whose
/// `as_secs` is `secs` again.
#[verifier::external_body]
pub(crate) fn duration_from_secs(secs: u64) -> (d: std::time::Duration)
    ensures
        d == duration_of_secs(secs),
        whole_secs(d) == secs,
{
    std::time::Duration::from_secs(secs)
}

/// `Duration::from_millis`: the duration of `millis` milliseconds, whose
/// `as_secs` is the number of whole seconds in it.
#[verifier::external_body]
pub(crate) fn duration_from_millis(millis: u64) -> (d: std::time::Duration)
    ensures
        d == duration_of_millis(millis),
        whole_secs(d) == millis / 1000,
{
    std::time::Duration::from_millis(millis)
}

/// `Duration::as_secs`: the number of whole seconds in `d`.
#[verifier::external_body]
pub(crate) fn duration_as_secs(d: &std::time::Duration) -> (secs: u64)
    ensures
        secs == whole_secs(*d),
{
    d.as_secs()
}

} // verus!
