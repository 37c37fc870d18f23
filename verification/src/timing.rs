//! Deadline arithmetic for the polling loops.
//!
//! All waits in the recovery protocols compare a start timestamp against a
//! current timestamp, both in milliseconds. The comparisons are total: a
//! clock that reports an earlier `now` than `start` simply counts as "no
//! time elapsed yet", and no subtraction can underflow.

use vstd::prelude::*;

verus! {

/// At least `interval_ms` milliseconds lie between `start_ms` and `now_ms`.
pub open spec fn spec_elapsed_at_least(start_ms: u64, now_ms: u64, interval_ms: u64) -> bool {
    now_ms - start_ms >= interval_ms
}

/// Strictly more than `interval_ms` milliseconds lie between the two instants.
pub open spec fn spec_elapsed_more_than(start_ms: u64, now_ms: u64, interval_ms: u64) -> bool {
    now_ms - start_ms > interval_ms
}

/// Whether `interval_ms` or more has passed since `start_ms`.
pub fn elapsed_at_least(start_ms: u64, now_ms: u64, interval_ms: u64) -> (b: bool)
    ensures
        b == spec_elapsed_at_least(start_ms, now_ms, interval_ms),
{
    now_ms >= start_ms && now_ms - start_ms >= interval_ms
}

/// Whether strictly more than `interval_ms` has passed since `start_ms`.
pub fn elapsed_more_than(start_ms: u64, now_ms: u64, interval_ms: u64) -> (b: bool)
    ensures
        b == spec_elapsed_more_than(start_ms, now_ms, interval_ms),
{
    now_ms >= start_ms && now_ms - start_ms > interval_ms
}

} // verus!
