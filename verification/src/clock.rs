//! The wall clock, in whole seconds since the Unix epoch.

use vstd::prelude::*;

verus! {

/// `chrono::Utc::now` and `DateTime::timestamp`: the whole seconds between
/// the Unix epoch and now. `Utc::now` measures the time that has passed since
/// the epoch and does not return where the clock stands before it, so the
/// reading is never negative. Nothing else is claimed of the value.
#[verifier::external_body]
fn unix_seconds() -> (seconds: i64)
    ensures
        seconds >= 0,
{
    chrono::Utc::now().timestamp()
}

/// The time now, in seconds since the Unix epoch: one reading of the clock.
///
/// Two calls may differ, so callers hand the value on to the functions that
/// decide by it; what those return is stated for every value of it.
pub fn current_time() -> (now: u64)
    ensures
        now <= i64::MAX,
{
    let seconds: i64 = unix_seconds();
    seconds as u64
}

} // verus!
