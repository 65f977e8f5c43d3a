//! The wall clock, in whole seconds since the Unix epoch.
use vstd::prelude::*;

verus! {

/// Relies on `SystemTime::elapsed` of `UNIX_EPOCH`: the time since the epoch,
/// or nothing where the system clock stands before it.
#[verifier::external_body]
fn elapsed_since_epoch() -> (r: Option<std::time::Duration>) {
    std::time::UNIX_EPOCH.elapsed().ok()
}

/// Relies on `Duration::as_secs`: the whole seconds of a duration.
#[verifier::external_body]
fn whole_seconds(d: &std::time::Duration) -> (r: u64) {
    d.as_secs()
}

/// A count of seconds as a timestamp: itself where an `i64` holds it.
pub open spec fn seconds_as_time(s: u64) -> Option<i64> {
    if s <= i64::MAX as u64 {
        Some(s as i64)
    } else {
        None
    }
}

/// The timestamp for a count of whole seconds since the epoch; nothing
/// where it is beyond what an `i64` holds.
pub fn time_of_seconds(s: u64) -> (r: Option<i64>)
    ensures
        r == seconds_as_time(s),
{
    if s <= i64::MAX as u64 {
        Some(s as i64)
    } else {
        None
    }
}

/// The current time in seconds since the Unix epoch; nothing where the
/// clock stands before the epoch or beyond what an `i64` holds.
pub fn current_time() -> (r: Option<i64>)
    ensures
        r matches Some(t) ==> t >= 0,
        r is None || exists|s: u64| r == seconds_as_time(s),
{
    match elapsed_since_epoch() {
        Some(d) => {
            let s = whole_seconds(&d);
            time_of_seconds(s)
        },
        None => None,
    }
}

} // verus!
