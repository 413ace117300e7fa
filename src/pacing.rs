use vstd::prelude::*;

verus! {

/// The time budget of one step, counted against the elapsed time in microseconds.
pub const STEP_BUDGET: i64 = 16;

/// Sleeps of this many milliseconds or more are taken for clock anomalies and skipped.
pub const SLEEP_LIMIT: i64 = 20;

/// Whole microseconds in a span of nanoseconds, rounded toward zero.
pub open spec fn micros_of(nanos: int) -> int {
    if nanos >= 0 {
        nanos / 1000
    } else {
        -((-nanos) / 1000)
    }
}

/// How long to sleep after a step, given the nanosecond fields of the clock
/// readings taken before and after it.
pub open spec fn sleep_spec(start_nsec: int, stop_nsec: int) -> Option<u64> {
    let diff = STEP_BUDGET - micros_of(stop_nsec - start_nsec);
    if 0 < diff < SLEEP_LIMIT {
        Some(diff as u64)
    } else {
        None
    }
}

/// The pause, in milliseconds, that holds the step rate steady: the budget less
/// the time the step took, or nothing where that is not positive or is implausibly
/// long.
pub fn sleep_millis(start_nsec: i32, stop_nsec: i32) -> (r: Option<u64>)
    ensures
        r == sleep_spec(start_nsec as int, stop_nsec as int),
        r matches Some(ms) ==> 0 < ms < SLEEP_LIMIT,
{
    let elapsed: i64 = stop_nsec as i64 - start_nsec as i64;
    let micros: i64 = if elapsed >= 0 {
        elapsed / 1000
    } else {
        -((-elapsed) / 1000)
    };
    let diff: i64 = STEP_BUDGET - micros;
    if 0 < diff && diff < SLEEP_LIMIT {
        Some(diff as u64)
    } else {
        None
    }
}

} // verus!
