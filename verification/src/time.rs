//! Moments in time and the delay between them.

use vstd::prelude::*;

verus! {

/// A moment in UTC: whole seconds since the start of 1970 and the nanoseconds
/// within the second.
#[derive(Clone, Copy, Debug, PartialEq, Eq, Structural)]
pub struct UtcTime {
    pub secs: i64,
    pub nanos: u32,
}

impl UtcTime {
    /// The moment as a count of nanoseconds since the start of 1970.
    pub open spec fn as_nanos(self) -> int {
        self.secs * 1_000_000_000 + self.nanos
    }
}

/// The whole milliseconds from `start` to `end`, or 0 where `end` comes first.
pub open spec fn elapsed_ms(start: UtcTime, end: UtcTime) -> nat {
    if start.as_nanos() <= end.as_nanos() {
        ((end.as_nanos() - start.as_nanos()) / 1_000_000) as nat
    } else {
        0
    }
}

/// `chrono::Utc::now`: the current moment. The clock gives whole nanoseconds
/// below one second, and no moment before 1970. The call panics where the
/// system's clock stands before 1970.
#[verifier::external_body]
pub(crate) fn utc_now() -> (now: UtcTime)
    ensures
        0 <= now.secs,
        now.nanos < 1_000_000_000,
{
    let now = chrono::Utc::now();
    UtcTime { secs: now.timestamp(), nanos: now.timestamp_subsec_nanos() }
}

/// The whole milliseconds from `start` to `end`, or 0 where `end` comes first.
pub fn delta_ms(start: UtcTime, end: UtcTime) -> (ms: u128)
    ensures
        ms == elapsed_ms(start, end),
{
    let from: i128 = start.secs as i128 * 1_000_000_000i128 + start.nanos as i128;
    let to: i128 = end.secs as i128 * 1_000_000_000i128 + end.nanos as i128;
    if from <= to {
        (to - from) as u128 / 1_000_000u128
    } else {
        0
    }
}

/// A delay does not grow when it starts later.
pub proof fn elapsed_shrinks_from_later_start(first: UtcTime, second: UtcTime, end: UtcTime)
    requires
        first.as_nanos() <= second.as_nanos(),
    ensures
        elapsed_ms(second, end) <= elapsed_ms(first, end),
{
}

/// A delay does not shrink when it ends later.
pub proof fn elapsed_grows_with_later_end(start: UtcTime, first: UtcTime, second: UtcTime)
    requires
        first.as_nanos() <= second.as_nanos(),
    ensures
        elapsed_ms(start, first) <= elapsed_ms(start, second),
{
}

/// A delay is the whole milliseconds that fit between two moments, told in seconds
/// and nanoseconds, and nothing where the second comes first.
pub proof fn delays_are_whole_milliseconds(start: UtcTime, end: UtcTime)
    ensures
        ({
            let gap = (end.secs - start.secs) * 1_000_000_000 + (end.nanos - start.nanos);
            &&& gap >= 0 ==> elapsed_ms(start, end) * 1_000_000 <= gap < (elapsed_ms(start, end) + 1)
                * 1_000_000
            &&& gap < 0 ==> elapsed_ms(start, end) == 0
        }),
{
    let gap = (end.secs - start.secs) * 1_000_000_000 + (end.nanos - start.nanos);
    assert(gap == end.as_nanos() - start.as_nanos());
}

} // verus!
