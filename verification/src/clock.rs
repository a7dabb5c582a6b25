//! Time source. The wall clock is read through a trusted wrapper; the
//! process-wide clock value handed to core operations is clamped to be
//! non-negative and monotonically non-decreasing by verified code, so the
//! engine never sees time move backwards whatever the wall clock reports.

use vstd::prelude::*;

verus! {

/// The formatted date-and-time string ("%Y-%m-%d %H:%M:%S", UTC) of a Unix
/// timestamp. Named rather than spelled out: the result depends on the
/// timestamp alone.
pub uninterp spec fn datetime_string_of(ts: int) -> Seq<char>;

/// Relies on chrono::Utc::now: returns the current Unix timestamp in seconds.
/// Nothing is promised of the value; callers clamp it.
#[verifier::external_body]
fn chrono_now_seconds() -> (r: i64) {
    chrono::Utc::now().timestamp()
}

/// Relies on chrono::DateTime::from_timestamp and DateTime::format: formats a
/// Unix timestamp as "%Y-%m-%d %H:%M:%S" in UTC. The result depends on the
/// timestamp alone. The bound keeps the timestamp inside the range (up to
/// year 9999) that from_timestamp accepts, so the conversion cannot fail.
#[verifier::external_body]
pub fn format_timestamp(ts: i64) -> (r: String)
    requires
        0 <= ts <= 253_402_207_200,
    ensures
        r@ == datetime_string_of(ts as int),
{
    chrono::DateTime::<chrono::Utc>::from_timestamp(ts, 0)
        .unwrap()
        .format("%Y-%m-%d %H:%M:%S")
        .to_string()
}

/// A process clock: seconds precision, non-negative, monotonically
/// non-decreasing within the process, as the core requires of its time
/// source. Wall-clock readings that would violate this are clamped.
pub struct SystemClock {
    last: i64,
}

impl SystemClock {
    pub closed spec fn last_reading(self) -> int {
        self.last as int
    }

    pub open spec fn wf(self) -> bool {
        0 <= self.last_reading()
    }

    pub fn new() -> (r: SystemClock)
        ensures
            r.wf(),
            r.last_reading() == 0,
    {
        SystemClock { last: 0 }
    }

    /// The current time: the wall clock where it is sane, otherwise the
    /// previous reading, so consecutive readings never decrease.
    pub fn now(&mut self) -> (t: i64)
        requires
            old(self).wf(),
        ensures
            final(self).wf(),
            old(self).last_reading() <= t,
            final(self).last_reading() == t,
    {
        let raw = chrono_now_seconds();
        let t = if raw < self.last {
            self.last
        } else {
            raw
        };
        self.last = t;
        t
    }
}

} // verus!
