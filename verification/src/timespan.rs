use vstd::prelude::*;

verus! {

/// A signed span of time with millisecond resolution.
///
/// `millis` is the total number of milliseconds in the span. The two inputs
/// of the calculator (elapsed time and target duration) are both
/// non-negative spans; the signed remainder `target - elapsed` is kept as a
/// plain `i64` inside the calculator's snapshot.
#[derive(Clone, Copy, Debug, PartialEq, Eq, Structural)]
pub struct TimeSpan {
    pub millis: i64,
}

impl TimeSpan {
    /// Builds a span from an hours/minutes/seconds triple, the form in which
    /// a target duration is supplied. Returns `None` when the total does not
    /// fit in a millisecond count of `i64`.
    pub fn from_hms(hours: u64, minutes: u64, seconds: u64) -> (r: Option<TimeSpan>)
        ensures
            hours * 3600000 + minutes * 60000 + seconds * 1000 <= i64::MAX ==> (r matches Some(
                t,
            ) && t.millis == hours * 3600000 + minutes * 60000 + seconds * 1000),
            hours * 3600000 + minutes * 60000 + seconds * 1000 > i64::MAX ==> r is None,
    {
        let total: u128 = (hours as u128) * 3600000 + (minutes as u128) * 60000 + (seconds as u128)
            * 1000;
        if total <= i64::MAX as u128 {
            Some(TimeSpan { millis: total as i64 })
        } else {
            None
        }
    }
}

} // verus!
