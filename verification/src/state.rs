use crate::timespan::TimeSpan;
use vstd::prelude::*;

verus! {

/// Signed remaining time, in milliseconds: target minus elapsed.
pub open spec fn spec_rem(e: int, t: int) -> int {
    t - e
}

/// Magnitude of the remaining time, in milliseconds.
pub open spec fn spec_abs_rem(e: int, t: int) -> int {
    if t - e >= 0 {
        t - e
    } else {
        e - t
    }
}

/// The target has been passed: the signed remainder is negative.
pub open spec fn spec_overshoot(e: int, t: int) -> bool {
    t - e < 0
}

/// Whole hours of the remaining magnitude; unbounded, no modulo.
pub open spec fn spec_hours(e: int, t: int) -> int {
    spec_abs_rem(e, t) / 3600000
}

/// Whole minutes of the remaining magnitude, within the hour.
pub open spec fn spec_mins(e: int, t: int) -> int {
    (spec_abs_rem(e, t) / 60000) % 60
}

/// Tenths of a second of the remaining magnitude, within the minute
/// (seconds with one decimal place, as an integer in `[0, 600)`).
pub open spec fn spec_tenths(e: int, t: int) -> int {
    (spec_abs_rem(e, t) % 60000) / 100
}

/// A snapshot of the countdown at one sampling instant, derived from the
/// elapsed time and the target duration alone. All fields are fixed-point:
/// milliseconds, or digits extracted from them. The progress ratio is kept
/// exactly, as the pair elapsed/target (`ratio_num`/`ratio_den`); a zero
/// denominator stands for the non-finite ratio of a zero target.
#[derive(Clone, Copy, Debug, PartialEq, Eq, Structural)]
pub struct PassedTime {
    /// Signed remaining milliseconds, `target - elapsed`.
    pub milli: i64,
    /// Whole hours of the remaining magnitude (unbounded).
    pub hours: u64,
    /// Whole minutes within the hour.
    pub mins: u64,
    /// Tenths of a second within the minute.
    pub tenths: u64,
    /// Elapsed milliseconds: the numerator of the progress ratio.
    pub ratio_num: u64,
    /// Target milliseconds: the denominator of the progress ratio.
    pub ratio_den: u64,
    /// True when the target has been passed.
    pub overshoot: bool,
}

impl PassedTime {
    /// Every field agrees with the elapsed/target pair the snapshot was
    /// taken from.
    pub open spec fn wf(self) -> bool {
        &&& self.ratio_num <= i64::MAX
        &&& self.ratio_den <= i64::MAX
        &&& self.milli == spec_rem(self.ratio_num as int, self.ratio_den as int)
        &&& self.overshoot == spec_overshoot(self.ratio_num as int, self.ratio_den as int)
        &&& self.hours == spec_hours(self.ratio_num as int, self.ratio_den as int)
        &&& self.mins == spec_mins(self.ratio_num as int, self.ratio_den as int)
        &&& self.tenths == spec_tenths(self.ratio_num as int, self.ratio_den as int)
    }

    /// The calculator: a pure function of the elapsed time and the target
    /// duration. It never fails; a zero target only makes the ratio
    /// denominator zero, which the renderer treats as a non-finite ratio.
    pub fn new(passed: TimeSpan, entire: TimeSpan) -> (r: PassedTime)
        requires
            passed.millis >= 0,
            entire.millis >= 0,
        ensures
            r.wf(),
            r.ratio_num == passed.millis,
            r.ratio_den == entire.millis,
            r.milli == spec_rem(passed.millis as int, entire.millis as int),
            r.overshoot == spec_overshoot(passed.millis as int, entire.millis as int),
    {
        let milli: i64 = entire.millis - passed.millis;
        let abs: u64 = if milli >= 0 {
            milli as u64
        } else {
            (-milli) as u64
        };
        PassedTime {
            milli,
            hours: abs / 3600000,
            mins: (abs / 60000) % 60,
            tenths: (abs % 60000) / 100,
            ratio_num: passed.millis as u64,
            ratio_den: entire.millis as u64,
            overshoot: milli < 0,
        }
    }
}

} // verus!
