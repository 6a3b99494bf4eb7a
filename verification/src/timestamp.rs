//! The calendar's linear time value, and its conversion to and from Unix
//! time.  The two clocks tick at different rates: a Unix day holds 86400
//! seconds while a calendar day holds 100000, so the conversion rescales
//! the second count as well as shifting the epoch.

use vstd::prelude::*;
use crate::SECONDS_PER_DAY;
use crate::trunc_div;

verus! {

/// Unix second count of the calendar epoch's midnight in universal time.
pub const REPUBLICAN_EPOCH_GREGORIAN_SECONDS: i64 = -5594227200;

/// Seconds in one Unix day.
pub const GREGORIAN_SECONDS_PER_DAY: i64 = 86400;

/// Offset, in Unix seconds, between universal time and the local mean time
/// the calendar's day boundaries follow, as fixed by its founding decree.
pub const OFFSET_GREGORIAN_SECONDS: i64 = 1080;

/// Smallest Unix second count `from_unix` accepts: below it the rescaled
/// second count no longer fits an `i64`.
pub const MIN_UNIX_SECONDS: i64 = -92_239_314_596_827;

/// Largest Unix second count `from_unix` accepts: above it the rescaled
/// second count no longer fits an `i64`.
pub const MAX_UNIX_SECONDS: i64 = 92_228_126_140_267;

/// Largest calendar second magnitude `to_unix` accepts: beyond it the
/// rescaling multiplication no longer fits an `i64`.
pub const MAX_CONVERTIBLE_SECONDS: i64 = 106_751_991_167_300;

/// The calendar second count a Unix second count converts to: the seconds
/// since the calendar epoch, shifted by the decree's offset and rescaled
/// from 86400-second days to 100000-second days.
pub open spec fn spec_from_unix(unix_timestamp: int) -> int {
    trunc_div((unix_timestamp + 5594228280) * 100000, 86400)
}

/// The Unix second count a calendar second count converts to: the inverse
/// rescaling and shift of `spec_from_unix`, up to the rounding both
/// truncating divisions lose.
pub open spec fn spec_to_unix(seconds: int) -> int {
    trunc_div(seconds * 86400, 100000) - 5594228280
}

/// An instant of the calendar: a signed count of calendar seconds since the
/// calendar epoch (the start of the first year's first day).
#[derive(Debug, Clone, Copy, PartialEq, Eq, PartialOrd, Ord, Hash)]
pub struct Timestamp {
    /// The number of calendar seconds since the calendar epoch.
    pub seconds: i64,
}

impl Timestamp {
    /// The instant of a Unix second count.
    pub fn from_unix(unix_timestamp: i64) -> (r: Self)
        requires
            MIN_UNIX_SECONDS <= unix_timestamp <= MAX_UNIX_SECONDS,
        ensures
            r.seconds == spec_from_unix(unix_timestamp as int),
    {
        let gregorian_seconds: i64 = unix_timestamp - REPUBLICAN_EPOCH_GREGORIAN_SECONDS
            + OFFSET_GREGORIAN_SECONDS;
        let republican_seconds: i64 = gregorian_seconds * SECONDS_PER_DAY
            / GREGORIAN_SECONDS_PER_DAY;
        Timestamp { seconds: republican_seconds }
    }

    /// The Unix second count of this instant.
    pub fn to_unix(&self) -> (r: i64)
        requires
            -MAX_CONVERTIBLE_SECONDS <= self.seconds <= MAX_CONVERTIBLE_SECONDS,
        ensures
            r == spec_to_unix(self.seconds as int),
    {
        let gregorian_seconds: i64 = self.seconds * GREGORIAN_SECONDS_PER_DAY
            / SECONDS_PER_DAY;
        gregorian_seconds + REPUBLICAN_EPOCH_GREGORIAN_SECONDS - OFFSET_GREGORIAN_SECONDS
    }
}

} // verus!
