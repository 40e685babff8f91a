use vstd::prelude::*;
use chrono::{Datelike, Timelike};

verus! {

/// A local wall-clock instant, to the minute.
#[derive(Clone, Copy, Debug, PartialEq, Eq, Structural)]
pub struct LocalTime {
    pub year: i32,
    pub month: u32,
    pub day: u32,
    pub hour: u32,
    pub minute: u32,
}

impl LocalTime {
    /// Every field lies in its calendar range.
    pub open spec fn wf(self) -> bool {
        1 <= self.month <= 12 && 1 <= self.day <= 31 && self.hour < 24 && self.minute < 60
    }
}

/// Relies on `chrono::Local::now` for the current local time and on chrono's
/// `Datelike` and `Timelike` accessors, whose documentation gives the ranges:
/// month 1 to 12, day 1 to 31, hour 0 to 23, minute 0 to 59.
#[verifier::external_body]
pub(crate) fn local_now() -> (r: LocalTime)
    ensures
        r.wf(),
{
    let now = chrono::Local::now();
    LocalTime {
        year: now.year(),
        month: now.month(),
        day: now.day(),
        hour: now.hour(),
        minute: now.minute(),
    }
}

} // verus!
