//! The wall-clock time of day a line is stamped with.

use vstd::prelude::*;

verus! {

/// A local time of day at one-second granularity.
#[derive(Clone, Copy, Debug, PartialEq, Eq, Structural)]
pub struct Timestamp {
    pub hour: u8,
    pub minute: u8,
    pub second: u8,
}

impl Timestamp {
    /// A time of day as a clock shows it: hour 0 to 23, minute 0 to 59,
    /// second 0 to 60 (60 for a leap second).
    pub open spec fn wf(self) -> bool {
        &&& self.hour < 24
        &&& self.minute < 60
        &&& self.second <= 60
    }
}

/// Relies on `time::now`: it returns the current local time broken down into
/// fields, documented as hours in [0, 23], minutes in [0, 59] and seconds in [0, 60].
/// It panics only when the C library cannot convert the system time at all.
#[verifier::external_body]
pub(crate) fn local_time_now() -> (r: Timestamp)
    ensures
        r.wf(),
{
    let tm = time::now();
    Timestamp { hour: tm.tm_hour as u8, minute: tm.tm_min as u8, second: tm.tm_sec as u8 }
}

} // verus!
