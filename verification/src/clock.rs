//! The local clock and the calling thread's identifier, read through the
//! outside crates that provide them.

use vstd::prelude::*;

verus! {

/// A broken-down local-clock timestamp, one plain field per component. The
/// field conventions follow the broken-down time of the clock source: `mon`
/// counts from zero, `year` counts from 1900.
pub struct ClockTime {
    /// Seconds after the minute.
    pub sec: i32,
    /// Minutes after the hour.
    pub min: i32,
    /// Hours after midnight.
    pub hour: i32,
    /// Day of the month.
    pub mday: i32,
    /// Months since January.
    pub mon: i32,
    /// Years since 1900.
    pub year: i32,
    /// Nanoseconds after the second.
    pub nsec: i32,
}

impl ClockTime {
    /// The component ranges the clock source documents for every value it
    /// returns. The year is unbounded.
    pub open spec fn wf(&self) -> bool {
        &&& 0 <= self.sec <= 60
        &&& 0 <= self.min <= 59
        &&& 0 <= self.hour <= 23
        &&& 1 <= self.mday <= 31
        &&& 0 <= self.mon <= 11
        &&& 0 <= self.nsec <= 999_999_999
    }
}

/// Relies on time::now: the current local time, broken down, with each
/// component in the range the `Tm` fields document.
#[verifier::external_body]
pub(crate) fn clock_now() -> (t: ClockTime)
    ensures
        t.wf(),
{
    let tm = time::now();
    ClockTime {
        sec: tm.tm_sec,
        min: tm.tm_min,
        hour: tm.tm_hour,
        mday: tm.tm_mday,
        mon: tm.tm_mon,
        year: tm.tm_year,
        nsec: tm.tm_nsec,
    }
}

/// Relies on thread_id::get: an integer identifying the calling thread.
/// Which integer comes back is the platform's choice, so nothing is promised
/// of the value.
#[verifier::external_body]
pub(crate) fn current_thread_id() -> usize {
    thread_id::get()
}

} // verus!
