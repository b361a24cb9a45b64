//! The one place where the library touches the host: reading the wall
//! clock. The probe and use of the audio device are the caller's business;
//! the watcher takes their results as arguments.

use chrono::Datelike;
use chrono::Timelike;
use vstd::prelude::*;

use crate::machine::TimeSnapshot;

verus! {

/// Relies on chrono: `Local::now()` gives the current local time, whose
/// `hour()` is within 0..=23 and `minute()` within 0..=59 (`Timelike`),
/// and whose `weekday().num_days_from_monday()` (`Datelike`) is within
/// 0..=6 with Monday mapped to 0 — the schedule's own weekday scheme.
/// Nothing more is assumed: which instant comes back depends on the host.
#[verifier::external_body]
pub(crate) fn read_clock() -> (s: TimeSnapshot)
    ensures
        s.in_range(),
{
    let t = chrono::Local::now();
    TimeSnapshot {
        hour: t.hour(),
        minute: t.minute(),
        weekday: t.weekday().num_days_from_monday(),
    }
}

} // verus!
