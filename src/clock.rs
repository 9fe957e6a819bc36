//! Points in time, held as plain numbers.
use vstd::prelude::*;

verus! {

/// A UTC point in time: whole seconds since the Unix epoch, and the
/// nanoseconds past that second.
#[derive(Debug, Clone, Copy, PartialEq, Eq, Structural)]
pub struct Timestamp {
    pub secs: i64,
    pub nanos: u32,
}

impl Timestamp {
    /// Seconds and nanoseconds name one point in time.
    pub open spec fn wf(&self) -> bool {
        self.nanos < 1_000_000_000
    }
}

/// Relies on chrono's `Utc::now` (system time since the Unix epoch), read back
/// with `DateTime::timestamp` and `DateTime::timestamp_subsec_nanos`. Its
/// nanoseconds come from a `Duration`'s subsecond part, below one second.
/// chrono panics where the system clock reads before 1970.
#[verifier::external_body]
pub(crate) fn now_utc() -> (r: Timestamp)
    ensures
        r.wf(),
{
    let t = chrono::Utc::now();
    Timestamp { secs: t.timestamp(), nanos: t.timestamp_subsec_nanos() }
}

} // verus!
