//! Points in time, read from the system clock.
use vstd::prelude::*;
use std::time::{SystemTime, UNIX_EPOCH};

verus! {

/// A point in time: whole seconds since the Unix epoch and the nanoseconds
/// past that second, as chrono reports them for a `DateTime<Utc>` (a time
/// before the epoch has negative seconds and a forward nanosecond part).
#[derive(Debug, Clone, Copy, PartialEq, Eq, Structural)]
pub struct Timestamp {
    pub secs: i64,
    pub nanos: u32,
}

/// The span of clock readings: `10^13` seconds each side of the epoch
/// (about 317,000 years; chrono's dates end within it).
pub open spec fn clock_span() -> int {
    10_000_000_000_000
}

/// What a reading of the clock can be: within the span each side of the
/// epoch, with a nanosecond part below one second.
pub open spec fn clock_reading(t: Timestamp) -> bool {
    &&& -clock_span() <= t.secs < clock_span()
    &&& t.nanos < 1_000_000_000
}

/// Reads the system clock: `SystemTime::now().duration_since(UNIX_EPOCH)`,
/// as whether the time lies before the epoch (the `Err` case), and the
/// whole seconds and the nanoseconds of the distance from it
/// (`Duration::as_secs`, `Duration::subsec_nanos`, the latter documented as
/// below one billion). Which reading comes back depends on the time of the
/// call.
#[verifier::external_body]
fn system_time_parts() -> (r: (bool, u64, u32))
    ensures
        r.2 < 1_000_000_000,
{
    match SystemTime::now().duration_since(UNIX_EPOCH) {
        Ok(d) => (false, d.as_secs(), d.subsec_nanos()),
        Err(e) => (true, e.duration().as_secs(), e.duration().subsec_nanos()),
    }
}

/// The timestamp of a distance from the epoch (`before` it or after it).
/// A distance of the span or more, which no date can have, is read as the
/// nearest end of the span.
pub open spec fn reading_of(before: bool, secs: u64, nanos: u32) -> Timestamp {
    if !before {
        if secs < clock_span() {
            Timestamp { secs: secs as i64, nanos }
        } else {
            Timestamp { secs: (clock_span() - 1) as i64, nanos: 999_999_999 }
        }
    } else if secs >= clock_span() {
        Timestamp { secs: -clock_span() as i64, nanos: 0 }
    } else if nanos == 0 {
        Timestamp { secs: -secs as i64, nanos: 0 }
    } else {
        Timestamp { secs: (-secs - 1) as i64, nanos: (1_000_000_000 - nanos) as u32 }
    }
}

impl Timestamp {
    /// Nanoseconds since the epoch.
    pub open spec fn total_nanos(self) -> int {
        self.secs * 1_000_000_000 + self.nanos
    }

    pub open spec fn wf(self) -> bool {
        self.nanos < 2_000_000_000
    }

    /// The current time: the system clock's distance from the epoch, as a
    /// timestamp.
    pub fn now() -> (t: Timestamp)
        ensures
            t.wf(),
            clock_reading(t),
            exists|before: bool, secs: u64, nanos: u32|
                nanos < 1_000_000_000 && t == #[trigger] reading_of(before, secs, nanos),
    {
        let (before, secs, nanos) = system_time_parts();
        let t = if !before {
            if secs < 10_000_000_000_000 {
                Timestamp { secs: secs as i64, nanos }
            } else {
                Timestamp { secs: 9_999_999_999_999, nanos: 999_999_999 }
            }
        } else if secs >= 10_000_000_000_000 {
            Timestamp { secs: -10_000_000_000_000, nanos: 0 }
        } else if nanos == 0 {
            Timestamp { secs: -(secs as i64), nanos: 0 }
        } else {
            Timestamp { secs: -(secs as i64) - 1, nanos: 1_000_000_000 - nanos }
        };
        assert(t == reading_of(before, secs, nanos));
        t
    }

    /// Nanoseconds from `earlier` to `self` (negative when `earlier` is later).
    pub fn nanos_since(&self, earlier: &Timestamp) -> (d: i128)
        ensures
            d == self.total_nanos() - earlier.total_nanos(),
    {
        let a: i128 = self.secs as i128 * 1_000_000_000i128 + self.nanos as i128;
        let b: i128 = earlier.secs as i128 * 1_000_000_000i128 + earlier.nanos as i128;
        a - b
    }

    /// Whole seconds from `earlier` to `self`, rounded toward zero, as
    /// `TimeDelta::num_seconds` counts them.
    pub fn whole_seconds_since(&self, earlier: &Timestamp) -> (s: i128)
        ensures
            s == whole_seconds(self.total_nanos() - earlier.total_nanos()),
    {
        let d = self.nanos_since(earlier);
        d / 1_000_000_000i128
    }
}

/// Division by 10^9 rounded toward zero.
pub open spec fn whole_seconds(nanos: int) -> int {
    if nanos >= 0 {
        nanos / 1_000_000_000
    } else {
        -((-nanos) / 1_000_000_000)
    }
}

} // verus!
