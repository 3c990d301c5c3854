//! Clock adapters — concrete [`Clock`] implementations.

use vstd::prelude::*;
use crate::ports::Clock;

verus! {

/// Current Unix time in seconds: `std::time::SystemTime::now()` turned into
/// a `chrono::DateTime<Utc>` by its `From<SystemTime>` impl, which also
/// handles instants before the epoch (negative seconds), then
/// `DateTime::timestamp`.
///
/// Trusted: the result depends on the wall clock, so nothing is promised of it.
#[verifier::external_body]
pub(crate) fn utc_now_seconds() -> i64 {
    chrono::DateTime::<chrono::Utc>::from(std::time::SystemTime::now()).timestamp()
}

/// The real wall clock, backed by the system time.
#[derive(Debug, Default, Clone, Copy)]
pub struct SystemClock;

impl Clock for SystemClock {
    /// The wall clock may read any instant.
    open spec fn can_read(&self, t: i64) -> bool {
        true
    }

    fn now(&self) -> (r: i64) {
        utc_now_seconds()
    }
}

/// A clock pinned to a fixed instant — for deterministic runs and tests.
#[derive(Debug, Clone, Copy)]
pub struct FixedClock {
    now: i64,
}

impl FixedClock {
    pub closed spec fn instant(self) -> i64 {
        self.now
    }

    pub fn new(now: i64) -> (r: FixedClock)
        ensures
            r.instant() == now,
    {
        FixedClock { now }
    }

    /// Advance the clock by `delta` seconds (saturating at the ends of `i64`).
    pub fn advance(&mut self, delta: i64)
        ensures
            final(self).instant() == if old(self).instant() + delta > i64::MAX {
                i64::MAX
            } else if old(self).instant() + delta < i64::MIN {
                i64::MIN
            } else {
                (old(self).instant() + delta) as i64
            },
    {
        self.now = match self.now.checked_add(delta) {
            Some(t) => t,
            None => if delta > 0 {
                i64::MAX
            } else {
                i64::MIN
            },
        };
    }
}

impl Clock for FixedClock {
    /// A fixed clock reads only its pinned instant.
    open spec fn can_read(&self, t: i64) -> bool {
        t == self.instant()
    }

    fn now(&self) -> (r: i64)
        ensures
            r == self.instant(),
    {
        self.now
    }
}

} // verus!
