//! Decides when the window list is old enough to rebuild. The decision
//! is a pure function of two millisecond counts: the present moment and
//! the moment of the previous rebuild.

use vstd::prelude::*;

verus! {

/// How long, in milliseconds, a snapshot stays fresh.
pub const REFRESH_INTERVAL_MS: u64 = 5000;

/// True when more than the refresh interval has passed between `last`
/// and `now`.
pub open spec fn spec_due(now: u64, last: u64) -> bool {
    now - last > REFRESH_INTERVAL_MS
}

/// Decide whether a refresh is authorized, for any pair of timestamps.
pub fn due(now: u64, last: u64) -> (r: bool)
    ensures
        r == spec_due(now, last),
{
    now > last && now - last > REFRESH_INTERVAL_MS
}

/// Law: `spec_due(now, last)` is false whenever `now - last` is at most
/// 5000 and true whenever it exceeds 5000, with no condition on either
/// argument.
pub proof fn lemma_due_threshold(now: u64, last: u64)
    ensures
        now - last <= 5000 ==> !spec_due(now, last),
        now - last > 5000 ==> spec_due(now, last),
{
}

/// Remembers when the last enumeration happened.
pub struct RefreshGate {
    pub last_refresh: u64,
}

impl RefreshGate {
    /// A gate that treats `now` as the moment of the last refresh.
    pub fn new(now: u64) -> (r: RefreshGate)
        ensures
            r.last_refresh == now,
    {
        RefreshGate { last_refresh: now }
    }

    /// True when the recorded moment lies more than the fixed interval
    /// behind `now`.
    pub fn due(&self, now: u64) -> (r: bool)
        ensures
            r == spec_due(now, self.last_refresh),
    {
        due(now, self.last_refresh)
    }

    /// Record `now` as the moment of the latest refresh.
    pub fn tick(&mut self, now: u64)
        ensures
            final(self).last_refresh == now,
    {
        self.last_refresh = now;
    }
}

} // verus!
