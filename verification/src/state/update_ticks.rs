use std::time::SystemTime;
use vstd::prelude::*;

use crate::util::clock::{millis_since, system_now};

verus! {

/// Whether a ticker is due: it still has to hydrate, or at least `interval_ms` milliseconds
/// have passed since it was last reset.
pub open spec fn update_due(should_hydrate: bool, ms_since_update: int, interval_ms: int) -> bool {
    should_hydrate || ms_since_update >= interval_ms
}

/// Paces a periodic update: due once at first, then each time `interval_ms` has passed
/// since the last `reset`.
#[derive(Clone, Copy)]
pub struct UpdateTicks {
    pub last_updated_at: SystemTime,
    pub interval_ms: i64,
    pub ms_since_update: i64,
    pub should_hydrate: bool,
}

impl UpdateTicks {
    /// A ticker with the given interval (1000 ms when none is given), due at once.
    pub fn new(interval: Option<i64>) -> (ticks: Self)
        ensures
            ticks.interval_ms == interval.unwrap_or(1000),
            ticks.ms_since_update == 0,
            ticks.should_hydrate,
    {
        let interval_ms = interval.unwrap_or(1000);
        Self { last_updated_at: system_now(), interval_ms, ms_since_update: 0, should_hydrate: true }
    }

    /// Restarts the interval from now; the ticker no longer has to hydrate.
    pub fn reset(&mut self)
        ensures
            final(self).interval_ms == old(self).interval_ms,
            final(self).ms_since_update == 0,
            !final(self).should_hydrate,
    {
        self.last_updated_at = system_now();
        self.ms_since_update = 0;
        self.should_hydrate = false;
    }

    /// Records that `ms_since_update` milliseconds have passed since the last reset and
    /// tells whether the ticker is due.
    pub fn can_update_after(&mut self, ms_since_update: i64) -> (due: bool)
        ensures
            final(self).last_updated_at == old(self).last_updated_at,
            final(self).interval_ms == old(self).interval_ms,
            final(self).should_hydrate == old(self).should_hydrate,
            final(self).ms_since_update == ms_since_update,
            due == update_due(old(self).should_hydrate, ms_since_update as int, old(self).interval_ms as int),
    {
        self.ms_since_update = ms_since_update;
        self.should_hydrate || self.ms_since_update >= self.interval_ms
    }

    /// Measures the time since the last reset on the system clock and tells whether the
    /// ticker is due. A clock that reads earlier than the last reset counts as no time passed.
    pub fn can_update(&mut self) -> (due: bool)
        ensures
            final(self).last_updated_at == old(self).last_updated_at,
            final(self).interval_ms == old(self).interval_ms,
            final(self).should_hydrate == old(self).should_hydrate,
            final(self).ms_since_update >= 0,
            due == update_due(
                old(self).should_hydrate,
                final(self).ms_since_update as int,
                old(self).interval_ms as int,
            ),
    {
        let ms_since_update = millis_since(&self.last_updated_at);
        self.can_update_after(ms_since_update)
    }
}

/// Law: a ticker that still has to hydrate is due whatever time has passed; this is the
/// state `new` leaves it in, so the first check after it is made always updates.
pub proof fn law_hydrating_ticker_is_due(ms_since_update: int, interval_ms: int)
    ensures
        update_due(true, ms_since_update, interval_ms),
{
}

/// Law: once reset, a ticker is due exactly when its interval has passed.
pub proof fn law_reset_ticker_waits_for_interval(ms_since_update: int, interval_ms: int)
    ensures
        update_due(false, ms_since_update, interval_ms) <==> ms_since_update >= interval_ms,
{
}

} // verus!
