use std::time::SystemTime;
use vstd::prelude::*;

use crate::state::progress_state::{printable_seconds, progress_text};
use crate::util::clock::{millis_since, system_now};
use crate::util::time::seconds_to_time_string;

verus! {

/// A ticker without a first, unconditional update: due each time `interval_ms` has passed
/// since it was made or last reset.
pub struct UpdateTicks {
    pub last_updated_at: SystemTime,
    pub interval_ms: i64,
    pub ms_since_update: i64,
}

impl UpdateTicks {
    /// A ticker with the given interval (1000 ms when none is given).
    pub fn new(interval: Option<i64>) -> (ticks: Self)
        ensures
            ticks.interval_ms == (match interval {
                Some(i) => i,
                None => 1000,
            }),
            ticks.ms_since_update == 0,
    {
        let interval_ms = match interval {
            Some(i) => i,
            None => 1000,
        };
        Self { last_updated_at: system_now(), interval_ms, ms_since_update: 0 }
    }

    /// Restarts the interval from now.
    pub fn reset(&mut self)
        ensures
            final(self).interval_ms == old(self).interval_ms,
            final(self).ms_since_update == 0,
    {
        self.last_updated_at = system_now();
        self.ms_since_update = 0;
    }

    /// Records that `ms_since_update` milliseconds have passed and tells whether the
    /// interval is over.
    pub fn can_update_after(&mut self, ms_since_update: i64) -> (due: bool)
        ensures
            final(self).last_updated_at == old(self).last_updated_at,
            final(self).interval_ms == old(self).interval_ms,
            final(self).ms_since_update == ms_since_update,
            due == (ms_since_update >= old(self).interval_ms),
    {
        self.ms_since_update = ms_since_update;
        self.ms_since_update >= self.interval_ms
    }

    /// Measures the time since the last reset on the system clock and tells whether the
    /// interval is over. A clock that reads earlier than the last reset counts as no time passed.
    pub fn can_update(&mut self) -> (due: bool)
        ensures
            final(self).last_updated_at == old(self).last_updated_at,
            final(self).interval_ms == old(self).interval_ms,
            final(self).ms_since_update >= 0,
            due == (final(self).ms_since_update >= old(self).interval_ms),
    {
        let ms_since_update = millis_since(&self.last_updated_at);
        self.can_update_after(ms_since_update)
    }
}

/// Playback progress that advances one second per tick without stopping at the track's end.
pub struct ProgressBarState {
    track_time_seconds: i64,
    seconds_elapsed: i64,
    is_paused: bool,
    update_state: UpdateTicks,
}

impl ProgressBarState {
    /// Length of the current track in seconds.
    pub closed spec fn track_seconds(&self) -> i64 {
        self.track_time_seconds
    }

    /// Seconds listened of the current track.
    pub closed spec fn elapsed_seconds(&self) -> i64 {
        self.seconds_elapsed
    }

    /// Whether the state counts as paused.
    pub closed spec fn paused(&self) -> bool {
        self.is_paused
    }

    /// The ticker that paces the progress.
    pub closed spec fn ticks(&self) -> UpdateTicks {
        self.update_state
    }

    /// No track yet, paused, with a one-second ticker.
    pub fn new() -> (state: Self)
        ensures
            state.track_seconds() == 0,
            state.elapsed_seconds() == 0,
            state.paused(),
            state.ticks().interval_ms == 1000,
            state.ticks().ms_since_update == 0,
    {
        let update_state = UpdateTicks::new(Some(1000));
        Self { track_time_seconds: 0, seconds_elapsed: 0, update_state, is_paused: true }
    }

    /// Whether a second of progress is due, as the ticker says (paused or not).
    pub fn can_update(&mut self) -> (due: bool)
        ensures
            final(self).track_seconds() == old(self).track_seconds(),
            final(self).elapsed_seconds() == old(self).elapsed_seconds(),
            final(self).paused() == old(self).paused(),
            final(self).ticks().last_updated_at == old(self).ticks().last_updated_at,
            final(self).ticks().interval_ms == old(self).ticks().interval_ms,
            final(self).ticks().ms_since_update >= 0,
            due == (final(self).ticks().ms_since_update >= old(self).ticks().interval_ms),
    {
        self.update_state.can_update()
    }

    /// Sets the seconds listened.
    pub fn set_player_progress(&mut self, seconds: i64)
        ensures
            final(self).elapsed_seconds() == seconds,
            final(self).track_seconds() == old(self).track_seconds(),
            final(self).paused() == old(self).paused(),
            final(self).ticks() == old(self).ticks(),
    {
        self.seconds_elapsed = seconds;
    }

    /// Advances the progress by one second and restarts the ticker.
    pub fn bump_player_progress(&mut self)
        requires
            old(self).elapsed_seconds() < i64::MAX,
        ensures
            final(self).elapsed_seconds() == old(self).elapsed_seconds() + 1,
            final(self).track_seconds() == old(self).track_seconds(),
            final(self).paused() == old(self).paused(),
            final(self).ticks().interval_ms == old(self).ticks().interval_ms,
            final(self).ticks().ms_since_update == 0,
    {
        self.seconds_elapsed = self.seconds_elapsed + 1;
        self.update_state.reset();
    }

    /// Starts a new track of `track_seconds` seconds, at `cur_progress` seconds in (0 when
    /// not given).
    pub fn set_new_track(&mut self, cur_progress: Option<i64>, track_seconds: i64)
        ensures
            final(self).elapsed_seconds() == (match cur_progress {
                Some(t) => t,
                None => 0,
            }),
            final(self).track_seconds() == track_seconds,
            final(self).paused() == old(self).paused(),
            final(self).ticks() == old(self).ticks(),
    {
        self.seconds_elapsed = match cur_progress {
            Some(t) => t,
            None => 0,
        };
        self.track_time_seconds = track_seconds;
    }

    /// The progress as text, `listened/length`, each as `MM:SS` or `HH:MM:SS`.
    pub fn get_player_progress_seconds_str(&self) -> (text: String)
        requires
            printable_seconds(self.track_seconds() as int),
            printable_seconds(self.elapsed_seconds() as int),
        ensures
            text@ == progress_text(self.elapsed_seconds() as int, self.track_seconds() as int),
    {
        let track_time = seconds_to_time_string(self.track_time_seconds);
        let mut progress = seconds_to_time_string(self.seconds_elapsed);
        proof { reveal_strlit("/"); }
        progress.append("/");
        progress.append(track_time.as_str());
        progress
    }
}

} // verus!
