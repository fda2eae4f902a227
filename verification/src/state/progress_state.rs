use vstd::prelude::*;

use crate::state::update_ticks::{update_due, UpdateTicks};
use crate::util::time::{seconds_to_time_string, time_text, MAX_DURATION_SECONDS};

verus! {

/// Whether a count of seconds can be written as a clock text.
pub open spec fn printable_seconds(s: int) -> bool {
    -MAX_DURATION_SECONDS <= s <= MAX_DURATION_SECONDS
}

/// The progress text: time listened, a slash, then the length of the track.
pub open spec fn progress_text(elapsed: int, track: int) -> Seq<char> {
    time_text(elapsed) + seq!['/'] + time_text(track)
}

/// What `can_update` does: while paused it answers no and changes nothing; while playing it
/// records the time since the ticker's last reset and answers as the ticker says.
pub open spec fn progress_checked(before: ProgressBarState, after: ProgressBarState, due: bool) -> bool {
    &&& after.track_seconds() == before.track_seconds()
    &&& after.elapsed_seconds() == before.elapsed_seconds()
    &&& after.playing() == before.playing()
    &&& !before.playing() ==> !due && after == before
    &&& before.playing() ==> {
        &&& after.ticks().last_updated_at == before.ticks().last_updated_at
        &&& after.ticks().interval_ms == before.ticks().interval_ms
        &&& after.ticks().should_hydrate == before.ticks().should_hydrate
        &&& after.ticks().ms_since_update >= 0
        &&& due == update_due(
            before.ticks().should_hydrate,
            after.ticks().ms_since_update as int,
            before.ticks().interval_ms as int,
        )
    }
}

/// Law: checking whether progress is due never changes the two counts behind the bar.
pub proof fn law_check_keeps_counts(before: ProgressBarState, after: ProgressBarState, due: bool)
    requires
        progress_checked(before, after, due),
    ensures
        after.track_seconds() == before.track_seconds(),
        after.elapsed_seconds() == before.elapsed_seconds(),
{
}

/// What `set_is_playing` does: the state plays or pauses; the counts and the ticker stay.
pub open spec fn playing_set(before: ProgressBarState, playing: bool, after: ProgressBarState) -> bool {
    &&& after.playing() == playing
    &&& after.track_seconds() == before.track_seconds()
    &&& after.elapsed_seconds() == before.elapsed_seconds()
    &&& after.ticks() == before.ticks()
}

/// A call that leaves the two counts alone: a check whether progress is due, or a switch
/// between playing and paused.
pub open spec fn count_keeping_step(before: ProgressBarState, after: ProgressBarState) -> bool {
    ||| exists|due: bool| progress_checked(before, after, due)
    ||| exists|playing: bool| playing_set(before, playing, after)
}

/// Law: after `set_new_track(Some(a), b)`, checks and switches between playing and paused
/// leave the counts at `a` seconds listened of `b`, so the raw progress reads them back.
pub proof fn law_new_track_counts_hold(history: Seq<ProgressBarState>, a: i64, b: i64)
    requires
        history.len() >= 1,
        history[0].elapsed_seconds() == a,
        history[0].track_seconds() == b,
        forall|i: int|
            0 <= i < history.len() - 1 ==> #[trigger] count_keeping_step(history[i], history[i + 1]),
    ensures
        history.last().elapsed_seconds() == a,
        history.last().track_seconds() == b,
    decreases history.len(),
{
    if history.len() > 1 {
        let before = history.drop_last();
        assert forall|i: int| 0 <= i < before.len() - 1 implies #[trigger] count_keeping_step(
            before[i],
            before[i + 1],
        ) by {
            assert(count_keeping_step(history[i], history[i + 1]));
        }
        law_new_track_counts_hold(before, a, b);
        let n = history.len() - 2;
        assert(count_keeping_step(history[n], history[n + 1]));
    }
}

/// What `bump_player_progress` does: one second more and a restarted ticker while the
/// end of the track is not reached, nothing at all once it is.
pub open spec fn progress_bumped(before: ProgressBarState, after: ProgressBarState) -> bool {
    &&& after.track_seconds() == before.track_seconds()
    &&& after.playing() == before.playing()
    &&& before.elapsed_seconds() < before.track_seconds() ==> {
        &&& after.elapsed_seconds() == before.elapsed_seconds() + 1
        &&& after.ticks().interval_ms == before.ticks().interval_ms
        &&& after.ticks().ms_since_update == 0
        &&& !after.ticks().should_hydrate
    }
    &&& before.elapsed_seconds() >= before.track_seconds() ==> after == before
}

/// Law: bumping never carries the progress past the end of the track, and at the end it
/// changes nothing.
pub proof fn law_bump_stops_at_track_end(before: ProgressBarState, after: ProgressBarState)
    requires
        progress_bumped(before, after),
        before.elapsed_seconds() <= before.track_seconds(),
    ensures
        after.elapsed_seconds() <= after.track_seconds(),
        after.elapsed_seconds() >= before.elapsed_seconds(),
        before.elapsed_seconds() == before.track_seconds() ==> after == before,
{
}

/// Playback progress of the current track, advanced one second per tick while playing.
pub struct ProgressBarState {
    track_time_seconds: i64,
    seconds_elapsed: i64,
    is_playing: bool,
    update_state: UpdateTicks,
}

/// The two numbers behind the progress bar.
pub struct RawProgress {
    pub track_time_seconds: i64,
    pub seconds_elapsed: i64,
}

impl ProgressBarState {
    /// Length of the current track in seconds.
    pub closed spec fn track_seconds(&self) -> i64 {
        self.track_time_seconds
    }

    /// Seconds listened of the current track.
    pub closed spec fn elapsed_seconds(&self) -> i64 {
        self.seconds_elapsed
    }

    /// Whether the track is playing.
    pub closed spec fn playing(&self) -> bool {
        self.is_playing
    }

    /// The ticker that paces the progress.
    pub closed spec fn ticks(&self) -> UpdateTicks {
        self.update_state
    }

    /// No track yet, playing, with a one-second ticker that is due at once.
    pub fn new() -> (state: Self)
        ensures
            state.track_seconds() == 0,
            state.elapsed_seconds() == 0,
            state.playing(),
            state.ticks().interval_ms == 1000,
            state.ticks().ms_since_update == 0,
            state.ticks().should_hydrate,
    {
        let update_state = UpdateTicks::new(Some(1000));
        Self { track_time_seconds: 0, seconds_elapsed: 0, update_state, is_playing: true }
    }

    /// Whether a second of progress is due: only while playing, and then as the ticker says.
    /// While paused the ticker is not read.
    pub fn can_update(&mut self) -> (due: bool)
        ensures
            progress_checked(*old(self), *final(self), due),
    {
        self.is_playing && self.update_state.can_update()
    }

    /// Advances the progress by one second and restarts the ticker, unless the end of the
    /// track is reached (moving on to the next track is left to the playback state).
    pub fn bump_player_progress(&mut self)
        ensures
            progress_bumped(*old(self), *final(self)),
    {
        if self.seconds_elapsed < self.track_time_seconds {
            self.seconds_elapsed = self.seconds_elapsed + 1;
            self.update_state.reset();
        }
    }

    /// Starts a new track of `track_seconds` seconds, at `cur_progress` seconds in (0 when
    /// not given).
    pub fn set_new_track(&mut self, cur_progress: Option<i64>, track_seconds: i64)
        ensures
            final(self).elapsed_seconds() == cur_progress.unwrap_or(0),
            final(self).track_seconds() == track_seconds,
            final(self).playing() == old(self).playing(),
            final(self).ticks() == old(self).ticks(),
    {
        self.seconds_elapsed = cur_progress.unwrap_or(0);
        self.track_time_seconds = track_seconds;
    }

    /// Marks the track as playing or paused.
    pub fn set_is_playing(&mut self, playing: bool)
        ensures
            playing_set(*old(self), playing, *final(self)),
    {
        self.is_playing = playing;
    }

    /// The progress as text, `listened/length`, each as `MM:SS` or `HH:MM:SS`.
    pub fn get_player_progress_seconds_str(&self) -> (text: String)
        requires
            printable_seconds(self.track_seconds() as int),
            printable_seconds(self.elapsed_seconds() as int),
        ensures
            text@ == progress_text(self.elapsed_seconds() as int, self.track_seconds() as int),
    {
        let track_time = seconds_to_time_string(self.track_time_seconds);
        let mut progress = seconds_to_time_string(self.seconds_elapsed);
        proof { reveal_strlit("/"); }
        progress.append("/");
        progress.append(track_time.as_str());
        progress
    }

    /// The two numbers behind the progress bar.
    pub fn get_player_progress_seconds_raw(&self) -> (raw: RawProgress)
        ensures
            raw.track_time_seconds == self.track_seconds(),
            raw.seconds_elapsed == self.elapsed_seconds(),
    {
        RawProgress { track_time_seconds: self.track_time_seconds, seconds_elapsed: self.seconds_elapsed }
    }
}

} // verus!
