use vstd::prelude::*;

use crate::state::update_ticks::{update_due, UpdateTicks};

verus! {

/// The line that names what is playing: `title - album (artist)`.
pub open spec fn player_line(title: Seq<char>, album: Seq<char>, artist: Seq<char>) -> Seq<char> {
    title + " - "@ + album + " ("@ + artist + ")"@
}

/// What `can_update` does: the track and the ticker's start stay, the time since the last
/// track is recorded, and the answer is due while no track has been recorded (the ticker
/// still hydrates) or once three seconds have passed.
pub open spec fn playing_checked(before: PlayingState, after: PlayingState, due: bool) -> bool {
    &&& after.title() == before.title()
    &&& after.album() == before.album()
    &&& after.artist() == before.artist()
    &&& after.ticks().last_updated_at == before.ticks().last_updated_at
    &&& after.ticks().interval_ms == REFRESH_INTERVAL_MS
    &&& after.ticks().should_hydrate == before.ticks().should_hydrate
    &&& after.ticks().ms_since_update >= 0
    &&& due == update_due(
        before.ticks().should_hydrate,
        after.ticks().ms_since_update as int,
        REFRESH_INTERVAL_MS as int,
    )
}

/// What `set_now_playing` does to the ticker: it restarts it and stops hydrating.
pub open spec fn track_recorded(before: PlayingState, after: PlayingState) -> bool {
    &&& after.ticks().interval_ms == REFRESH_INTERVAL_MS
    &&& after.ticks().ms_since_update == 0
    &&& !after.ticks().should_hydrate
}

/// A call on a playing state: a check whether a refresh is due, or a track recorded.
pub open spec fn playing_step(before: PlayingState, after: PlayingState) -> bool {
    ||| exists|due: bool| playing_checked(before, after, due)
    ||| track_recorded(before, after)
}

/// Whether a track was recorded among the first `n` steps of `history`.
pub open spec fn recorded_before(history: Seq<PlayingState>, n: int) -> bool {
    exists|j: int| 0 <= j < n && #[trigger] track_recorded(history[j], history[j + 1])
}

proof fn lemma_hydrating_until_recorded(history: Seq<PlayingState>, n: int)
    requires
        history.len() >= 1,
        history[0].ticks().should_hydrate,
        forall|i: int| 0 <= i < history.len() - 1 ==> #[trigger] playing_step(history[i], history[i + 1]),
        0 <= n < history.len(),
    ensures
        history[n].ticks().should_hydrate == !recorded_before(history, n),
    decreases n,
{
    if n > 0 {
        lemma_hydrating_until_recorded(history, n - 1);
        let k = n - 1;
        assert(playing_step(history[k], history[k + 1]));
        if track_recorded(history[k], history[k + 1]) {
            assert(recorded_before(history, n));
        } else {
            if recorded_before(history, k) {
                let j = choose|j: int| 0 <= j < k && #[trigger] track_recorded(history[j], history[j + 1]);
                assert(0 <= j < n && track_recorded(history[j], history[j + 1]));
            }
            if recorded_before(history, n) {
                let j = choose|j: int| 0 <= j < n && #[trigger] track_recorded(history[j], history[j + 1]);
                assert(j < k);
                assert(recorded_before(history, k));
            }
        }
    }
}

/// Law: a playing state made by `new` is due on every check until a track is recorded;
/// from then on it is due exactly when three seconds have passed since the last track.
pub proof fn law_due_until_first_track(history: Seq<PlayingState>, after: PlayingState, due: bool)
    requires
        history.len() >= 1,
        history[0].ticks().should_hydrate,
        forall|i: int| 0 <= i < history.len() - 1 ==> #[trigger] playing_step(history[i], history[i + 1]),
        playing_checked(history.last(), after, due),
    ensures
        due == (!recorded_before(history, history.len() - 1) || after.ticks().ms_since_update
            >= REFRESH_INTERVAL_MS),
{
    lemma_hydrating_until_recorded(history, history.len() - 1);
}

/// What is playing now, refreshed from the player every three seconds.
pub struct PlayingState {
    title: String,
    album: String,
    artist: String,
    update_state: UpdateTicks,
}

/// How often the player's state is refreshed, in milliseconds.
pub const REFRESH_INTERVAL_MS: i64 = 3000;

impl PlayingState {
    #[verifier::type_invariant]
    spec fn refreshes_every_three_seconds(self) -> bool {
        self.update_state.interval_ms == REFRESH_INTERVAL_MS
    }

    /// Title of the track.
    pub closed spec fn title(&self) -> Seq<char> {
        self.title@
    }

    /// Album of the track.
    pub closed spec fn album(&self) -> Seq<char> {
        self.album@
    }

    /// Artists of the track.
    pub closed spec fn artist(&self) -> Seq<char> {
        self.artist@
    }

    /// The ticker that paces refreshes from the player.
    pub closed spec fn ticks(&self) -> UpdateTicks {
        self.update_state
    }

    /// Nothing playing yet, with a three-second ticker that is due at once.
    pub fn new() -> (state: Self)
        ensures
            state.title() == Seq::<char>::empty(),
            state.album() == Seq::<char>::empty(),
            state.artist() == Seq::<char>::empty(),
            state.ticks().interval_ms == REFRESH_INTERVAL_MS,
            state.ticks().ms_since_update == 0,
            state.ticks().should_hydrate,
    {
        let update_state = UpdateTicks::new(Some(REFRESH_INTERVAL_MS));
        Self { title: String::new(), album: String::new(), artist: String::new(), update_state }
    }

    /// Records the track now playing and restarts the ticker.
    pub fn set_now_playing(&mut self, title: String, album: String, artist: String)
        ensures
            final(self).title() == title@,
            final(self).album() == album@,
            final(self).artist() == artist@,
            track_recorded(*old(self), *final(self)),
    {
        proof {
            use_type_invariant(&*self);
        }
        let mut update_state = self.update_state;
        update_state.reset();
        self.title = title;
        self.album = album;
        self.artist = artist;
        self.update_state = update_state;
    }

    /// Whether a refresh from the player is due: no track has been recorded since the state
    /// was made, or three seconds have passed since the last one was.
    pub fn can_update(&mut self) -> (due: bool)
        ensures
            playing_checked(*old(self), *final(self), due),
    {
        proof {
            use_type_invariant(&*self);
        }
        let mut update_state = self.update_state;
        let due = update_state.can_update();
        self.update_state = update_state;
        due
    }

    /// `title - album (artist)`.
    pub fn to_player_string(&self) -> (line: String)
        ensures
            line@ == player_line(self.title(), self.album(), self.artist()),
    {
        let mut line = self.title.clone();
        line.append(" - ");
        line.append(self.album.as_str());
        line.append(" (");
        line.append(self.artist.as_str());
        line.append(")");
        line
    }
}

} // verus!
