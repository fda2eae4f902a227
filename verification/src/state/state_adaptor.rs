use vstd::prelude::*;

use crate::events::types::SpotifyEvents;
use crate::state::album_art_state::{art_view, src_taken, width_taken, AlbumArtState, ArtRequest};
use crate::state::playing_state::{player_line, PlayingState, REFRESH_INTERVAL_MS};
use crate::state::progress_state::{
    printable_seconds, progress_bumped, progress_checked, progress_text, ProgressBarState,
    RawProgress,
};
use crate::state::update_ticks::update_due;
use crate::types::app::event_types::NewSong;
use crate::types::full::playback_state::{Artist, PlaybackState};
use crate::ui::album_art::Rgb;
use crate::util::time::trunc_div;

verus! {

/// What the interface shows of the player.
pub struct PlayerState {
    pub now_playing: String,
    pub time: String,
    pub raw_time: RawProgress,
    pub album_art: Option<Vec<Vec<Rgb>>>,
}

/// What has to be done outside after an event: nothing, start a track, or draw a cover.
pub enum AdaptorAction {
    Nothing,
    PlayTrack(NewSong),
    DrawArt(ArtRequest),
}

/// `parts` written one after another with `sep` between each two.
pub open spec fn joined(parts: Seq<Seq<char>>, sep: Seq<char>) -> Seq<char>
    decreases parts.len(),
{
    if parts.len() == 0 {
        Seq::empty()
    } else if parts.len() == 1 {
        parts[0]
    } else {
        joined(parts.drop_last(), sep) + sep + parts.last()
    }
}

/// The names of some artists.
pub open spec fn artist_names(artists: Seq<Artist>) -> Seq<Seq<char>> {
    artists.map_values(|a: Artist| a.name@)
}

/// The names of the artists, separated by single spaces.
pub fn join_artist_names(artists: &Vec<Artist>) -> (names: String)
    ensures
        names@ == joined(artist_names(artists@), " "@),
{
    let mut names = String::new();
    let n = artists.len();
    for i in 0..n
        invariant
            n == artists.len(),
            names@ == joined(artist_names(artists@).take(i as int), " "@),
    {
        proof {
            let parts = artist_names(artists@).take(i + 1);
            assert(parts.drop_last() =~= artist_names(artists@).take(i as int));
            assert(parts.last() == artists@[i as int].name@);
        }
        if i != 0 {
            names.append(" ");
        }
        names.append(artists[i].name.as_str());
        proof {
            if i == 0 {
                assert(names@ =~= artist_names(artists@).take(1)[0]);
            }
        }
    }
    proof {
        assert(artist_names(artists@).take(n as int) =~= artist_names(artists@));
    }
    names
}

/// Joins the states of the player, the progress bar and the cover, and turns what the
/// player reports into them.
pub struct StateAdaptor {
    player_state: PlayingState,
    progress_state: ProgressBarState,
    art_state: AlbumArtState,
}

impl StateAdaptor {
    /// The state of what is playing.
    pub closed spec fn playing(&self) -> PlayingState {
        self.player_state
    }

    /// The state of the progress bar.
    pub closed spec fn progress(&self) -> ProgressBarState {
        self.progress_state
    }

    /// The state of the cover.
    pub closed spec fn cover(&self) -> AlbumArtState {
        self.art_state
    }

    pub fn new(
        player_state: PlayingState,
        progress_state: ProgressBarState,
        art_state: AlbumArtState,
    ) -> (adaptor: Self)
        ensures
            adaptor.playing() == player_state,
            adaptor.progress() == progress_state,
            adaptor.cover() == art_state,
    {
        Self { player_state, progress_state, art_state }
    }

    /// Takes the track the player reports: its length and the time listened in whole seconds
    /// (milliseconds divided by 1000, rounded toward zero), whether it plays, its title,
    /// album and artists, and its first cover. Asks for the cover to be drawn when it is new.
    pub fn update_live_player(&mut self, playing: PlaybackState) -> (request: Option<ArtRequest>)
        requires
            playing.item.album.images.len() > 0,
        ensures
            final(self).progress().elapsed_seconds() == trunc_div(playing.progress_ms as int, 1000),
            final(self).progress().track_seconds() == trunc_div(playing.item.duration_ms as int, 1000),
            final(self).progress().playing() == playing.is_playing,
            final(self).progress().ticks() == old(self).progress().ticks(),
            final(self).playing().title() == playing.item.name@,
            final(self).playing().album() == playing.item.album.name@,
            final(self).playing().artist() == joined(artist_names(playing.item.album.artists@), " "@),
            final(self).playing().ticks().interval_ms == REFRESH_INTERVAL_MS,
            final(self).playing().ticks().ms_since_update == 0,
            !final(self).playing().ticks().should_hydrate,
            src_taken(
                old(self).cover(),
                playing.item.album.images@[0].url@,
                final(self).cover(),
                request,
            ),
    {
        let track_seconds = playing.item.duration_ms / 1000;
        let listened_seconds = playing.progress_ms / 1000;
        self.progress_state.set_new_track(Some(listened_seconds), track_seconds);
        self.progress_state.set_is_playing(playing.is_playing);
        let artist = join_artist_names(&playing.item.album.artists);
        let new_art_src = playing.item.album.images[0].url.clone();
        self.player_state.set_now_playing(playing.item.name, playing.item.album.name, artist);
        self.art_state.try_update_by_src(new_art_src)
    }

    /// Reacts to an event: a track to start is passed on, a new cover width may ask for the
    /// cover to be drawn anew; other events change nothing.
    pub fn handle_event(&mut self, event: SpotifyEvents) -> (action: AdaptorAction)
        ensures
            final(self).playing() == old(self).playing(),
            final(self).progress() == old(self).progress(),
            match event {
                SpotifyEvents::StartTrack(track) => {
                    &&& action == AdaptorAction::PlayTrack(track)
                    &&& final(self).cover() == old(self).cover()
                },
                SpotifyEvents::SetArtWidth(new_width) => exists|request: Option<ArtRequest>|
                    {
                        &&& #[trigger] width_taken(old(self).cover(), new_width, final(self).cover(), request)
                        &&& match request {
                            Some(r) => action == AdaptorAction::DrawArt(r),
                            None => action is Nothing,
                        }
                    },
                _ => {
                    &&& action is Nothing
                    &&& final(self).cover() == old(self).cover()
                },
            },
    {
        match event {
            SpotifyEvents::StartTrack(track) => AdaptorAction::PlayTrack(track),
            SpotifyEvents::SetArtWidth(new_width) => {
                let request = self.art_state.try_update_by_width(new_width);
                let ghost taken = request;
                let action = match request {
                    Some(r) => AdaptorAction::DrawArt(r),
                    None => AdaptorAction::Nothing,
                };
                assert(width_taken(old(self).cover(), new_width, self.cover(), taken));
                action
            },
            _ => AdaptorAction::Nothing,
        }
    }

    /// First half of a poll: whether the player's state is due to be fetched.
    pub fn poll_playback_due(&mut self) -> (due: bool)
        ensures
            final(self).progress() == old(self).progress(),
            final(self).cover() == old(self).cover(),
            final(self).playing().title() == old(self).playing().title(),
            final(self).playing().album() == old(self).playing().album(),
            final(self).playing().artist() == old(self).playing().artist(),
            final(self).playing().ticks().interval_ms == REFRESH_INTERVAL_MS,
            final(self).playing().ticks().should_hydrate == old(self).playing().ticks().should_hydrate,
            final(self).playing().ticks().last_updated_at == old(self).playing().ticks().last_updated_at,
            final(self).playing().ticks().ms_since_update >= 0,
            due == update_due(
                old(self).playing().ticks().should_hydrate,
                final(self).playing().ticks().ms_since_update as int,
                REFRESH_INTERVAL_MS as int,
            ),
    {
        self.player_state.can_update()
    }

    /// Second half of a poll: checks whether a second of progress is due, advances the
    /// progress by it when so (up to the track's end), and tells whether it was due.
    pub fn poll_progress(&mut self) -> (due: bool)
        ensures
            final(self).playing() == old(self).playing(),
            final(self).cover() == old(self).cover(),
            exists|checked: ProgressBarState|
                {
                    &&& #[trigger] progress_checked(old(self).progress(), checked, due)
                    &&& due ==> progress_bumped(checked, final(self).progress())
                    &&& !due ==> final(self).progress() == checked
                },
    {
        let due = self.progress_state.can_update();
        let ghost checked = self.progress_state;
        if due {
            self.progress_state.bump_player_progress();
        }
        assert(progress_checked(old(self).progress(), checked, due));
        due
    }

    /// Keeps the cover drawn for the last request.
    pub fn set_album_art(&mut self, art: Option<Vec<Vec<Rgb>>>)
        ensures
            final(self).playing() == old(self).playing(),
            final(self).progress() == old(self).progress(),
            final(self).cover().art() == art_view(art),
            final(self).cover().width() == old(self).cover().width(),
            final(self).cover().remote() == old(self).cover().remote(),
    {
        self.art_state.set_art(art);
    }

    /// The numbers behind the progress bar.
    pub fn raw_progress(&self) -> (raw: RawProgress)
        ensures
            raw.track_time_seconds == self.progress().track_seconds(),
            raw.seconds_elapsed == self.progress().elapsed_seconds(),
    {
        self.progress_state.get_player_progress_seconds_raw()
    }

    /// What the interface shows: the player line, the progress text and numbers, the cover.
    pub fn get_state(&self) -> (state: PlayerState)
        requires
            printable_seconds(self.progress().track_seconds() as int),
            printable_seconds(self.progress().elapsed_seconds() as int),
        ensures
            state.now_playing@ == player_line(
                self.playing().title(),
                self.playing().album(),
                self.playing().artist(),
            ),
            state.time@ == progress_text(
                self.progress().elapsed_seconds() as int,
                self.progress().track_seconds() as int,
            ),
            state.raw_time.track_time_seconds == self.progress().track_seconds(),
            state.raw_time.seconds_elapsed == self.progress().elapsed_seconds(),
            art_view(state.album_art) == self.cover().art(),
    {
        PlayerState {
            now_playing: self.player_state.to_player_string(),
            time: self.progress_state.get_player_progress_seconds_str(),
            raw_time: self.progress_state.get_player_progress_seconds_raw(),
            album_art: self.art_state.get_album_art(),
        }
    }
}

} // verus!
