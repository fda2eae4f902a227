use vstd::prelude::*;

use crate::events::types::SpotifyEvents;
use crate::types::app::event_types::NewSong;
use crate::types::app::playlists::AppPlaylist;

verus! {

/// The pane that keyboard navigation moves in.
#[derive(Clone, Copy, PartialEq, Eq, Structural)]
pub enum SelectedPane {
    Playlist,
    Tracks,
}

/// What the interface has to do after a key event besides moving its cursors.
pub enum UiAction {
    Nothing,
    Play(NewSong),
    Quit,
}

/// The playlist cursor one step down: it stops at the last playlist.
pub open spec fn playlist_below(cur: int, count: int) -> int {
    if cur + 1 >= count {
        cur
    } else {
        cur + 1
    }
}

/// The playlist cursor one step up: it stops at the first playlist.
pub open spec fn playlist_above(cur: int) -> int {
    if cur == 0 {
        cur
    } else {
        cur - 1
    }
}

/// The track cursor one step down: past the last track it wraps to the first.
pub open spec fn track_below(cur: int, count: int) -> int {
    if cur + 1 >= count {
        0
    } else {
        cur + 1
    }
}

/// The track cursor one step up: above the first track it wraps to the last.
pub open spec fn track_above(cur: int, count: int) -> int {
    if cur == 0 {
        count - 1
    } else {
        cur - 1
    }
}

/// A copy of `v` with the entry at `index` replaced by `value`.
fn replaced_at(v: &Vec<usize>, index: usize, value: usize) -> (r: Vec<usize>)
    requires
        index < v.len(),
    ensures
        r@ == v@.update(index as int, value),
{
    let mut r: Vec<usize> = Vec::new();
    let len = v.len();
    for i in 0..len
        invariant
            len == v.len(),
            index < len,
            r@ == v@.update(index as int, value).take(i as int),
    {
        if i == index {
            r.push(value);
        } else {
            r.push(v[i]);
        }
        proof {
            assert(v@.update(index as int, value).take(i + 1) =~= r@);
        }
    }
    proof {
        assert(v@.update(index as int, value).take(len as int) =~= v@.update(index as int, value));
    }
    r
}

/// The cursors of the player's two lists: a playlist cursor, and for each playlist its own
/// track cursor, kept when another playlist is chosen.
pub struct PlayerNavigation {
    playlist_cursor: usize,
    track_cursors: Vec<usize>,
    playlists: Vec<AppPlaylist>,
    selected_pane: SelectedPane,
}

impl PlayerNavigation {
    #[verifier::type_invariant]
    spec fn cursors_in_lists(self) -> bool {
        &&& self.track_cursors.len() == self.playlists.len()
        &&& (self.playlist_cursor == 0 || self.playlist_cursor < self.playlists.len())
        &&& forall|i: int|
            0 <= i < self.playlists.len() ==> (#[trigger] self.track_cursors@[i] == 0
                || self.track_cursors@[i] < self.playlists@[i].items.len())
    }

    /// The pane navigation moves in.
    pub closed spec fn pane(&self) -> SelectedPane {
        self.selected_pane
    }

    /// The chosen playlist.
    pub closed spec fn playlist_index(&self) -> nat {
        self.playlist_cursor as nat
    }

    /// The track cursor of each playlist.
    pub closed spec fn track_indices(&self) -> Seq<usize> {
        self.track_cursors@
    }

    /// The playlists navigated.
    pub closed spec fn playlist_seq(&self) -> Seq<AppPlaylist> {
        self.playlists@
    }

    /// The number of tracks of playlist `i`.
    pub open spec fn track_count(&self, i: int) -> int {
        self.playlist_seq()[i].items.len() as int
    }

    /// Whether the event can be handled: in the track pane, moving and playing need a chosen
    /// playlist that exists, and moving up or playing need that playlist to have a track.
    pub open spec fn accepts(&self, event: SpotifyEvents) -> bool {
        self.pane() == SelectedPane::Tracks ==> match event {
            SpotifyEvents::NavigateDown => self.playlist_index() < self.playlist_seq().len(),
            SpotifyEvents::NavigateUp | SpotifyEvents::PlayTrack => {
                &&& self.playlist_index() < self.playlist_seq().len()
                &&& self.track_count(self.playlist_index() as int) > 0
            },
            _ => true,
        }
    }

    /// The first playlist and the first track of each playlist chosen, in the track pane.
    pub fn new(playlists: Vec<AppPlaylist>) -> (nav: Self)
        ensures
            nav.pane() == SelectedPane::Tracks,
            nav.playlist_index() == 0,
            nav.playlist_seq() == playlists@,
            nav.track_indices() == Seq::new(playlists@.len(), |i: int| 0usize),
            nav.cursors_within(),
    {
        let mut track_cursors: Vec<usize> = Vec::new();
        let count = playlists.len();
        for _i in 0..count
            invariant
                track_cursors@ == Seq::new(_i as nat, |i: int| 0usize),
        {
            track_cursors.push(0);
        }
        proof {
            assert(track_cursors@ =~= Seq::new(playlists@.len(), |i: int| 0usize));
        }
        Self { playlist_cursor: 0, track_cursors, playlists, selected_pane: SelectedPane::Tracks }
    }

    /// The pane navigation moves in.
    pub fn selected_pane(&self) -> (pane: SelectedPane)
        ensures
            pane == self.pane(),
    {
        self.selected_pane
    }

    /// The chosen playlist.
    pub fn selected_playlist(&self) -> (index: usize)
        ensures
            index == self.playlist_index(),
            self.cursors_within(),
    {
        proof {
            use_type_invariant(self);
        }
        self.playlist_cursor
    }

    /// The track cursor of playlist `i`.
    pub fn selected_track(&self, i: usize) -> (index: usize)
        requires
            i < self.playlist_seq().len(),
        ensures
            index == self.track_indices()[i as int],
    {
        proof { use_type_invariant(self); }
        self.track_cursors[i]
    }

    /// The playlists navigated.
    pub fn playlists(&self) -> (playlists: &Vec<AppPlaylist>)
        ensures
            playlists@ == self.playlist_seq(),
    {
        &self.playlists
    }

    /// Tells whether `handle_keyboard_events` accepts the event.
    pub fn can_handle(&self, event: &SpotifyEvents) -> (ok: bool)
        ensures
            ok == self.accepts(*event),
            self.cursors_within(),
    {
        proof { use_type_invariant(self); }
        match self.selected_pane {
            SelectedPane::Playlist => true,
            SelectedPane::Tracks => match event {
                SpotifyEvents::NavigateDown => self.playlist_cursor < self.playlists.len(),
                SpotifyEvents::NavigateUp | SpotifyEvents::PlayTrack => {
                    self.playlist_cursor < self.playlists.len()
                        && self.playlists[self.playlist_cursor].items.len() > 0
                },
                _ => true,
            },
        }
    }

    /// What a key event does: `after` is the navigation and `action` the request that
    /// `handle_keyboard_events` gives for `event` from `before`.
    pub open spec fn event_outcome(
        before: &Self,
        after: &Self,
        event: SpotifyEvents,
        action: UiAction,
    ) -> bool {
        &&& after.playlist_seq() == before.playlist_seq()
        &&& {
            let pane = before.pane();
            let p = before.playlist_index() as int;
            let tracks = before.track_indices();
            match event {
                SpotifyEvents::NavigateDown => {
                    &&& action is Nothing
                    &&& after.pane() == pane
                    &&& pane == SelectedPane::Playlist ==> {
                        &&& after.playlist_index() == playlist_below(
                            p,
                            before.playlist_seq().len() as int,
                        )
                        &&& after.track_indices() == tracks
                    }
                    &&& pane == SelectedPane::Tracks ==> {
                        &&& after.playlist_index() == p
                        &&& after.track_indices() == tracks.update(
                            p,
                            track_below(tracks[p] as int, before.track_count(p)) as usize,
                        )
                    }
                },
                SpotifyEvents::NavigateUp => {
                    &&& action is Nothing
                    &&& after.pane() == pane
                    &&& pane == SelectedPane::Playlist ==> {
                        &&& after.playlist_index() == playlist_above(p)
                        &&& after.track_indices() == tracks
                    }
                    &&& pane == SelectedPane::Tracks ==> {
                        &&& after.playlist_index() == p
                        &&& after.track_indices() == tracks.update(
                            p,
                            track_above(tracks[p] as int, before.track_count(p)) as usize,
                        )
                    }
                },
                SpotifyEvents::PlayTrack => {
                    &&& after.pane() == pane
                    &&& after.playlist_index() == p
                    &&& after.track_indices() == tracks
                    &&& pane == SelectedPane::Playlist ==> action is Nothing
                    &&& pane == SelectedPane::Tracks ==> action == UiAction::Play(
                        NewSong {
                            track_id: before.playlist_seq()[p].items@[tracks[p] as int].track.id,
                            playlist_id: before.playlist_seq()[p].id,
                        },
                    )
                },
                SpotifyEvents::NavigateLeft => {
                    &&& action is Nothing
                    &&& after.pane() == SelectedPane::Playlist
                    &&& after.playlist_index() == p
                    &&& after.track_indices() == tracks
                },
                SpotifyEvents::NavigateRight => {
                    &&& action is Nothing
                    &&& after.pane() == SelectedPane::Tracks
                    &&& after.playlist_index() == p
                    &&& after.track_indices() == tracks
                },
                SpotifyEvents::Quit => {
                    &&& action is Quit
                    &&& after.pane() == pane
                    &&& after.playlist_index() == p
                    &&& after.track_indices() == tracks
                },
                _ => {
                    &&& action is Nothing
                    &&& after.pane() == pane
                    &&& after.playlist_index() == p
                    &&& after.track_indices() == tracks
                },
            }
        }
    }

    /// Every cursor is in its list: one track cursor per playlist, the playlist cursor on a
    /// playlist (or 0 when there is none), each track cursor on a track of its playlist (or 0
    /// when it has none).
    pub open spec fn cursors_within(&self) -> bool {
        &&& self.track_indices().len() == self.playlist_seq().len()
        &&& (self.playlist_index() == 0 || self.playlist_index() < self.playlist_seq().len())
        &&& forall|i: int|
            0 <= i < self.playlist_seq().len() ==> (#[trigger] self.track_indices()[i] == 0
                || self.track_indices()[i] < self.track_count(i))
    }

    /// Moves the cursors for a key event and tells what else the interface has to do.
    /// In the playlist pane, up and down move the playlist cursor and stop at the ends; in the
    /// track pane they move the chosen playlist's track cursor and wrap around, and play asks
    /// for the track under it. Left and right switch panes in either pane, quit asks to quit.
    pub fn handle_keyboard_events(&mut self, event: &SpotifyEvents) -> (action: UiAction)
        requires
            old(self).accepts(*event),
        ensures
            old(self).cursors_within(),
            Self::event_outcome(old(self), final(self), *event, action),
            final(self).cursors_within(),
    {
        proof {
            use_type_invariant(&*self);
        }
        let action = self.apply_event(event);
        proof {
            use_type_invariant(&*self);
        }
        action
    }

    fn apply_event(&mut self, event: &SpotifyEvents) -> (action: UiAction)
        requires
            old(self).accepts(*event),
        ensures
            Self::event_outcome(old(self), final(self), *event, action),
    {
        proof { use_type_invariant(&*self); }
        match self.selected_pane {
            SelectedPane::Playlist => match event {
                SpotifyEvents::NavigateDown => {
                    let cur = self.playlist_cursor;
                    let next = if cur + 1 >= self.playlists.len() {
                        cur
                    } else {
                        cur + 1
                    };
                    self.playlist_cursor = next;
                    return UiAction::Nothing;
                },
                SpotifyEvents::NavigateUp => {
                    let cur = self.playlist_cursor;
                    let next = if cur == 0 {
                        cur
                    } else {
                        cur - 1
                    };
                    self.playlist_cursor = next;
                },
                _ => {},
            },
            SelectedPane::Tracks => match event {
                SpotifyEvents::NavigateDown => {
                    let p = self.playlist_cursor;
                    let count = self.playlists[p].items.len();
                    let cur = self.track_cursors[p];
                    let next = if cur + 1 >= count {
                        0
                    } else {
                        cur + 1
                    };
                    self.track_cursors = replaced_at(&self.track_cursors, p, next);
                    return UiAction::Nothing;
                },
                SpotifyEvents::NavigateUp => {
                    let p = self.playlist_cursor;
                    let count = self.playlists[p].items.len();
                    let cur = self.track_cursors[p];
                    let next = if cur == 0 {
                        count - 1
                    } else {
                        cur - 1
                    };
                    self.track_cursors = replaced_at(&self.track_cursors, p, next);
                },
                SpotifyEvents::PlayTrack => {
                    let p = self.playlist_cursor;
                    let t = self.track_cursors[p];
                    let playlist = &self.playlists[p];
                    let track_id = playlist.items[t].track.id.clone();
                    let playlist_id = playlist.id.clone();
                    return UiAction::Play(NewSong { track_id, playlist_id });
                },
                _ => {},
            },
        }
        match event {
            SpotifyEvents::Quit => UiAction::Quit,
            SpotifyEvents::NavigateLeft => {
                self.selected_pane = SelectedPane::Playlist;
                UiAction::Nothing
            },
            SpotifyEvents::NavigateRight => {
                self.selected_pane = SelectedPane::Tracks;
                UiAction::Nothing
            },
            _ => UiAction::Nothing,
        }
    }
}

/// Law: in the track pane, moving down and then up puts the track cursor back where it was
/// (past the last track, down wraps to the first and up wraps back to the last).
pub proof fn law_tracks_down_then_up(
    a: PlayerNavigation,
    b: PlayerNavigation,
    c: PlayerNavigation,
    first: UiAction,
    second: UiAction,
)
    requires
        a.cursors_within(),
        a.pane() == SelectedPane::Tracks,
        a.playlist_index() < a.playlist_seq().len(),
        a.track_count(a.playlist_index() as int) > 0,
        PlayerNavigation::event_outcome(&a, &b, SpotifyEvents::NavigateDown, first),
        PlayerNavigation::event_outcome(&b, &c, SpotifyEvents::NavigateUp, second),
    ensures
        c.pane() == a.pane(),
        c.playlist_index() == a.playlist_index(),
        c.track_indices() == a.track_indices(),
{
    let p = a.playlist_index() as int;
    assert(a.track_indices()[p] == 0 || a.track_indices()[p] < a.track_count(p));
    assert(c.track_indices() =~= a.track_indices());
}

/// Law: in the track pane, moving up and then down puts the track cursor back where it was.
pub proof fn law_tracks_up_then_down(
    a: PlayerNavigation,
    b: PlayerNavigation,
    c: PlayerNavigation,
    first: UiAction,
    second: UiAction,
)
    requires
        a.cursors_within(),
        a.pane() == SelectedPane::Tracks,
        a.playlist_index() < a.playlist_seq().len(),
        a.track_count(a.playlist_index() as int) > 0,
        PlayerNavigation::event_outcome(&a, &b, SpotifyEvents::NavigateUp, first),
        PlayerNavigation::event_outcome(&b, &c, SpotifyEvents::NavigateDown, second),
    ensures
        c.pane() == a.pane(),
        c.playlist_index() == a.playlist_index(),
        c.track_indices() == a.track_indices(),
{
    let p = a.playlist_index() as int;
    assert(a.track_indices()[p] == 0 || a.track_indices()[p] < a.track_count(p));
    assert(c.track_indices() =~= a.track_indices());
}

/// Law: in the playlist pane, moving down and then up puts the playlist cursor back where it
/// was, unless it was on the last playlist (down stops there); the track cursors stay.
pub proof fn law_playlists_down_then_up(
    a: PlayerNavigation,
    b: PlayerNavigation,
    c: PlayerNavigation,
    first: UiAction,
    second: UiAction,
)
    requires
        a.pane() == SelectedPane::Playlist,
        PlayerNavigation::event_outcome(&a, &b, SpotifyEvents::NavigateDown, first),
        PlayerNavigation::event_outcome(&b, &c, SpotifyEvents::NavigateUp, second),
    ensures
        c.pane() == a.pane(),
        c.track_indices() == a.track_indices(),
        a.playlist_index() + 1 < a.playlist_seq().len() ==> c.playlist_index() == a.playlist_index(),
        a.playlist_index() + 1 >= a.playlist_seq().len() && a.playlist_index() > 0
            ==> c.playlist_index() == a.playlist_index() - 1,
{
}

/// Law: the playlist cursor never leaves the list: moving down stops on the last playlist and
/// moving up stops on the first.
pub proof fn law_playlist_moves_stay_in_list(cur: int, count: int)
    requires
        0 <= cur < count,
    ensures
        0 <= playlist_below(cur, count) < count,
        0 <= playlist_above(cur) < count,
        playlist_below(count - 1, count) == count - 1,
        playlist_above(0) == 0,
{
}

/// Law: the track cursor never leaves a non-empty list: it wraps around at both ends.
pub proof fn law_track_moves_stay_in_list(cur: int, count: int)
    requires
        0 <= cur < count,
    ensures
        0 <= track_below(cur, count) < count,
        0 <= track_above(cur, count) < count,
        track_below(count - 1, count) == 0,
        track_above(0, count) == count - 1,
{
}

/// Law: playing in the track pane asks for the track under the chosen playlist's cursor,
/// within the chosen playlist: the request names that track's id and that playlist's id,
/// whichever playlist is chosen; no cursor moves.
pub proof fn law_play_asks_for_track_under_cursor(
    before: PlayerNavigation,
    after: PlayerNavigation,
    action: UiAction,
)
    requires
        before.cursors_within(),
        before.pane() == SelectedPane::Tracks,
        before.playlist_index() < before.playlist_seq().len(),
        before.track_count(before.playlist_index() as int) > 0,
        PlayerNavigation::event_outcome(&before, &after, SpotifyEvents::PlayTrack, action),
    ensures
        ({
            let chosen = before.playlist_seq()[before.playlist_index() as int];
            let cursor = before.track_indices()[before.playlist_index() as int] as int;
            &&& action matches UiAction::Play(song)
            &&& song.playlist_id == chosen.id
            &&& song.track_id == chosen.items@[cursor].track.id
        }),
        after.pane() == before.pane(),
        after.playlist_index() == before.playlist_index(),
        after.track_indices() == before.track_indices(),
{
}

/// Law: in the track pane, down and up move only the chosen playlist's track cursor, one
/// step forward or back around its tracks (modulo their number); every other playlist keeps
/// its cursor, and the chosen playlist stays chosen.
pub proof fn law_track_moves_are_cyclic(
    before: PlayerNavigation,
    after: PlayerNavigation,
    action: UiAction,
    down: bool,
)
    requires
        before.cursors_within(),
        before.pane() == SelectedPane::Tracks,
        before.playlist_index() < before.playlist_seq().len(),
        before.track_count(before.playlist_index() as int) > 0,
        PlayerNavigation::event_outcome(
            &before,
            &after,
            if down {
                SpotifyEvents::NavigateDown
            } else {
                SpotifyEvents::NavigateUp
            },
            action,
        ),
    ensures
        ({
            let p = before.playlist_index() as int;
            let n = before.track_count(p);
            let cur = before.track_indices()[p] as int;
            &&& after.playlist_index() == before.playlist_index()
            &&& after.track_indices().len() == before.track_indices().len()
            &&& forall|i: int|
                0 <= i < before.track_indices().len() && i != p ==> after.track_indices()[i]
                    == before.track_indices()[i]
            &&& down ==> after.track_indices()[p] == (cur + 1) % n
            &&& !down ==> after.track_indices()[p] == (cur + n - 1) % n
        }),
{
    let p = before.playlist_index() as int;
    let n = before.track_count(p);
    let cur = before.track_indices()[p] as int;
    assert(cur == 0 || cur < n);
    assert(0 <= cur < n);
    if cur + 1 < n {
        assert((cur + 1) % n == cur + 1) by (nonlinear_arith)
            requires
                0 <= cur + 1 < n,
        ;
    } else {
        assert((cur + 1) % n == 0) by (nonlinear_arith)
            requires
                cur + 1 == n,
                n > 0,
        ;
    }
    if cur == 0 {
        assert((cur + n - 1) % n == n - 1) by (nonlinear_arith)
            requires
                cur == 0,
                n > 0,
        ;
    } else {
        assert((cur + n - 1) % n == cur - 1) by (nonlinear_arith)
            requires
                0 < cur < n,
        ;
    }
}

/// Law: in the playlist pane, down moves the playlist cursor one playlist on unless it is
/// on the last one, and up one back unless it is on the first; track cursors stay.
pub proof fn law_playlist_moves_step_by_one(
    before: PlayerNavigation,
    after: PlayerNavigation,
    action: UiAction,
    down: bool,
)
    requires
        before.pane() == SelectedPane::Playlist,
        PlayerNavigation::event_outcome(
            &before,
            &after,
            if down {
                SpotifyEvents::NavigateDown
            } else {
                SpotifyEvents::NavigateUp
            },
            action,
        ),
    ensures
        after.track_indices() == before.track_indices(),
        down && before.playlist_index() + 1 < before.playlist_seq().len() ==> after.playlist_index()
            == before.playlist_index() + 1,
        down && before.playlist_index() + 1 >= before.playlist_seq().len() ==> after.playlist_index()
            == before.playlist_index(),
        !down && before.playlist_index() > 0 ==> after.playlist_index() == before.playlist_index() - 1,
        !down && before.playlist_index() == 0 ==> after.playlist_index() == 0,
{
}

} // verus!
