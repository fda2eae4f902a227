use vstd::prelude::*;

use crate::types::app::event_types::NewSong;

verus! {

/// What the keyboard and the interface ask of the player.
pub enum SpotifyEvents {
    NavigateUp,
    NavigateDown,
    NavigateLeft,
    NavigateRight,
    PlayTrack,
    StartTrack(NewSong),
    Quit,
    NewArt,
    SetArtWidth(u32),
}

} // verus!
