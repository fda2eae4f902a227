use vstd::prelude::*;

verus! {

/// An artist of an album.
pub struct Artist {
    pub name: String,
}

/// A cover image of an album.
pub struct Image {
    pub url: String,
}

/// The album a track belongs to.
pub struct Album {
    pub name: String,
    pub artists: Vec<Artist>,
    pub images: Vec<Image>,
}

/// The track the player is on.
pub struct PlaybackItem {
    pub name: String,
    pub duration_ms: i64,
    pub album: Album,
}

/// What the player reports: its track, how far into it, and whether it plays.
pub struct PlaybackState {
    pub is_playing: bool,
    pub progress_ms: i64,
    pub item: PlaybackItem,
}

} // verus!
