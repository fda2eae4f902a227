use vstd::prelude::*;

verus! {

/// A track to start, within the playlist it was picked from.
pub struct NewSong {
    pub track_id: String,
    pub playlist_id: String,
}

} // verus!
