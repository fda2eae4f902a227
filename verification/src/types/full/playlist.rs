use vstd::prelude::*;

verus! {

/// A track as a playlist lists it.
pub struct Track {
    pub id: String,
    pub name: String,
}

/// An entry of a playlist.
pub struct Item {
    pub track: Track,
}

} // verus!
