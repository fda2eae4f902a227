use vstd::prelude::*;

verus! {

/// Which playlist is chosen and where the cursor stands in it.
pub struct PlaylistState {
    selected_playlist: i64,
    cursor_position: i64,
}

impl PlaylistState {
    /// The chosen playlist.
    pub closed spec fn selected(&self) -> i64 {
        self.selected_playlist
    }

    /// The cursor in the chosen playlist.
    pub closed spec fn cursor(&self) -> i64 {
        self.cursor_position
    }

    /// The first playlist, cursor at its top.
    pub fn new() -> (state: Self)
        ensures
            state.selected() == 0,
            state.cursor() == 0,
    {
        Self { selected_playlist: 0, cursor_position: 0 }
    }
}

} // verus!
