use vstd::prelude::*;

use crate::ui::album_art::{copy_rows, rows_view, Rgb};

verus! {

/// A request to draw the cover at `remote` anew, `width` cells wide.
pub struct ArtRequest {
    pub remote: String,
    pub width: u32,
}

/// What `try_update_by_src` does: the cover becomes `new_src`; a redraw at the current
/// width is asked for exactly when it differs from the cover before.
pub open spec fn src_taken(
    before: AlbumArtState,
    new_src: Seq<char>,
    after: AlbumArtState,
    request: Option<ArtRequest>,
) -> bool {
    &&& after.width() == before.width()
    &&& after.art() == before.art()
    &&& after.remote() == Some(new_src)
    &&& before.remote() == Some(new_src) ==> request is None
    &&& before.remote() != Some(new_src) ==> (request matches Some(r) && r.remote@ == new_src
        && r.width == before.width())
}

/// What `try_update_by_width` does: the width becomes `new_width`; a redraw of the known
/// cover at that width is asked for exactly when the width changes and a cover is known.
pub open spec fn width_taken(
    before: AlbumArtState,
    new_width: u32,
    after: AlbumArtState,
    request: Option<ArtRequest>,
) -> bool {
    &&& after.width() == new_width
    &&& after.remote() == before.remote()
    &&& after.art() == before.art()
    &&& before.width() == new_width ==> request is None
    &&& before.width() != new_width ==> match before.remote() {
        Some(remote) => (request matches Some(r) && r.remote@ == remote && r.width == new_width),
        None => request is None,
    }
}

/// Law: taking the same cover twice asks for one redraw at most: the second time asks for
/// nothing and changes nothing.
pub proof fn law_same_cover_asks_once(
    a: AlbumArtState,
    src: Seq<char>,
    b: AlbumArtState,
    c: AlbumArtState,
    first: Option<ArtRequest>,
    second: Option<ArtRequest>,
)
    requires
        src_taken(a, src, b, first),
        src_taken(b, src, c, second),
    ensures
        second is None,
        c.remote() == b.remote(),
        c.width() == b.width(),
        c.art() == b.art(),
{
}

/// Law: taking the same width twice asks for one redraw at most: the second time asks for
/// nothing and changes nothing.
pub proof fn law_same_width_asks_once(
    a: AlbumArtState,
    width: u32,
    b: AlbumArtState,
    c: AlbumArtState,
    first: Option<ArtRequest>,
    second: Option<ArtRequest>,
)
    requires
        width_taken(a, width, b, first),
        width_taken(b, width, c, second),
    ensures
        second is None,
        c.remote() == b.remote(),
        c.width() == b.width(),
        c.art() == b.art(),
{
}

/// The cover of the track playing, drawn as ascii art of a given width.
pub struct AlbumArtState {
    width: u32,
    remote_src: Option<String>,
    art: Option<Vec<Vec<Rgb>>>,
}

/// The address of a cover, as text.
pub open spec fn remote_view(remote: Option<String>) -> Option<Seq<char>> {
    match remote {
        Some(s) => Some(s@),
        None => None,
    }
}

/// Ascii art, row by row.
pub open spec fn art_view(art: Option<Vec<Vec<Rgb>>>) -> Option<Seq<Seq<Rgb>>> {
    match art {
        Some(rows) => Some(rows_view(rows@)),
        None => None,
    }
}

impl AlbumArtState {
    /// The width the art is drawn at.
    pub closed spec fn width(&self) -> u32 {
        self.width
    }

    /// The address of the cover drawn, if any.
    pub closed spec fn remote(&self) -> Option<Seq<char>> {
        remote_view(self.remote_src)
    }

    /// The art drawn, if any.
    pub closed spec fn art(&self) -> Option<Seq<Seq<Rgb>>> {
        art_view(self.art)
    }

    /// No cover yet, 50 cells wide.
    pub fn new() -> (state: Self)
        ensures
            state.width() == 50,
            state.remote() is None,
            state.art() is None,
    {
        Self { width: 50, remote_src: None, art: None }
    }

    /// Takes the cover at `new_src`; where it differs from the cover drawn (or none is drawn)
    /// it asks for the art to be drawn anew at the current width.
    pub fn try_update_by_src(&mut self, new_src: String) -> (request: Option<ArtRequest>)
        ensures
            src_taken(*old(self), new_src@, *final(self), request),
    {
        let changed = match &self.remote_src {
            Some(remote) => !(*remote == new_src),
            None => true,
        };
        if changed {
            self.remote_src = Some(new_src.clone());
            Some(ArtRequest { remote: new_src, width: self.width })
        } else {
            None
        }
    }

    /// Takes a new width; where it differs from the current one, and a cover is known, it asks
    /// for the art to be drawn anew at that width.
    pub fn try_update_by_width(&mut self, new_width: u32) -> (request: Option<ArtRequest>)
        ensures
            width_taken(*old(self), new_width, *final(self), request),
    {
        if self.width != new_width {
            self.width = new_width;
            match &self.remote_src {
                Some(remote) => Some(ArtRequest { remote: remote.clone(), width: new_width }),
                None => None,
            }
        } else {
            None
        }
    }

    /// Keeps the art drawn for the last request (`None` where it could not be drawn).
    pub fn set_art(&mut self, art: Option<Vec<Vec<Rgb>>>)
        ensures
            final(self).art() == art_view(art),
            final(self).width() == old(self).width(),
            final(self).remote() == old(self).remote(),
    {
        self.art = art;
    }

    /// A copy of the art drawn.
    pub fn get_album_art(&self) -> (art: Option<Vec<Vec<Rgb>>>)
        ensures
            art_view(art) == self.art(),
    {
        match &self.art {
            Some(rows) => Some(copy_rows(rows)),
            None => None,
        }
    }
}

} // verus!
