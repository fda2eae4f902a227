use vstd::prelude::*;

use crate::ui::builder::{
    inner_area, player_extents, split_outcome, split_vertically, Area, Extent,
    PLAYER_DEFAULT_MARGIN,
};

verus! {

/// Where each part of the two-pane player is drawn.
#[derive(Clone, Copy, PartialEq, Eq, Structural)]
pub struct TwoPaneAreas {
    pub playlists: Area,
    pub tracks: Area,
    pub title: Area,
    pub progress: Area,
}

/// Whether the two panes' columns stay within the terminal's coordinates.
pub open spec fn two_panes_fit(media: Area) -> bool {
    media.x + media.width / 3 + PLAYER_DEFAULT_MARGIN <= u16::MAX
}

/// The two-pane player's areas from its three bands: the playlists take a third of the media
/// band, the tracks half of it, one margin to the right of the playlists' third.
pub open spec fn two_pane_areas(bands: Seq<Area>) -> TwoPaneAreas {
    let media = bands[0];
    TwoPaneAreas {
        playlists: Area { x: media.x, y: media.y, height: media.height, width: media.width / 3 },
        tracks: Area {
            x: (media.x + media.width / 3 + PLAYER_DEFAULT_MARGIN) as u16,
            y: media.y,
            height: media.height,
            width: media.width / 2,
        },
        title: bands[1],
        progress: bands[2],
    }
}

/// The two-pane player's areas from three bands: those of `two_pane_areas`, or none where
/// the tracks pane would start past the terminal's last column.
pub open spec fn two_panes_laid_out(bands: Seq<Area>, areas: Option<TwoPaneAreas>) -> bool {
    &&& bands.len() == 3
    &&& two_panes_fit(bands[0]) ==> areas == Some(two_pane_areas(bands))
    &&& !two_panes_fit(bands[0]) ==> areas is None
}

/// Lays the two-pane player out on a screen of the given size: the screen, less a margin,
/// is cut by tui into the media band (at least one row), the title (four rows) and the
/// progress bar (one row), as `split_outcome` says, and the media band into the two panes.
/// `None` exactly where the tracks pane would start past the terminal's last column.
pub fn two_pane_layout(size: Area) -> (areas: Option<TwoPaneAreas>)
    requires
        size.x + size.width <= u16::MAX,
        size.y + size.height <= u16::MAX,
        size.x + PLAYER_DEFAULT_MARGIN <= u16::MAX,
        size.y + PLAYER_DEFAULT_MARGIN <= u16::MAX,
    ensures
        areas is Some <==> two_panes_fit(inner_area(size, PLAYER_DEFAULT_MARGIN)),
        exists|bands: Seq<Area>|
            {
                &&& #[trigger] two_panes_laid_out(bands, areas)
                &&& split_outcome(size, PLAYER_DEFAULT_MARGIN, player_extents(), bands)
            },
{
    let mut extents: Vec<Extent> = Vec::new();
    extents.push(Extent::Min(1));
    extents.push(Extent::Length(4));
    extents.push(Extent::Length(1));
    proof {
        assert(extents@ =~= player_extents());
    }
    let bands = split_vertically(size, PLAYER_DEFAULT_MARGIN, &extents);
    let media = bands[0];
    assert(bands@[0].x == inner_area(size, PLAYER_DEFAULT_MARGIN).x);
    if (media.x as u32) + ((media.width / 3) as u32) + 1 <= 0xffff {
        let playlists = Area { x: media.x, y: media.y, height: media.height, width: media.width / 3 };
        let tracks = Area {
            x: media.x + (media.width / 3) + PLAYER_DEFAULT_MARGIN,
            y: media.y,
            height: media.height,
            width: media.width / 2,
        };
        let areas = Some(TwoPaneAreas { playlists, tracks, title: bands[1], progress: bands[2] });
        assert(two_panes_laid_out(bands@, areas));
        areas
    } else {
        assert(two_panes_laid_out(bands@, None));
        None
    }
}

} // verus!
