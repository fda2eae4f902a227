use vstd::prelude::*;

use crate::state::state_adaptor::PlayerState;

verus! {

/// The gap between panes, and around the whole player.
pub const PLAYER_DEFAULT_MARGIN: u16 = 1;

/// A rectangle of terminal cells.
#[derive(Clone, Copy, PartialEq, Eq, Structural)]
pub struct Area {
    pub x: u16,
    pub y: u16,
    pub width: u16,
    pub height: u16,
}

/// How tall a band of a vertical layout wants to be.
#[derive(Clone, Copy, PartialEq, Eq, Structural)]
pub enum Extent {
    Min(u16),
    Length(u16),
}

/// Where each part of the player is drawn.
#[derive(Clone, Copy, PartialEq, Eq, Structural)]
pub struct PlayerAreas {
    pub progress: Area,
    pub title: Area,
    pub playlists: Area,
    pub tracks: Area,
    pub art: Area,
}

/// The colours of a pane's title and list.
#[derive(Clone, Copy, PartialEq, Eq, Structural)]
pub enum PaneColor {
    Green,
    Magenta,
    LightGreen,
    LightMagenta,
}

/// The rows an extent asks for.
pub open spec fn extent_rows(extent: Extent) -> int {
    match extent {
        Extent::Min(v) => v as int,
        Extent::Length(v) => v as int,
    }
}

/// The rows all the extents ask for together.
pub open spec fn extents_rows(extents: Seq<Extent>) -> int
    decreases extents.len(),
{
    if extents.len() == 0 {
        0
    } else {
        extents_rows(extents.drop_last()) + extent_rows(extents.last())
    }
}

/// How many of the extents are minimums (bands that stretch).
pub open spec fn stretching_bands(extents: Seq<Extent>) -> int
    decreases extents.len(),
{
    if extents.len() == 0 {
        0
    } else {
        stretching_bands(extents.drop_last()) + (if extents.last() is Min {
            1int
        } else {
            0int
        })
    }
}

/// The area inside a margin on every side; tui takes an empty area at the origin where the
/// area is narrower or lower than two margins.
pub open spec fn inner_area(area: Area, margin: u16) -> Area {
    if area.width < 2 * margin || area.height < 2 * margin {
        Area { x: 0, y: 0, width: 0, height: 0 }
    } else {
        Area {
            x: (area.x + margin) as u16,
            y: (area.y + margin) as u16,
            width: (area.width - 2 * margin) as u16,
            height: (area.height - 2 * margin) as u16,
        }
    }
}

/// The rows inside the margin.
pub open spec fn inner_rows(area: Area, margin: u16) -> int {
    inner_area(area, margin).height as int
}

/// Whether the bands are settled by the extents alone: exactly one band stretches, and the
/// rows inside the margin are enough for every extent, so every length is met exactly and the
/// stretching band takes the rest.
pub open spec fn split_is_settled(area: Area, margin: u16, extents: Seq<Extent>) -> bool {
    &&& stretching_bands(extents) == 1
    &&& inner_rows(area, margin) >= extents_rows(extents)
}

/// The rows of a band: a length exactly, a minimum with `extra` rows more.
pub open spec fn band_rows(extent: Extent, extra: int) -> int {
    match extent {
        Extent::Min(v) => v + extra,
        Extent::Length(v) => v as int,
    }
}

/// Bands for the extents stacked from the top of `inner` without gaps, across its columns,
/// each as many rows as `band_rows` gives.
pub open spec fn stacked_bands(inner: Area, extents: Seq<Extent>, extra: int) -> Seq<Area>
    decreases extents.len(),
{
    if extents.len() == 0 {
        Seq::empty()
    } else {
        let before = extents.drop_last();
        let stretched = if stretching_bands(before) > 0 {
            extra
        } else {
            0
        };
        let top = inner.y + extents_rows(before) + stretched;
        stacked_bands(inner, before, extra).push(
            Area {
                x: inner.x,
                y: top as u16,
                width: inner.width,
                height: band_rows(extents.last(), extra) as u16,
            },
        )
    }
}

/// What tui's split gives on every screen: one band per extent, each across the columns of
/// the inner area and starting within its rows, the first on its top row and the last ending
/// on its bottom row. Where the split is settled, the bands are exactly the stacked ones,
/// the stretching band taking the rows that the extents leave.
pub open spec fn split_outcome(area: Area, margin: u16, extents: Seq<Extent>, bands: Seq<Area>) -> bool {
    let inner = inner_area(area, margin);
    &&& bands.len() == extents.len()
    &&& forall|i: int|
        0 <= i < bands.len() ==> (#[trigger] bands[i]).x == inner.x && bands[i].width
            == inner.width && inner.y <= bands[i].y <= inner.y + inner.height
    &&& bands.len() > 0 ==> {
        &&& bands[0].y == inner.y
        &&& bands.last().y + bands.last().height == inner.y + inner.height
    }
    &&& split_is_settled(area, margin, extents) ==> bands == stacked_bands(
        inner,
        extents,
        inner.height - extents_rows(extents),
    )
}

/// Cuts `area` into bands stacked from top to bottom with `tui::layout::Layout` (vertical
/// direction, the given margin on every side, one constraint per extent) and its `split`.
/// tui's source builds one rectangle per constraint and solves required constraints: each
/// band has the inner area's left column and width, starts at or below its top and ends at
/// or above its bottom, the first starts at its top, each ends where the next starts, and the
/// last is stretched to its bottom. The extents are weak constraints. Where the split is
/// settled they can all be met and the answer is the one `stacked_bands` gives; elsewhere
/// they conflict, the solver's choice among equally good answers depends on the order in
/// which it walks its hash maps, and only what holds of every answer is stated (the rows of
/// the inner bands are not, since a tie may give a band a negative height, which tui reads
/// as zero). The margin and the area are bounded so that tui's sums of them do not overflow
/// and its required constraints can be met.
#[verifier::external_body]
pub(crate) fn split_vertically(area: Area, margin: u16, extents: &Vec<Extent>) -> (bands: Vec<Area>)
    requires
        margin <= 0x7fff,
        area.x + area.width <= u16::MAX,
        area.y + area.height <= u16::MAX,
        area.x + margin <= u16::MAX,
        area.y + margin <= u16::MAX,
    ensures
        split_outcome(area, margin, extents@, bands@),
{
    let constraints: Vec<tui::layout::Constraint> = extents.iter().map(
        |e| match e {
            Extent::Min(v) => tui::layout::Constraint::Min(*v),
            Extent::Length(v) => tui::layout::Constraint::Length(*v),
        },
    ).collect();
    let rect = tui::layout::Rect { x: area.x, y: area.y, width: area.width, height: area.height };
    tui::layout::Layout::default().direction(tui::layout::Direction::Vertical).margin(
        margin,
    ).constraints(constraints).split(rect).iter().map(
        |r| Area { x: r.x, y: r.y, width: r.width, height: r.height },
    ).collect()
}

/// The bands of the player, top to bottom: the media panes (at least one row), the title
/// (four rows) and the progress bar (one row).
pub open spec fn player_extents() -> Seq<Extent> {
    seq![Extent::Min(1), Extent::Length(4), Extent::Length(1)]
}

/// Whether the media band is wide enough for three panes (a third of it is at least two
/// cells) and the panes' columns stay within the terminal's coordinates.
pub open spec fn panes_fit(media: Area) -> bool {
    let third = media.width / 3;
    &&& third >= 2
    &&& media.x + third + PLAYER_DEFAULT_MARGIN + (third - 2) + PLAYER_DEFAULT_MARGIN <= u16::MAX
}

/// The player's areas from its three bands: the media band is split into the playlists
/// (a third of its width), the tracks (a third less two cells) and the cover (a third less
/// one cell), one margin apart.
pub open spec fn player_areas(bands: Seq<Area>) -> PlayerAreas {
    let media = bands[0];
    let third = (media.width / 3) as int;
    let playlists = Area { x: media.x, y: media.y, height: media.height, width: third as u16 };
    let tracks = Area {
        x: (media.x + third + PLAYER_DEFAULT_MARGIN) as u16,
        y: media.y,
        height: media.height,
        width: (third - 2) as u16,
    };
    let art = Area {
        x: (tracks.x + tracks.width + PLAYER_DEFAULT_MARGIN) as u16,
        y: media.y,
        height: media.height,
        width: (third - 1) as u16,
    };
    PlayerAreas { playlists, tracks, title: bands[1], progress: bands[2], art }
}

/// The player's areas from three bands: those of `player_areas`, or none where the media
/// band is too narrow for the panes.
pub open spec fn laid_out(bands: Seq<Area>, areas: Option<PlayerAreas>) -> bool {
    &&& bands.len() == 3
    &&& panes_fit(bands[0]) ==> areas == Some(player_areas(bands))
    &&& !panes_fit(bands[0]) ==> areas is None
}

/// Builds the pieces of the player's screen.
pub struct Builder {}

impl Builder {
    /// The colour of a pane's title: green when the pane is selected, magenta otherwise.
    pub fn title_color(selected: bool) -> (color: PaneColor)
        ensures
            color == (if selected { PaneColor::Green } else { PaneColor::Magenta }),
    {
        if selected {
            PaneColor::Green
        } else {
            PaneColor::Magenta
        }
    }

    /// The colour of a pane's list: light green when the pane is selected, light magenta
    /// otherwise.
    pub fn list_color(selected: bool) -> (color: PaneColor)
        ensures
            color == (if selected { PaneColor::LightGreen } else { PaneColor::LightMagenta }),
    {
        if selected {
            PaneColor::LightGreen
        } else {
            PaneColor::LightMagenta
        }
    }

    /// The text of the now-playing pane: the player line, then the progress on a second line.
    pub fn now_playing_content(state: &PlayerState) -> (content: String)
        ensures
            content@ == state.now_playing@ + "\n"@ + state.time@,
    {
        let mut content = state.now_playing.clone();
        content.append("\n");
        content.append(state.time.as_str());
        content
    }

    /// The player's areas from its three bands, as `player_areas` says.
    pub fn areas_from_bands(bands: &Vec<Area>) -> (areas: PlayerAreas)
        requires
            bands.len() == 3,
            panes_fit(bands@[0]),
        ensures
            areas == player_areas(bands@),
    {
        let media = bands[0];
        let playlists = Area { x: media.x, y: media.y, height: media.height, width: media.width / 3 };
        let tracks = Area {
            x: playlists.x + playlists.width + PLAYER_DEFAULT_MARGIN,
            y: media.y,
            height: media.height,
            width: (media.width / 3) - 2,
        };
        let art = Area {
            x: tracks.x + tracks.width + PLAYER_DEFAULT_MARGIN,
            y: media.y,
            height: media.height,
            width: (media.width / 3) - 1,
        };
        PlayerAreas { playlists, tracks, title: bands[1], progress: bands[2], art }
    }

    /// Lays the player out on a screen of the given size: the screen, less a margin, is cut
    /// into three bands by tui, as `split_outcome` says, and the media band into three panes.
    /// `None` exactly where the area inside the margin is too narrow for the panes.
    pub fn create_container(size: Area) -> (areas: Option<PlayerAreas>)
        requires
            size.x + size.width <= u16::MAX,
            size.y + size.height <= u16::MAX,
            size.x + PLAYER_DEFAULT_MARGIN <= u16::MAX,
            size.y + PLAYER_DEFAULT_MARGIN <= u16::MAX,
        ensures
            areas is Some <==> panes_fit(inner_area(size, PLAYER_DEFAULT_MARGIN)),
            exists|bands: Seq<Area>|
                {
                    &&& #[trigger] laid_out(bands, areas)
                    &&& split_outcome(size, PLAYER_DEFAULT_MARGIN, player_extents(), bands)
                },
    {
        let mut extents: Vec<Extent> = Vec::new();
        extents.push(Extent::Min(1));
        extents.push(Extent::Length(4));
        extents.push(Extent::Length(1));
        proof {
            assert(extents@ =~= player_extents());
        }
        let bands = split_vertically(size, PLAYER_DEFAULT_MARGIN, &extents);
        let media = bands[0];
        let third = media.width / 3;
        let areas = if third >= 2 && (media.x as u32) + (third as u32) + 1 + ((third - 2) as u32) + 1
            <= 0xffff {
            Some(Self::areas_from_bands(&bands))
        } else {
            None
        };
        assert(bands@[0].x == inner_area(size, PLAYER_DEFAULT_MARGIN).x);
        assert(laid_out(bands@, areas));
        areas
    }
}

/// Law: the player's bands are settled exactly on screens of at least two columns and
/// eight rows (six rows inside the margin: four for the title, one for the progress bar, at
/// least one for the media panes).
pub proof fn law_player_split_settled(size: Area)
    ensures
        split_is_settled(size, PLAYER_DEFAULT_MARGIN, player_extents()) <==> (size.width >= 2
            && size.height >= 8),
{
    let e = player_extents();
    assert(e.drop_last() =~= seq![Extent::Min(1), Extent::Length(4)]);
    assert(e.drop_last().drop_last() =~= seq![Extent::Min(1)]);
    assert(e.drop_last().drop_last().drop_last() =~= Seq::<Extent>::empty());
    reveal_with_fuel(extents_rows, 4);
    reveal_with_fuel(stretching_bands, 4);
}

/// Law: on a settled screen the player's bands are exact: the media band takes every row
/// inside the margin but the five of the title (four) and the progress bar (one), which
/// follow it.
pub proof fn law_player_bands(size: Area, bands: Seq<Area>)
    requires
        size.width >= 2,
        size.height >= 8,
        split_outcome(size, PLAYER_DEFAULT_MARGIN, player_extents(), bands),
    ensures
        ({
            let inner = inner_area(size, PLAYER_DEFAULT_MARGIN);
            bands == seq![
                Area { x: inner.x, y: inner.y, width: inner.width, height: (inner.height - 5) as u16 },
                Area {
                    x: inner.x,
                    y: (inner.y + inner.height - 5) as u16,
                    width: inner.width,
                    height: 4,
                },
                Area {
                    x: inner.x,
                    y: (inner.y + inner.height - 1) as u16,
                    width: inner.width,
                    height: 1,
                },
            ]
        }),
{
    law_player_split_settled(size);
    let e = player_extents();
    assert(e.drop_last() =~= seq![Extent::Min(1), Extent::Length(4)]);
    assert(e.drop_last().drop_last() =~= seq![Extent::Min(1)]);
    assert(e.drop_last().drop_last().drop_last() =~= Seq::<Extent>::empty());
    reveal_with_fuel(extents_rows, 4);
    reveal_with_fuel(stretching_bands, 4);
    reveal_with_fuel(stacked_bands, 4);
    let inner = inner_area(size, PLAYER_DEFAULT_MARGIN);
    let extra = inner.height - 6;
    let e0 = e.drop_last().drop_last().drop_last();
    let e1 = e.drop_last().drop_last();
    let e2 = e.drop_last();
    assert(extents_rows(e0) == 0 && stretching_bands(e0) == 0);
    assert(extents_rows(e1) == 1 && stretching_bands(e1) == 1);
    assert(extents_rows(e2) == 5 && stretching_bands(e2) == 1);
    assert(extents_rows(e) == 6 && stretching_bands(e) == 1);
    assert(stacked_bands(inner, e0, extra) =~= Seq::<Area>::empty());
    assert(stacked_bands(inner, e1, extra) =~= seq![
        Area { x: inner.x, y: inner.y, width: inner.width, height: (inner.height - 5) as u16 },
    ]);
    assert(stacked_bands(inner, e2, extra) =~= seq![
        Area { x: inner.x, y: inner.y, width: inner.width, height: (inner.height - 5) as u16 },
        Area { x: inner.x, y: (inner.y + inner.height - 5) as u16, width: inner.width, height: 4 },
    ]);
    assert(bands =~= seq![
        Area { x: inner.x, y: inner.y, width: inner.width, height: (inner.height - 5) as u16 },
        Area { x: inner.x, y: (inner.y + inner.height - 5) as u16, width: inner.width, height: 4 },
        Area { x: inner.x, y: (inner.y + inner.height - 1) as u16, width: inner.width, height: 1 },
    ]);
}

/// Law: the three panes of the media band sit side by side, one margin apart, on the band's
/// rows: the tracks start a margin after the playlists end and the cover a margin after the
/// tracks end.
pub proof fn law_panes_side_by_side(bands: Seq<Area>)
    requires
        bands.len() == 3,
        panes_fit(bands[0]),
    ensures
        ({
            let areas = player_areas(bands);
            let media = bands[0];
            &&& areas.playlists.x == media.x
            &&& areas.tracks.x == areas.playlists.x + areas.playlists.width + PLAYER_DEFAULT_MARGIN
            &&& areas.art.x == areas.tracks.x + areas.tracks.width + PLAYER_DEFAULT_MARGIN
            &&& areas.playlists.y == media.y && areas.tracks.y == media.y && areas.art.y == media.y
            &&& areas.playlists.height == media.height && areas.tracks.height == media.height
                && areas.art.height == media.height
            &&& areas.title == bands[1]
            &&& areas.progress == bands[2]
        }),
{
}

} // verus!
