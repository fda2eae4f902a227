use spotui::state::progress_state::RawProgress;
use spotui::state::state_adaptor::PlayerState;
use spotui::ui::builder::{Area, Builder, PaneColor};

fn area(x: u16, y: u16, width: u16, height: u16) -> Area {
    Area { x, y, width, height }
}

#[test]
fn selected_panes_are_green() {
    assert!(Builder::title_color(true) == PaneColor::Green);
    assert!(Builder::title_color(false) == PaneColor::Magenta);
    assert!(Builder::list_color(true) == PaneColor::LightGreen);
    assert!(Builder::list_color(false) == PaneColor::LightMagenta);
}

#[test]
fn now_playing_has_two_lines() {
    let state = PlayerState {
        now_playing: "Song - Record (Band)".to_string(),
        time: "01:00/02:00".to_string(),
        raw_time: RawProgress { track_time_seconds: 120, seconds_elapsed: 60 },
        album_art: None,
    };
    assert_eq!(Builder::now_playing_content(&state), "Song - Record (Band)\n01:00/02:00");
}

#[test]
fn media_band_is_cut_in_three_panes() {
    let bands = vec![area(1, 1, 90, 20), area(1, 21, 90, 4), area(1, 25, 90, 1)];
    let areas = Builder::areas_from_bands(&bands);
    assert!(areas.playlists == area(1, 1, 30, 20));
    assert!(areas.tracks == area(32, 1, 28, 20));
    assert!(areas.art == area(61, 1, 29, 20));
    assert!(areas.title == bands[1]);
    assert!(areas.progress == bands[2]);
}

#[test]
fn screen_layout_stacks_media_title_and_progress() {
    let areas = Builder::create_container(area(0, 0, 92, 30)).unwrap();
    assert!(areas.progress == area(1, 28, 90, 1));
    assert!(areas.title == area(1, 24, 90, 4));
    assert!(areas.playlists == area(1, 1, 30, 23));
    assert!(areas.tracks == area(32, 1, 28, 23));
    assert!(areas.art == area(61, 1, 29, 23));
}

#[test]
fn narrow_screen_has_no_layout() {
    assert!(Builder::create_container(area(0, 0, 7, 30)).is_none());
    assert!(Builder::create_container(area(0, 0, 8, 30)).is_some());
}

#[test]
fn two_pane_layout_gives_a_third_and_a_half() {
    let areas = spotui::services::player_ui::two_pane_layout(area(0, 0, 92, 30)).unwrap();
    assert!(areas.playlists == area(1, 1, 30, 23));
    assert!(areas.tracks == area(32, 1, 45, 23));
    assert!(areas.title == area(1, 24, 90, 4));
    assert!(areas.progress == area(1, 28, 90, 1));
}

#[test]
fn short_screens_still_lay_out() {
    for height in 0..8 {
        let areas = Builder::create_container(area(0, 0, 92, height));
        let two = spotui::services::player_ui::two_pane_layout(area(0, 0, 92, height));
        if height < 2 {
            assert!(areas.is_none());
            // an empty inner area still leaves room for the two panes' columns
            let t = two.unwrap();
            assert_eq!((t.playlists.x, t.playlists.width, t.tracks.x, t.tracks.width), (0, 0, 1, 0));
        } else {
            let a = areas.unwrap();
            assert_eq!((a.playlists.x, a.playlists.y, a.playlists.width), (1, 1, 30));
            assert_eq!((a.tracks.x, a.tracks.width), (32, 28));
            assert_eq!((a.art.x, a.art.width), (61, 29));
            assert_eq!((a.title.x, a.title.width), (1, 90));
            assert_eq!(a.progress.y + a.progress.height, height - 1);
            let t = two.unwrap();
            assert_eq!((t.tracks.x, t.tracks.width), (32, 45));
        }
    }
}

#[test]
fn screen_at_the_edge_of_the_coordinates_lays_out() {
    let areas = Builder::create_container(area(65000, 0, 535, 30)).unwrap();
    assert_eq!(areas.playlists.x, 65001);
}
