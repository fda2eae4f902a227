use spotui::events::types::SpotifyEvents;
use spotui::types::app::playlists::AppPlaylist;
use spotui::types::full::playlist::{Item, Track};
use spotui::ui::player_ui::{PlayerNavigation, SelectedPane, UiAction};

fn playlist(id: &str, tracks: usize) -> AppPlaylist {
    let mut items = Vec::new();
    for i in 0..tracks {
        items.push(Item { track: Track { id: format!("{}-t{}", id, i), name: format!("track {}", i) } });
    }
    AppPlaylist { id: id.to_string(), name: format!("list {}", id), items }
}

fn library() -> PlayerNavigation {
    PlayerNavigation::new(vec![playlist("a", 3), playlist("b", 0), playlist("c", 2)])
}

fn is_nothing(a: &UiAction) -> bool {
    matches!(a, UiAction::Nothing)
}

#[test]
fn starts_in_the_track_pane_at_the_top() {
    let nav = library();
    assert!(nav.selected_pane() == SelectedPane::Tracks);
    assert_eq!(nav.selected_playlist(), 0);
    assert_eq!(nav.selected_track(0), 0);
    assert_eq!(nav.selected_track(2), 0);
    assert_eq!(nav.playlists().len(), 3);
}

#[test]
fn track_cursor_wraps_both_ways() {
    let mut nav = library();
    assert!(is_nothing(&nav.handle_keyboard_events(&SpotifyEvents::NavigateUp)));
    assert_eq!(nav.selected_track(0), 2);
    nav.handle_keyboard_events(&SpotifyEvents::NavigateDown);
    assert_eq!(nav.selected_track(0), 0);
    nav.handle_keyboard_events(&SpotifyEvents::NavigateDown);
    nav.handle_keyboard_events(&SpotifyEvents::NavigateDown);
    assert_eq!(nav.selected_track(0), 2);
    nav.handle_keyboard_events(&SpotifyEvents::NavigateDown);
    assert_eq!(nav.selected_track(0), 0);
}

#[test]
fn down_then_up_comes_back() {
    let mut nav = library();
    for start in 0..3 {
        while nav.selected_track(0) != start {
            nav.handle_keyboard_events(&SpotifyEvents::NavigateDown);
        }
        nav.handle_keyboard_events(&SpotifyEvents::NavigateDown);
        nav.handle_keyboard_events(&SpotifyEvents::NavigateUp);
        assert_eq!(nav.selected_track(0), start);
        nav.handle_keyboard_events(&SpotifyEvents::NavigateUp);
        nav.handle_keyboard_events(&SpotifyEvents::NavigateDown);
        assert_eq!(nav.selected_track(0), start);
    }
}

#[test]
fn playlist_cursor_stops_at_the_ends() {
    let mut nav = library();
    nav.handle_keyboard_events(&SpotifyEvents::NavigateLeft);
    assert!(nav.selected_pane() == SelectedPane::Playlist);
    nav.handle_keyboard_events(&SpotifyEvents::NavigateUp);
    assert_eq!(nav.selected_playlist(), 0);
    nav.handle_keyboard_events(&SpotifyEvents::NavigateDown);
    nav.handle_keyboard_events(&SpotifyEvents::NavigateDown);
    assert_eq!(nav.selected_playlist(), 2);
    nav.handle_keyboard_events(&SpotifyEvents::NavigateDown);
    assert_eq!(nav.selected_playlist(), 2);
    nav.handle_keyboard_events(&SpotifyEvents::NavigateUp);
    assert_eq!(nav.selected_playlist(), 1);
}

#[test]
fn each_playlist_keeps_its_track_cursor() {
    let mut nav = library();
    nav.handle_keyboard_events(&SpotifyEvents::NavigateDown);
    assert_eq!(nav.selected_track(0), 1);
    nav.handle_keyboard_events(&SpotifyEvents::NavigateLeft);
    nav.handle_keyboard_events(&SpotifyEvents::NavigateDown);
    nav.handle_keyboard_events(&SpotifyEvents::NavigateDown);
    nav.handle_keyboard_events(&SpotifyEvents::NavigateRight);
    assert!(nav.selected_pane() == SelectedPane::Tracks);
    assert_eq!(nav.selected_playlist(), 2);
    nav.handle_keyboard_events(&SpotifyEvents::NavigateUp);
    assert_eq!(nav.selected_track(2), 1);
    assert_eq!(nav.selected_track(0), 1);
}

#[test]
fn play_asks_for_the_track_under_the_cursor() {
    let mut nav = library();
    nav.handle_keyboard_events(&SpotifyEvents::NavigateDown);
    match nav.handle_keyboard_events(&SpotifyEvents::PlayTrack) {
        UiAction::Play(song) => {
            assert_eq!(song.track_id, "a-t1");
            assert_eq!(song.playlist_id, "a");
        },
        _ => panic!("expected a track to play"),
    }
}

#[test]
fn play_in_the_playlist_pane_does_nothing() {
    let mut nav = library();
    nav.handle_keyboard_events(&SpotifyEvents::NavigateLeft);
    assert!(is_nothing(&nav.handle_keyboard_events(&SpotifyEvents::PlayTrack)));
}

#[test]
fn quit_asks_to_quit_from_either_pane() {
    let mut nav = library();
    assert!(matches!(nav.handle_keyboard_events(&SpotifyEvents::Quit), UiAction::Quit));
    nav.handle_keyboard_events(&SpotifyEvents::NavigateLeft);
    assert!(matches!(nav.handle_keyboard_events(&SpotifyEvents::Quit), UiAction::Quit));
}

#[test]
fn other_events_change_nothing() {
    let mut nav = library();
    assert!(is_nothing(&nav.handle_keyboard_events(&SpotifyEvents::NewArt)));
    assert!(is_nothing(&nav.handle_keyboard_events(&SpotifyEvents::SetArtWidth(10))));
    assert_eq!(nav.selected_track(0), 0);
    assert!(nav.selected_pane() == SelectedPane::Tracks);
}

#[test]
fn empty_playlist_refuses_up_and_play_but_not_down() {
    let mut nav = library();
    nav.handle_keyboard_events(&SpotifyEvents::NavigateLeft);
    nav.handle_keyboard_events(&SpotifyEvents::NavigateDown);
    nav.handle_keyboard_events(&SpotifyEvents::NavigateRight);
    assert_eq!(nav.selected_playlist(), 1);
    assert!(!nav.can_handle(&SpotifyEvents::NavigateUp));
    assert!(!nav.can_handle(&SpotifyEvents::PlayTrack));
    assert!(nav.can_handle(&SpotifyEvents::NavigateDown));
    nav.handle_keyboard_events(&SpotifyEvents::NavigateDown);
    assert_eq!(nav.selected_track(1), 0);
}

#[test]
fn no_playlists_refuses_track_moves() {
    let nav = PlayerNavigation::new(Vec::new());
    assert!(!nav.can_handle(&SpotifyEvents::NavigateDown));
    assert!(nav.can_handle(&SpotifyEvents::NavigateLeft));
    assert!(nav.can_handle(&SpotifyEvents::Quit));
}
