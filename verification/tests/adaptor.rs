use spotui::events::types::SpotifyEvents;
use spotui::state::album_art_state::AlbumArtState;
use spotui::state::playing_state::PlayingState;
use spotui::state::progress_state::ProgressBarState;
use spotui::state::state_adaptor::{join_artist_names, AdaptorAction, StateAdaptor};
use spotui::types::app::event_types::NewSong;
use spotui::types::full::playback_state::{Album, Artist, Image, PlaybackItem, PlaybackState};
use spotui::ui::album_art::Rgb;

fn adaptor() -> StateAdaptor {
    StateAdaptor::new(PlayingState::new(), ProgressBarState::new(), AlbumArtState::new())
}

fn playback(cover: &str, progress_ms: i64, duration_ms: i64, playing: bool) -> PlaybackState {
    PlaybackState {
        is_playing: playing,
        progress_ms,
        item: PlaybackItem {
            name: "Song".to_string(),
            duration_ms,
            album: Album {
                name: "Record".to_string(),
                artists: vec![Artist { name: "Ann".to_string() }, Artist { name: "Bo".to_string() }],
                images: vec![Image { url: cover.to_string() }, Image { url: "small".to_string() }],
            },
        },
    }
}

#[test]
fn artists_are_joined_by_spaces() {
    assert_eq!(join_artist_names(&vec![]), "");
    assert_eq!(join_artist_names(&vec![Artist { name: "Solo".to_string() }]), "Solo");
    let three = vec![
        Artist { name: "A".to_string() },
        Artist { name: "B".to_string() },
        Artist { name: "C".to_string() },
    ];
    assert_eq!(join_artist_names(&three), "A B C");
}

#[test]
fn playback_fills_the_player_state() {
    let mut a = adaptor();
    let request = a.update_live_player(playback("http://big", 61_999, 185_500, true)).unwrap();
    assert_eq!(request.remote, "http://big");
    assert_eq!(request.width, 50);
    let state = a.get_state();
    assert_eq!(state.now_playing, "Song - Record (Ann Bo)");
    assert_eq!(state.time, "01:01/03:05");
    assert_eq!(state.raw_time.seconds_elapsed, 61);
    assert_eq!(state.raw_time.track_time_seconds, 185);
    assert!(state.album_art.is_none());
}

#[test]
fn same_cover_is_not_drawn_twice() {
    let mut a = adaptor();
    assert!(a.update_live_player(playback("http://big", 0, 1000, true)).is_some());
    assert!(a.update_live_player(playback("http://big", 500, 1000, true)).is_none());
    assert!(a.update_live_player(playback("http://other", 500, 1000, true)).is_some());
}

#[test]
fn drawn_art_shows_in_the_state() {
    let mut a = adaptor();
    a.set_album_art(Some(vec![vec![Rgb { r: 1, g: 2, b: 3 }]]));
    assert!(a.get_state().album_art == Some(vec![vec![Rgb { r: 1, g: 2, b: 3 }]]));
}

#[test]
fn start_track_is_passed_on() {
    let mut a = adaptor();
    let song = NewSong { track_id: "t1".to_string(), playlist_id: "p1".to_string() };
    match a.handle_event(SpotifyEvents::StartTrack(song)) {
        AdaptorAction::PlayTrack(s) => {
            assert_eq!(s.track_id, "t1");
            assert_eq!(s.playlist_id, "p1");
        },
        _ => panic!("expected the track to be passed on"),
    }
}

#[test]
fn art_width_redraws_known_cover() {
    let mut a = adaptor();
    assert!(matches!(a.handle_event(SpotifyEvents::SetArtWidth(30)), AdaptorAction::Nothing));
    a.update_live_player(playback("http://big", 0, 1000, true));
    match a.handle_event(SpotifyEvents::SetArtWidth(40)) {
        AdaptorAction::DrawArt(r) => {
            assert_eq!(r.remote, "http://big");
            assert_eq!(r.width, 40);
        },
        _ => panic!("expected a redraw"),
    }
    assert!(matches!(a.handle_event(SpotifyEvents::SetArtWidth(40)), AdaptorAction::Nothing));
    assert!(matches!(a.handle_event(SpotifyEvents::NavigateUp), AdaptorAction::Nothing));
}

#[test]
fn first_poll_fetches_then_waits() {
    let mut a = adaptor();
    assert!(a.poll_playback_due());
    a.update_live_player(playback("http://big", 10_000, 20_000, true));
    assert!(!a.poll_playback_due());
}

#[test]
fn first_progress_poll_bumps_a_second() {
    let mut a = adaptor();
    a.update_live_player(playback("http://big", 10_000, 20_000, true));
    assert!(a.poll_progress());
    assert_eq!(a.get_state().raw_time.seconds_elapsed, 11);
    assert!(!a.poll_progress());
    assert_eq!(a.get_state().raw_time.seconds_elapsed, 11);
}

#[test]
fn paused_progress_does_not_move() {
    let mut a = adaptor();
    a.update_live_player(playback("http://big", 10_000, 20_000, false));
    assert!(!a.poll_progress());
    assert_eq!(a.get_state().raw_time.seconds_elapsed, 10);
}

#[test]
fn due_progress_at_the_end_of_the_track_stays() {
    let mut a = adaptor();
    a.update_live_player(playback("http://big", 20_000, 20_000, true));
    assert!(a.poll_progress());
    assert_eq!(a.get_state().raw_time.seconds_elapsed, 20);
}
