use spotui::services::app_state::ProgressBarState as PlainProgress;
use spotui::services::app_state::UpdateTicks as PlainTicks;
use spotui::state::playing_state::PlayingState;
use spotui::state::playlist_state::PlaylistState;
use spotui::state::progress_state::ProgressBarState;
use spotui::state::update_ticks::UpdateTicks;

#[test]
fn new_ticker_takes_given_interval_or_one_second() {
    let t = UpdateTicks::new(Some(250));
    assert_eq!(t.interval_ms, 250);
    assert_eq!(t.ms_since_update, 0);
    assert!(t.should_hydrate);
    let d = UpdateTicks::new(None);
    assert_eq!(d.interval_ms, 1000);
}

#[test]
fn new_ticker_is_due_at_once() {
    let mut t = UpdateTicks::new(Some(1_000_000));
    assert!(t.can_update());
    assert!(t.can_update_after(0));
}

#[test]
fn reset_ticker_waits_for_its_interval() {
    let mut t = UpdateTicks::new(Some(1000));
    t.reset();
    assert!(!t.should_hydrate);
    assert_eq!(t.ms_since_update, 0);
    assert!(!t.can_update_after(999));
    assert_eq!(t.ms_since_update, 999);
    assert!(t.can_update_after(1000));
    assert!(t.can_update_after(5000));
    let mut slow = UpdateTicks::new(Some(1_000_000));
    slow.reset();
    assert!(!slow.can_update());
}

#[test]
fn plain_ticker_has_no_first_update() {
    let mut t = PlainTicks::new(None);
    assert_eq!(t.interval_ms, 1000);
    assert!(!t.can_update_after(10));
    assert!(t.can_update_after(1000));
    let mut slow = PlainTicks::new(Some(1_000_000));
    assert!(!slow.can_update());
    slow.reset();
    assert_eq!(slow.ms_since_update, 0);
}

#[test]
fn progress_starts_empty() {
    let p = ProgressBarState::new();
    let raw = p.get_player_progress_seconds_raw();
    assert_eq!(raw.track_time_seconds, 0);
    assert_eq!(raw.seconds_elapsed, 0);
    assert_eq!(p.get_player_progress_seconds_str(), "00:00/00:00");
}

#[test]
fn new_progress_is_due_while_playing_only() {
    let mut p = ProgressBarState::new();
    assert!(p.can_update());
    p.set_is_playing(false);
    assert!(!p.can_update());
}

#[test]
fn bump_stops_at_the_end_of_the_track() {
    let mut p = ProgressBarState::new();
    p.set_new_track(Some(178), 180);
    p.bump_player_progress();
    assert_eq!(p.get_player_progress_seconds_raw().seconds_elapsed, 179);
    p.bump_player_progress();
    assert_eq!(p.get_player_progress_seconds_raw().seconds_elapsed, 180);
    p.bump_player_progress();
    assert_eq!(p.get_player_progress_seconds_raw().seconds_elapsed, 180);
    assert_eq!(p.get_player_progress_seconds_str(), "03:00/03:00");
}

#[test]
fn bump_restarts_the_ticker() {
    let mut p = ProgressBarState::new();
    p.set_new_track(None, 10);
    p.bump_player_progress();
    // after a bump the ticker no longer hydrates, so a fresh interval has to pass
    assert!(!p.can_update());
}

#[test]
fn new_track_without_progress_starts_at_zero() {
    let mut p = ProgressBarState::new();
    p.set_new_track(Some(40), 200);
    p.set_new_track(None, 125);
    let raw = p.get_player_progress_seconds_raw();
    assert_eq!(raw.seconds_elapsed, 0);
    assert_eq!(raw.track_time_seconds, 125);
    assert_eq!(p.get_player_progress_seconds_str(), "00:00/02:05");
}

#[test]
fn plain_progress_bumps_past_the_end() {
    let mut p = PlainProgress::new();
    p.set_new_track(Some(3), 3);
    p.bump_player_progress();
    assert_eq!(p.get_player_progress_seconds_str(), "00:04/00:03");
    p.set_player_progress(61);
    assert_eq!(p.get_player_progress_seconds_str(), "01:01/00:03");
    p.set_new_track(None, 62);
    assert_eq!(p.get_player_progress_seconds_str(), "00:00/01:02");
}

#[test]
fn plain_progress_ticker_waits() {
    let mut p = PlainProgress::new();
    p.bump_player_progress();
    assert!(!p.can_update());
}

#[test]
fn playing_line_names_title_album_and_artist() {
    let mut s = PlayingState::new();
    assert_eq!(s.to_player_string(), " -  ()");
    s.set_now_playing("Song".to_string(), "Record".to_string(), "Band".to_string());
    assert_eq!(s.to_player_string(), "Song - Record (Band)");
}

#[test]
fn playing_state_is_due_first_then_waits() {
    let mut s = PlayingState::new();
    assert!(s.can_update());
    s.set_now_playing("a".to_string(), "b".to_string(), "c".to_string());
    assert!(!s.can_update());
}

#[test]
fn playlist_state_builds() {
    let _state = PlaylistState::new();
}
