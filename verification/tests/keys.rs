use spotui::events::keyboard_events::{event_for_key, Key};
use spotui::events::types::SpotifyEvents;

fn name(e: Option<SpotifyEvents>) -> &'static str {
    match e {
        None => "none",
        Some(SpotifyEvents::NavigateUp) => "up",
        Some(SpotifyEvents::NavigateDown) => "down",
        Some(SpotifyEvents::NavigateLeft) => "left",
        Some(SpotifyEvents::NavigateRight) => "right",
        Some(SpotifyEvents::PlayTrack) => "play",
        Some(SpotifyEvents::Quit) => "quit",
        Some(_) => "other",
    }
}

#[test]
fn arrows_move() {
    assert_eq!(name(event_for_key(&Key::Up)), "up");
    assert_eq!(name(event_for_key(&Key::Down)), "down");
    assert_eq!(name(event_for_key(&Key::Left)), "left");
    assert_eq!(name(event_for_key(&Key::Right)), "right");
}

#[test]
fn vim_keys_move() {
    assert_eq!(name(event_for_key(&Key::Char('k'))), "down");
    assert_eq!(name(event_for_key(&Key::Char('j'))), "up");
    assert_eq!(name(event_for_key(&Key::Char('h'))), "left");
    assert_eq!(name(event_for_key(&Key::Char('l'))), "right");
}

#[test]
fn quit_and_play_keys() {
    assert_eq!(name(event_for_key(&Key::Char('q'))), "quit");
    assert_eq!(name(event_for_key(&Key::Char(' '))), "play");
    assert_eq!(name(event_for_key(&Key::Enter)), "play");
}

#[test]
fn other_keys_do_nothing() {
    assert_eq!(name(event_for_key(&Key::Char('x'))), "none");
    assert_eq!(name(event_for_key(&Key::Char('Q'))), "none");
    assert_eq!(name(event_for_key(&Key::Other)), "none");
}
