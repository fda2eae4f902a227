use vstd::prelude::*;

use crate::events::types::SpotifyEvents;

verus! {

/// A key press, as far as the player tells keys apart.
pub enum Key {
    Up,
    Down,
    Left,
    Right,
    Enter,
    Char(char),
    Other,
}

/// The event a key stands for: arrows or vim keys move, `q` quits, space or enter plays.
pub open spec fn key_event(key: Key) -> Option<SpotifyEvents> {
    match key {
        Key::Down => Some(SpotifyEvents::NavigateDown),
        Key::Up => Some(SpotifyEvents::NavigateUp),
        Key::Left => Some(SpotifyEvents::NavigateLeft),
        Key::Right => Some(SpotifyEvents::NavigateRight),
        Key::Enter => Some(SpotifyEvents::PlayTrack),
        Key::Char(c) => {
            if c == 'k' {
                Some(SpotifyEvents::NavigateDown)
            } else if c == 'j' {
                Some(SpotifyEvents::NavigateUp)
            } else if c == 'h' {
                Some(SpotifyEvents::NavigateLeft)
            } else if c == 'l' {
                Some(SpotifyEvents::NavigateRight)
            } else if c == 'q' {
                Some(SpotifyEvents::Quit)
            } else if c == ' ' {
                Some(SpotifyEvents::PlayTrack)
            } else {
                None
            }
        },
        Key::Other => None,
    }
}

/// The event to send for a key press, if any.
pub fn event_for_key(key: &Key) -> (event: Option<SpotifyEvents>)
    ensures
        event == key_event(*key),
{
    match key {
        Key::Down | Key::Char('k') => Some(SpotifyEvents::NavigateDown),
        Key::Up | Key::Char('j') => Some(SpotifyEvents::NavigateUp),
        Key::Left | Key::Char('h') => Some(SpotifyEvents::NavigateLeft),
        Key::Right | Key::Char('l') => Some(SpotifyEvents::NavigateRight),
        Key::Char('q') => Some(SpotifyEvents::Quit),
        Key::Char(' ') | Key::Enter => Some(SpotifyEvents::PlayTrack),
        _ => None,
    }
}

} // verus!
