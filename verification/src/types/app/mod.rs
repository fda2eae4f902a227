pub mod event_types;
pub mod playlists;
pub mod updatable;
