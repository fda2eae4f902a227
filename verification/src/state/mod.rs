pub mod album_art_state;
pub mod playing_state;
pub mod playlist_state;
pub mod progress_state;
pub mod state_adaptor;
pub mod update_ticks;
