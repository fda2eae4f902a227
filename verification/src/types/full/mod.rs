pub mod playback_state;
pub mod playlist;
