pub mod album_art;
pub mod builder;
pub mod player_ui;
