pub mod app_state;
pub mod player_ui;
pub mod oauth_server;
pub mod spotify_adapter;
pub mod spotify_client;
