use spotui::services::oauth_server::OauthServer;
use spotui::services::spotify_adapter::get_api_url;
use spotui::services::spotify_client::{hydrated_playlist, play_request, playlist_tracks_path, user_playlists_path};
use spotui::types::full::playlist::{Item, Track};

#[test]
fn login_url_escapes_its_parts() {
    let _server = OauthServer::new();
    let url = OauthServer::callback_url(
        "abc123",
        "user-read-playback-state user-modify-playback-state",
        "http://localhost:3000/callback",
    );
    assert_eq!(
        url,
        "https://accounts.spotify.com/authorize?response_type=token&client_id=abc123\
         &scope=user-read-playback-state%20user-modify-playback-state\
         &redirect_uri=http://localhost:3000/callback"
    );
}

#[test]
fn login_url_escapes_quotes_brackets_and_non_ascii() {
    let url = OauthServer::callback_url("a\"<b>`", "é", "x y");
    assert_eq!(
        url,
        "https://accounts.spotify.com/authorize?response_type=token&client_id=a%22%3Cb%3E%60\
         &scope=%C3%A9&redirect_uri=x%20y"
    );
}

#[test]
fn api_urls_are_rooted_at_v1() {
    assert_eq!(get_api_url("/me/player"), "https://api.spotify.com/v1/me/player");
    assert_eq!(get_api_url(""), "https://api.spotify.com/v1");
}

#[test]
fn playlist_paths() {
    assert_eq!(user_playlists_path("bob"), "/users/bob/playlists");
    assert_eq!(playlist_tracks_path("37i9"), "/playlists/37i9/tracks");
}

#[test]
fn play_request_names_track_and_playlist() {
    let request = play_request("t42", "p7");
    assert_eq!(request.context_uri, "spotify:playlist:p7");
    assert_eq!(request.uris, vec!["spotify:track:t42".to_string()]);
}

#[test]
fn playlists_without_tracks_are_dropped() {
    assert!(hydrated_playlist("p".to_string(), "P".to_string(), None).is_none());
    let items = vec![Item { track: Track { id: "t".to_string(), name: "T".to_string() } }];
    let list = hydrated_playlist("p".to_string(), "P".to_string(), Some(items)).unwrap();
    assert_eq!(list.id, "p");
    assert_eq!(list.name, "P");
    assert_eq!(list.items.len(), 1);
    assert_eq!(list.items[0].track.id, "t");
}
