use vstd::prelude::*;

use crate::types::app::playlists::AppPlaylist;
use crate::types::full::playlist::Item;

verus! {

/// The body of a request to play a track within a playlist.
pub struct PlayRequest {
    pub context_uri: String,
    pub uris: Vec<String>,
}

/// The API path of a user's playlists.
pub fn user_playlists_path(user_id: &str) -> (path: String)
    ensures
        path@ == "/users/"@ + user_id@ + "/playlists"@,
{
    let mut path = String::from_str("/users/");
    path.append(user_id);
    path.append("/playlists");
    path
}

/// The API path of a playlist's tracks.
pub fn playlist_tracks_path(playlist_id: &str) -> (path: String)
    ensures
        path@ == "/playlists/"@ + playlist_id@ + "/tracks"@,
{
    let mut path = String::from_str("/playlists/");
    path.append(playlist_id);
    path.append("/tracks");
    path
}

/// The request that plays track `id` within playlist `context`: the playlist's URI as the
/// context and the track's URI as the only track.
pub fn play_request(id: &str, context: &str) -> (request: PlayRequest)
    ensures
        request.context_uri@ == "spotify:playlist:"@ + context@,
        request.uris@.len() == 1,
        request.uris@[0]@ == "spotify:track:"@ + id@,
{
    let mut track_uri = String::from_str("spotify:track:");
    track_uri.append(id);
    let mut context_uri = String::from_str("spotify:playlist:");
    context_uri.append(context);
    let mut uris: Vec<String> = Vec::new();
    uris.push(track_uri);
    PlayRequest { context_uri, uris }
}

/// A playlist with its tracks, where the tracks could be fetched.
pub fn hydrated_playlist(id: String, name: String, content: Option<Vec<Item>>) -> (playlist: Option<AppPlaylist>)
    ensures
        match content {
            Some(items) => playlist == Some(AppPlaylist { id, name, items }),
            None => playlist is None,
        },
{
    match content {
        Some(items) => Some(AppPlaylist { id, name, items }),
        None => None,
    }
}

} // verus!
