use vstd::prelude::*;

verus! {

/// The root of Spotify's web API.
pub open spec fn spotify_api_base() -> Seq<char> {
    "https://api.spotify.com/v1"@
}

/// The full address of an API path.
pub fn get_api_url(path: &str) -> (url: String)
    ensures
        url@ == spotify_api_base() + path@,
{
    let mut url = String::from_str("https://api.spotify.com/v1");
    url.append(path);
    url
}

} // verus!
