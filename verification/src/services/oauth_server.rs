use vstd::prelude::*;

verus! {

/// An upper-case hexadecimal digit (`0 <= d < 16`).
pub open spec fn hex_digit(d: int) -> char {
    if d < 10 {
        ((48 + d) as u8) as char
    } else {
        ((55 + d) as u8) as char
    }
}

/// Whether a byte is escaped in a URL fragment: control bytes, space, `"`, `<`, `>`, the
/// backquote, and every byte outside ASCII.
pub open spec fn escaped_in_fragment(b: u8) -> bool {
    b < 0x20 || b >= 0x7f || b == 0x20 || b == 0x22 || b == 0x3c || b == 0x3e || b == 0x60
}

/// Bytes written for a URL fragment: escaped bytes as `%` and two upper-case hex digits,
/// the others as the ASCII characters they are.
pub open spec fn fragment_escaped_bytes(bytes: Seq<u8>) -> Seq<char>
    decreases bytes.len(),
{
    if bytes.len() == 0 {
        Seq::empty()
    } else {
        let b = bytes.last();
        let tail = if escaped_in_fragment(b) {
            seq!['%', hex_digit((b / 16) as int), hex_digit((b % 16) as int)]
        } else {
            seq![b as char]
        };
        fragment_escaped_bytes(bytes.drop_last()) + tail
    }
}

/// Text escaped for a URL fragment: its UTF-8 bytes, written as `fragment_escaped_bytes` says.
pub open spec fn fragment_escaped(text: Seq<char>) -> Seq<char> {
    fragment_escaped_bytes(vstd::utf8::encode_utf8(text))
}

/// `url_escape::encode_fragment`: percent-encodes the UTF-8 bytes of `text` that the
/// fragment set holds (C0 controls, space, `"`, `<`, `>`, backquote, DEL) and every
/// non-ASCII byte, with upper-case hex digits, and keeps the other bytes.
#[verifier::external_body]
fn encode_fragment(text: &str) -> (encoded: String)
    ensures
        encoded@ == fragment_escaped(text@),
{
    url_escape::encode_fragment(text).into_owned()
}

/// The address of Spotify's login page for the implicit grant flow.
pub open spec fn authorize_url(client_id: Seq<char>, scopes: Seq<char>, callback_url: Seq<char>) -> Seq<char> {
    "https://accounts.spotify.com/authorize?response_type=token&client_id="@ + fragment_escaped(
        client_id,
    ) + "&scope="@ + fragment_escaped(scopes) + "&redirect_uri="@ + fragment_escaped(callback_url)
}

/// Signs the user in to Spotify and receives the access token.
pub struct OauthServer {}

impl OauthServer {
    pub fn new() -> (server: Self) {
        Self {}
    }

    /// The login page to send the user to, for the given client, scopes and callback address.
    pub fn callback_url(client_id: &str, scopes: &str, callback_url: &str) -> (url: String)
        ensures
            url@ == authorize_url(client_id@, scopes@, callback_url@),
    {
        let mut url = String::from_str(
            "https://accounts.spotify.com/authorize?response_type=token&client_id=",
        );
        url.append(encode_fragment(client_id).as_str());
        url.append("&scope=");
        url.append(encode_fragment(scopes).as_str());
        url.append("&redirect_uri=");
        url.append(encode_fragment(callback_url).as_str());
        url
    }
}

} // verus!
