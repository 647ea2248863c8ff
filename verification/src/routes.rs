//! The addresses of a Lavalink node's REST API and how its answers are read.

use vstd::prelude::*;

verus! {

/// The base of a node's HTTP address: `https://host` over TLS, else `http://host`.
pub fn http_base(host: &str, tls: bool) -> (r: String)
    ensures
        r@ == (if tls { "https"@ } else { "http"@ }) + "://"@ + host@,
{
    let scheme = if tls {
        "https"
    } else {
        "http"
    };
    String::from_str(scheme).concat("://").concat(host)
}

/// The scheme of a node's WebSocket address: `wss` over TLS, else `ws`.
pub fn websocket_scheme(tls: bool) -> (r: &'static str)
    ensures
        r@ == (if tls { "wss"@ } else { "ws"@ }),
{
    if tls {
        "wss"
    } else {
        "ws"
    }
}

/// The path of the players of a session.
pub fn players_path(session_id: &str) -> (r: String)
    ensures
        r@ == "/v4/sessions/"@ + session_id@ + "/players"@,
{
    String::from_str("/v4/sessions/").concat(session_id).concat("/players")
}

/// The path of the player of a guild in a session.
pub fn player_path(session_id: &str, guild_id: &str) -> (r: String)
    ensures
        r@ == "/v4/sessions/"@ + session_id@ + "/players/"@ + guild_id@,
{
    String::from_str("/v4/sessions/").concat(session_id).concat("/players/").concat(guild_id)
}

/// The path of a session.
pub fn session_path(session_id: &str) -> (r: String)
    ensures
        r@ == "/v4/sessions/"@ + session_id@,
{
    String::from_str("/v4/sessions/").concat(session_id)
}

/// Whether an answer of the REST API with this status carries a body to read:
/// "No Content" (204) and "Not Found" (404) answers are read as nothing.
pub fn response_has_body(status: u16) -> (r: bool)
    ensures
        r == (status != 204 && status != 404),
{
    status != 204 && status != 404
}

} // verus!
