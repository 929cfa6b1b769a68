//! Static configuration for the Spotify integration, and the rule that picks
//! the client id.
//!
//! The client id identifies the app. An installed desktop app using the
//! Authorization Code flow with PKCE is a public client without a secret, so
//! the id is safe to ship. It comes from the `SPOTLITE_CLIENT_ID` environment
//! variable at run time, falling back to a value baked in at build time.
use vstd::prelude::*;

use crate::text::{trim, trimmed};

verus! {

/// Port of the loopback redirect server.
pub const REDIRECT_PORT: u16 = 8888;

/// Loopback redirect; must be registered verbatim with the Spotify app.
pub const REDIRECT_URI: &'static str = "http://127.0.0.1:8888/callback";

/// Authorization endpoint.
pub const AUTH_URL: &'static str = "https://accounts.spotify.com/authorize";

/// Token endpoint.
pub const TOKEN_URL: &'static str = "https://accounts.spotify.com/api/token";

/// Base of every Web API path.
pub const API_BASE: &'static str = "https://api.spotify.com/v1";

/// Scopes needed to browse the library and drive the Web Playback SDK.
pub const SCOPES: &'static str = "streaming user-read-email user-read-private user-read-playback-state user-modify-playback-state user-read-currently-playing user-library-read playlist-read-private playlist-read-collaborative";

/// The text of an optional string slice.
pub open spec fn str_view(v: Option<&str>) -> Option<Seq<char>> {
    match v {
        Some(x) => Some(x@),
        None => None,
    }
}

/// A configured value counts when it is not blank; it is then used trimmed.
pub open spec fn usable_id(v: Option<Seq<char>>) -> Option<Seq<char>> {
    match v {
        Some(s) => if trimmed(s).len() > 0 {
            Some(trimmed(s))
        } else {
            None
        },
        None => None,
    }
}

/// The run-time value wins over the build-time one when it is usable.
pub open spec fn chosen_client_id(runtime: Option<Seq<char>>, baked: Option<Seq<char>>) -> Option<
    Seq<char>,
> {
    match usable_id(runtime) {
        Some(s) => Some(s),
        None => usable_id(baked),
    }
}

/// Which client id is chosen: a run-time value that is not blank wins,
/// trimmed, whatever the baked value (none included); otherwise a baked
/// value that is not blank, trimmed; otherwise none.
pub proof fn lemma_client_id_choice(runtime: Option<Seq<char>>, baked: Option<Seq<char>>)
    ensures
        runtime is Some && trimmed(runtime->0).len() > 0 ==> chosen_client_id(runtime, baked) == Some(
            trimmed(runtime->0),
        ),
        (runtime is None || trimmed(runtime->0).len() == 0) ==> (baked is Some && trimmed(
            baked->0,
        ).len() > 0 ==> chosen_client_id(runtime, baked) == Some(trimmed(baked->0))),
        (runtime is None || trimmed(runtime->0).len() == 0) && (baked is None || trimmed(
            baked->0,
        ).len() == 0) ==> chosen_client_id(runtime, baked) is None,
{
}

fn usable(v: Option<&str>) -> (r: Option<String>)
    ensures
        r matches Some(s) ==> usable_id(str_view(v)) == Some(s@),
        r is None ==> usable_id(str_view(v)) is None,
{
    match v {
        Some(x) => {
            let t = trim(x);
            if t.as_str().is_empty() {
                None
            } else {
                Some(t)
            }
        },
        None => None,
    }
}

/// Picks the client id from the run-time value of `SPOTLITE_CLIENT_ID`
/// (`runtime`) and the value baked in at build time (`baked`).
pub fn resolve_client_id(runtime: Option<&str>, baked: Option<&str>) -> (r: Option<String>)
    ensures
        r matches Some(s) ==> chosen_client_id(
            str_view(runtime),
            str_view(baked),
        ) == Some(s@),
        r is None ==> chosen_client_id(str_view(runtime), str_view(baked)) is None,
{
    match usable(runtime) {
        Some(s) => Some(s),
        None => usable(baked),
    }
}

} // verus!
