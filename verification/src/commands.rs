//! The decisions behind the commands the webview invokes: when the stored
//! access token can be used and when it must be refreshed, the defaults of
//! the browsing commands, and the start-up report line.
use vstd::prelude::*;

use crate::error::{AppError, AppResult};
use crate::spotify_api::{self, bodiless, search_path, ApiRequest, HttpMethod, PlayBody};
use crate::text::{decimal, decimal_string};
use crate::token_store::{expired_at, expiry_margin, now_secs, Tokens};

verus! {

/// The configured client id, or `MissingClientId`.
pub fn require_client_id(client_id: &Option<String>) -> (r: AppResult<String>)
    ensures
        match client_id {
            Some(c) => r matches Ok(s) && s == c,
            None => r matches Err(AppError::MissingClientId),
        },
{
    match client_id {
        Some(c) => Ok(c.clone()),
        None => Err(AppError::MissingClientId),
    }
}

/// How to obtain a valid access token.
#[derive(Debug, PartialEq, Eq)]
pub enum TokenAction {
    /// The held access token is still valid: use it.
    Use(String),
    /// The held access token is (about to be) expired: refresh it with this
    /// client id and refresh token, persist and hold the new bundle, and use
    /// its access token.
    Refresh { client_id: String, refresh_token: String },
}

/// The action for the held client id and tokens, given whether the tokens
/// count as expired: first a client id is needed, then tokens.
pub open spec fn token_action_spec(client_id: Option<String>, tokens: Option<Tokens>, expired: bool) -> AppResult<TokenAction> {
    match client_id {
        None => Err(AppError::MissingClientId),
        Some(c) => match tokens {
            None => Err(AppError::NotAuthenticated),
            Some(t) => if expired {
                Ok(TokenAction::Refresh { client_id: c, refresh_token: t.refresh_token })
            } else {
                Ok(TokenAction::Use(t.access_token))
            },
        },
    }
}

/// The action at Unix time `now`.
pub fn token_action_at(client_id: &Option<String>, tokens: &Option<Tokens>, now: u64) -> (r: AppResult<TokenAction>)
    ensures
        r == token_action_spec(
            *client_id,
            *tokens,
            tokens matches Some(t) && expired_at(t.expires_at, now),
        ),
{
    let c = require_client_id(client_id)?;
    match tokens {
        None => Err(AppError::NotAuthenticated),
        Some(t) => if t.is_expired_at(now) {
            Ok(TokenAction::Refresh { client_id: c, refresh_token: t.refresh_token.clone() })
        } else {
            Ok(TokenAction::Use(t.access_token.clone()))
        },
    }
}

/// The action now: [`token_action_at`] at the current time. The clock is
/// read here, so the result is stated for either answer of the expiry test:
/// it is the action for some expiry status, and a refresh whenever the token
/// expires within the first minute of the epoch.
pub fn token_action(client_id: &Option<String>, tokens: &Option<Tokens>) -> (r: AppResult<TokenAction>)
    ensures
        r == token_action_spec(*client_id, *tokens, false) || r == token_action_spec(
            *client_id,
            *tokens,
            true,
        ),
        tokens matches Some(t) && t.expires_at <= expiry_margin() ==> r == token_action_spec(
            *client_id,
            *tokens,
            true,
        ),
{
    token_action_at(client_id, tokens, now_secs())
}

/// Holds a freshly refreshed bundle in place of the old one and gives back
/// its access token, which is the token then held.
pub fn adopt_refreshed(held: &mut Option<Tokens>, refreshed: Tokens) -> (access: String)
    ensures
        *final(held) == Some(refreshed),
        access == refreshed.access_token,
{
    let access = refreshed.access_token.clone();
    *held = Some(refreshed);
    access
}

/// Item types searched when the caller names none.
pub const DEFAULT_SEARCH_TYPES: &'static str = "track,album,artist,playlist";

/// Search request, with default types and a limit of 20.
pub fn api_search(query: &str, types: Option<&str>, limit: Option<u32>) -> (r: ApiRequest)
    ensures
        bodiless(
            r,
            HttpMethod::Get,
            search_path(
                query@,
                match types {
                    Some(t) => t@,
                    None => DEFAULT_SEARCH_TYPES@,
                },
                match limit {
                    Some(l) => l,
                    None => 20,
                },
            ),
        ),
{
    let t = match types {
        Some(t) => t,
        None => DEFAULT_SEARCH_TYPES,
    };
    let l = match limit {
        Some(l) => l,
        None => 20,
    };
    spotify_api::search(query, t, l)
}

/// Playlists request, 50 by default.
pub fn api_my_playlists(limit: Option<u32>) -> (r: ApiRequest)
    ensures
        bodiless(
            r,
            HttpMethod::Get,
            "/me/playlists?limit="@ + decimal(
                match limit {
                    Some(l) => l,
                    None => 50u32,
                } as nat,
            ),
        ),
{
    spotify_api::my_playlists(
        match limit {
            Some(l) => l,
            None => 50,
        },
    )
}

/// Playlist tracks request, 100 from the start by default.
pub fn api_playlist_tracks(playlist_id: &str, limit: Option<u32>, offset: Option<u32>) -> (r: ApiRequest)
    ensures
        bodiless(
            r,
            HttpMethod::Get,
            spotify_api::playlist_tracks_path(
                playlist_id@,
                match limit {
                    Some(l) => l,
                    None => 100,
                },
                match offset {
                    Some(o) => o,
                    None => 0,
                },
            ),
        ),
{
    let l = match limit {
        Some(l) => l,
        None => 100,
    };
    let o = match offset {
        Some(o) => o,
        None => 0,
    };
    spotify_api::playlist_tracks(playlist_id, l, o)
}

/// Saved tracks request, 50 by default.
pub fn api_saved_tracks(limit: Option<u32>) -> (r: ApiRequest)
    ensures
        bodiless(
            r,
            HttpMethod::Get,
            "/me/tracks?limit="@ + decimal(
                match limit {
                    Some(l) => l,
                    None => 50u32,
                } as nat,
            ),
        ),
{
    spotify_api::saved_tracks(
        match limit {
            Some(l) => l,
            None => 50,
        },
    )
}

/// Transfer request; playback does not start unless asked.
pub fn transfer_playback(device_id: &str, play: Option<bool>) -> (r: ApiRequest)
    ensures
        r.method == HttpMethod::Put,
        r.path_and_query@ == "/me/player"@,
        r.body matches Some(spotify_api::RequestBody::TransferPlayback { device_ids, play: p }) && p
            == (play == Some(true)) && device_ids@.len() == 1 && device_ids@[0]@ == device_id@,
{
    spotify_api::transfer_playback(
        device_id,
        match play {
            Some(p) => p,
            None => false,
        },
    )
}

/// Playback start request; the body holds just the fields given.
pub fn play(
    device_id: &str,
    context_uri: Option<String>,
    uris: Option<Vec<String>>,
    offset_position: Option<u32>,
) -> (r: ApiRequest)
    ensures
        r.method == HttpMethod::Put,
        r.path_and_query@ == "/me/player/play?device_id="@ + device_id@,
        r.body == Some(
            spotify_api::RequestBody::Play(PlayBody { context_uri, uris, offset_position }),
        ),
{
    spotify_api::play(device_id, PlayBody { context_uri, uris, offset_position })
}

/// The line printed once the UI is interactive, `ms` milliseconds after
/// start, for the start-up benchmark to read.
pub fn ready_line(ms: u128) -> (r: String)
    ensures
        r@ == "SPOTLITE_READY_MS="@ + decimal(ms as nat),
{
    let d = decimal_string(ms);
    String::from_str("SPOTLITE_READY_MS=").concat(d.as_str())
}

} // verus!
