//! The Spotify Web API calls the client makes, as data: each function gives
//! the method, path and body of one request, and [`interpret_response`]
//! reads the answer. Sending requests is left to the application. Answers
//! stay raw JSON: the frontend owns presentation.
use vstd::prelude::*;

use crate::auth::is_success;
use crate::config::API_BASE;
use crate::encoding::{form_component, urlencode};
use crate::error::{AppError, AppResult};
use crate::text::{decimal, decimal_string, trim, trimmed};

verus! {

/// HTTP methods the Web API calls use.
#[derive(Debug, Clone, Copy, PartialEq, Eq)]
pub enum HttpMethod {
    Get,
    Put,
    Post,
}

/// Body of `PUT /me/player/play`: an album/playlist `context_uri`, or track
/// `uris`, and where to start; each field is sent only when present.
pub struct PlayBody {
    pub context_uri: Option<String>,
    pub uris: Option<Vec<String>>,
    pub offset_position: Option<u32>,
}

/// JSON body of a request.
pub enum RequestBody {
    /// `{"device_ids": [..], "play": ..}`
    TransferPlayback { device_ids: Vec<String>, play: bool },
    /// The playback start body.
    Play(PlayBody),
}

/// One Web API request: method, path with query below [`API_BASE`], and an
/// optional JSON body. Sent with the access token as bearer credential.
pub struct ApiRequest {
    pub method: HttpMethod,
    pub path_and_query: String,
    pub body: Option<RequestBody>,
}

/// A request without body.
pub open spec fn bodiless(r: ApiRequest, method: HttpMethod, path: Seq<char>) -> bool {
    &&& r.method == method
    &&& r.path_and_query@ == path
    &&& r.body is None
}

/// The full URL a request goes to.
pub fn request_url(path_and_query: &str) -> (r: String)
    ensures
        r@ == API_BASE@ + path_and_query@,
{
    String::from_str(API_BASE).concat(path_and_query)
}

fn text_then(a: &str, b: &str) -> (r: String)
    ensures
        r@ == a@ + b@,
{
    String::from_str(a).concat(b)
}

fn text_then_number(a: &str, n: u64) -> (r: String)
    ensures
        r@ == a@ + decimal(n as nat),
{
    let d = decimal_string(n as u128);
    String::from_str(a).concat(d.as_str())
}

/// A `GET` of `path_and_query`.
pub fn get(path_and_query: &str) -> (r: ApiRequest)
    ensures
        bodiless(r, HttpMethod::Get, path_and_query@),
{
    ApiRequest { method: HttpMethod::Get, path_and_query: String::from_str(path_and_query), body: None }
}

/// The current user's profile.
pub fn me() -> (r: ApiRequest)
    ensures
        bodiless(r, HttpMethod::Get, "/me"@),
{
    get("/me")
}

/// Search path: the query is form-urlencoded, the types and limit are not.
pub open spec fn search_path(query: Seq<char>, types: Seq<char>, limit: u32) -> Seq<char> {
    "/search?q="@ + form_component(query) + "&type="@ + types + "&limit="@ + decimal(limit as nat)
}

/// Search the catalogue for `query` among the item `types` (comma separated).
pub fn search(query: &str, types: &str, limit: u32) -> (r: ApiRequest)
    ensures
        bodiless(r, HttpMethod::Get, search_path(query@, types@, limit)),
{
    let q = urlencode(query);
    let lim = decimal_string(limit as u128);
    let path = String::from_str("/search?q=").concat(q.as_str()).concat("&type=").concat(types).concat(
        "&limit=",
    ).concat(lim.as_str());
    get(path.as_str())
}

/// The current user's playlists.
pub fn my_playlists(limit: u32) -> (r: ApiRequest)
    ensures
        bodiless(r, HttpMethod::Get, "/me/playlists?limit="@ + decimal(limit as nat)),
{
    let path = text_then_number("/me/playlists?limit=", limit as u64);
    get(path.as_str())
}

/// Playlist tracks path.
pub open spec fn playlist_tracks_path(playlist_id: Seq<char>, limit: u32, offset: u32) -> Seq<char> {
    "/playlists/"@ + playlist_id + "/tracks?limit="@ + decimal(limit as nat) + "&offset="@ + decimal(
        offset as nat,
    )
}

/// A page of a playlist's tracks.
pub fn playlist_tracks(playlist_id: &str, limit: u32, offset: u32) -> (r: ApiRequest)
    ensures
        bodiless(r, HttpMethod::Get, playlist_tracks_path(playlist_id@, limit, offset)),
{
    let lim = decimal_string(limit as u128);
    let off = decimal_string(offset as u128);
    let path = String::from_str("/playlists/").concat(playlist_id).concat("/tracks?limit=").concat(
        lim.as_str(),
    ).concat("&offset=").concat(off.as_str());
    get(path.as_str())
}

/// The user's saved tracks.
pub fn saved_tracks(limit: u32) -> (r: ApiRequest)
    ensures
        bodiless(r, HttpMethod::Get, "/me/tracks?limit="@ + decimal(limit as nat)),
{
    let path = text_then_number("/me/tracks?limit=", limit as u64);
    get(path.as_str())
}

/// The current playback state.
pub fn playback_state() -> (r: ApiRequest)
    ensures
        bodiless(r, HttpMethod::Get, "/me/player"@),
{
    get("/me/player")
}

/// Move active playback to a device (the Web Playback SDK's device).
pub fn transfer_playback(device_id: &str, play: bool) -> (r: ApiRequest)
    ensures
        r.method == HttpMethod::Put,
        r.path_and_query@ == "/me/player"@,
        r.body matches Some(RequestBody::TransferPlayback { device_ids, play: p }) && p == play
            && device_ids@.len() == 1 && device_ids@[0]@ == device_id@,
{
    let mut ids: Vec<String> = Vec::new();
    ids.push(String::from_str(device_id));
    ApiRequest {
        method: HttpMethod::Put,
        path_and_query: String::from_str("/me/player"),
        body: Some(RequestBody::TransferPlayback { device_ids: ids, play }),
    }
}

/// Start or resume playback on a device.
pub fn play(device_id: &str, body: PlayBody) -> (r: ApiRequest)
    ensures
        r.method == HttpMethod::Put,
        r.path_and_query@ == "/me/player/play?device_id="@ + device_id@,
        r.body == Some(RequestBody::Play(body)),
{
    ApiRequest {
        method: HttpMethod::Put,
        path_and_query: text_then("/me/player/play?device_id=", device_id),
        body: Some(RequestBody::Play(body)),
    }
}

/// Pause playback on a device.
pub fn pause(device_id: &str) -> (r: ApiRequest)
    ensures
        bodiless(r, HttpMethod::Put, "/me/player/pause?device_id="@ + device_id@),
{
    ApiRequest {
        method: HttpMethod::Put,
        path_and_query: text_then("/me/player/pause?device_id=", device_id),
        body: None,
    }
}

/// Skip to the next track.
pub fn next(device_id: &str) -> (r: ApiRequest)
    ensures
        bodiless(r, HttpMethod::Post, "/me/player/next?device_id="@ + device_id@),
{
    ApiRequest {
        method: HttpMethod::Post,
        path_and_query: text_then("/me/player/next?device_id=", device_id),
        body: None,
    }
}

/// Go back to the previous track.
pub fn previous(device_id: &str) -> (r: ApiRequest)
    ensures
        bodiless(r, HttpMethod::Post, "/me/player/previous?device_id="@ + device_id@),
{
    ApiRequest {
        method: HttpMethod::Post,
        path_and_query: text_then("/me/player/previous?device_id=", device_id),
        body: None,
    }
}

/// Seek to a position (milliseconds) in the current track.
pub fn seek(device_id: &str, position_ms: u64) -> (r: ApiRequest)
    ensures
        bodiless(
            r,
            HttpMethod::Put,
            "/me/player/seek?device_id="@ + device_id@ + "&position_ms="@ + decimal(
                position_ms as nat,
            ),
        ),
{
    let pos = decimal_string(position_ms as u128);
    let path = String::from_str("/me/player/seek?device_id=").concat(device_id).concat(
        "&position_ms=",
    ).concat(pos.as_str());
    ApiRequest { method: HttpMethod::Put, path_and_query: path, body: None }
}

/// The volume actually requested: percentages above 100 are capped at 100.
pub open spec fn volume_sent(percent: u8) -> nat {
    if percent > 100 {
        100
    } else {
        percent as nat
    }
}

/// The volume sent is `min(percent, 100)`: every percentage up to 100 is sent
/// as given, anything above as 100.
pub proof fn lemma_volume_is_min_100(percent: u8)
    ensures
        percent <= 100 ==> volume_sent(percent) == percent as nat,
        percent > 100 ==> volume_sent(percent) == 100,
{
}

/// Set the playback volume in percent, capped at 100.
pub fn set_volume(device_id: &str, percent: u8) -> (r: ApiRequest)
    ensures
        bodiless(
            r,
            HttpMethod::Put,
            "/me/player/volume?device_id="@ + device_id@ + "&volume_percent="@ + decimal(
                volume_sent(percent),
            ),
        ),
        volume_sent(percent) <= 100,
{
    let p: u8 = if percent > 100 {
        100
    } else {
        percent
    };
    let vol = decimal_string(p as u128);
    let path = String::from_str("/me/player/volume?device_id=").concat(device_id).concat(
        "&volume_percent=",
    ).concat(vol.as_str());
    ApiRequest { method: HttpMethod::Put, path_and_query: path, body: None }
}

#[verifier::external_type_specification]
#[verifier::external_body]
pub struct ExJsonValue(serde_json::Value);

/// What `serde_json::from_str::<serde_json::Value>` gives for `text`: the
/// JSON document it holds, or the text of the error reported for it.
pub uninterp spec fn json_from_str(text: Seq<char>) -> Result<serde_json::Value, Seq<char>>;

/// `serde_json::from_str` into a `serde_json::Value`; the error becomes its
/// text. The parsed document and the error text are named, not stated.
#[verifier::external_body]
fn parse_json(text: &str) -> (r: Result<serde_json::Value, String>)
    ensures
        match r {
            Ok(v) => json_from_str(text@) == Ok::<serde_json::Value, Seq<char>>(v),
            Err(m) => json_from_str(text@) == Err::<serde_json::Value, Seq<char>>(m@),
        },
{
    serde_json::from_str(text).map_err(|e| e.to_string())
}

/// A successful Web API answer.
pub enum ApiReply {
    /// An empty body, as the control endpoints (play, pause, ...) answer with 204.
    NoContent,
    /// A JSON document.
    Json(serde_json::Value),
}

/// Reads an answer with status `status` and body `text`: failures carry the
/// status and body; an empty (or blank) body is no content; anything else
/// must parse as JSON, and the document parsed from `text` is returned, or
/// it fails with the status and the parse error.
pub fn interpret_response(status: u16, text: &str) -> (r: AppResult<ApiReply>)
    ensures
        !is_success(status) ==> (r matches Err(AppError::Api { status: s, body }) && s == status
            && body@ == text@),
        is_success(status) && trimmed(text@).len() == 0 ==> r matches Ok(ApiReply::NoContent),
        is_success(status) && trimmed(text@).len() > 0 ==> match json_from_str(text@) {
            Ok(doc) => r matches Ok(ApiReply::Json(v)) && v == doc,
            Err(m) => r matches Err(AppError::Api { status: s, body }) && s == status && body@ == m,
        },
{
    if !(200 <= status && status <= 299) {
        return Err(AppError::Api { status, body: String::from_str(text) });
    }
    let t = trim(text);
    if t.as_str().is_empty() {
        return Ok(ApiReply::NoContent);
    }
    match parse_json(text) {
        Ok(v) => Ok(ApiReply::Json(v)),
        Err(m) => Err(AppError::Api { status, body: m }),
    }
}

} // verus!
