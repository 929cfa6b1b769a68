use spotlite::commands::{
    api_my_playlists, api_playlist_tracks, api_saved_tracks, api_search, play as play_command,
    adopt_refreshed, ready_line, require_client_id, token_action, token_action_at, transfer_playback as transfer_command,
    TokenAction,
};
use spotlite::error::AppError;
use spotlite::spotify_api::{
    get, interpret_response, me, my_playlists, next, pause, play, playback_state, playlist_tracks,
    previous, request_url, saved_tracks, search, seek, set_volume, transfer_playback, ApiReply,
    ApiRequest, HttpMethod, PlayBody, RequestBody,
};
use spotlite::token_store::Tokens;

fn bodiless(r: &ApiRequest, method: HttpMethod, path: &str) {
    assert_eq!(r.method, method);
    assert_eq!(r.path_and_query, path);
    assert!(r.body.is_none());
}

#[test]
fn get_requests() {
    bodiless(&get("/x?y=1"), HttpMethod::Get, "/x?y=1");
    bodiless(&me(), HttpMethod::Get, "/me");
    bodiless(&playback_state(), HttpMethod::Get, "/me/player");
    bodiless(&my_playlists(7), HttpMethod::Get, "/me/playlists?limit=7");
    bodiless(&saved_tracks(0), HttpMethod::Get, "/me/tracks?limit=0");
    bodiless(&playlist_tracks("pl1", 100, 250), HttpMethod::Get, "/playlists/pl1/tracks?limit=100&offset=250");
}

#[test]
fn search_encodes_only_the_query() {
    bodiless(
        &search("a b&c=d/é~*", "track,album", 4294967295),
        HttpMethod::Get,
        "/search?q=a+b%26c%3Dd%2F%C3%A9%7E*&type=track,album&limit=4294967295",
    );
}

#[test]
fn control_requests() {
    bodiless(&pause("dev"), HttpMethod::Put, "/me/player/pause?device_id=dev");
    bodiless(&next("dev"), HttpMethod::Post, "/me/player/next?device_id=dev");
    bodiless(&previous("dev"), HttpMethod::Post, "/me/player/previous?device_id=dev");
    bodiless(&seek("dev", 18446744073709551615), HttpMethod::Put, "/me/player/seek?device_id=dev&position_ms=18446744073709551615");
    bodiless(&set_volume("dev", 42), HttpMethod::Put, "/me/player/volume?device_id=dev&volume_percent=42");
}

#[test]
fn volume_is_capped_at_100() {
    bodiless(&set_volume("d", 100), HttpMethod::Put, "/me/player/volume?device_id=d&volume_percent=100");
    bodiless(&set_volume("d", 101), HttpMethod::Put, "/me/player/volume?device_id=d&volume_percent=100");
    bodiless(&set_volume("d", 255), HttpMethod::Put, "/me/player/volume?device_id=d&volume_percent=100");
    bodiless(&set_volume("d", 0), HttpMethod::Put, "/me/player/volume?device_id=d&volume_percent=0");
}

#[test]
fn transfer_and_play_bodies() {
    let r = transfer_playback("dev", true);
    assert_eq!(r.method, HttpMethod::Put);
    assert_eq!(r.path_and_query, "/me/player");
    match r.body {
        Some(RequestBody::TransferPlayback { device_ids, play }) => {
            assert_eq!(device_ids, vec!["dev".to_string()]);
            assert!(play);
        }
        _ => panic!("expected a transfer body"),
    }
    let r = play("dev", PlayBody { context_uri: Some("spotify:album:1".to_string()), uris: None, offset_position: Some(3) });
    assert_eq!(r.method, HttpMethod::Put);
    assert_eq!(r.path_and_query, "/me/player/play?device_id=dev");
    match r.body {
        Some(RequestBody::Play(b)) => {
            assert_eq!(b.context_uri.as_deref(), Some("spotify:album:1"));
            assert!(b.uris.is_none());
            assert_eq!(b.offset_position, Some(3));
        }
        _ => panic!("expected a play body"),
    }
}

#[test]
fn request_url_joins_base() {
    assert_eq!(request_url("/me"), "https://api.spotify.com/v1/me");
}

#[test]
fn responses() {
    assert!(matches!(interpret_response(204, ""), Ok(ApiReply::NoContent)));
    assert!(matches!(interpret_response(200, " \n\t"), Ok(ApiReply::NoContent)));
    match interpret_response(200, "{\"id\":\"u1\",\"n\":2}") {
        Ok(ApiReply::Json(v)) => {
            assert_eq!(v["id"], "u1");
            assert_eq!(v["n"], 2);
        }
        _ => panic!("expected JSON"),
    }
    match interpret_response(200, "not json") {
        Err(AppError::Api { status, body }) => {
            assert_eq!(status, 200);
            assert!(!body.is_empty());
            assert_ne!(body, "not json");
        }
        _ => panic!("expected a parse failure"),
    }
    assert_eq!(
        interpret_response(404, "{\"error\":1}").err(),
        Some(AppError::Api { status: 404, body: "{\"error\":1}".to_string() })
    );
    assert_eq!(
        interpret_response(500, "").err(),
        Some(AppError::Api { status: 500, body: String::new() })
    );
}

#[test]
fn command_defaults() {
    bodiless(&api_search("q", None, None), HttpMethod::Get, "/search?q=q&type=track,album,artist,playlist&limit=20");
    bodiless(&api_search("q", Some("track"), Some(5)), HttpMethod::Get, "/search?q=q&type=track&limit=5");
    bodiless(&api_my_playlists(None), HttpMethod::Get, "/me/playlists?limit=50");
    bodiless(&api_my_playlists(Some(3)), HttpMethod::Get, "/me/playlists?limit=3");
    bodiless(&api_saved_tracks(None), HttpMethod::Get, "/me/tracks?limit=50");
    bodiless(&api_playlist_tracks("p", None, None), HttpMethod::Get, "/playlists/p/tracks?limit=100&offset=0");
    bodiless(&api_playlist_tracks("p", Some(1), Some(2)), HttpMethod::Get, "/playlists/p/tracks?limit=1&offset=2");
    match transfer_command("d", None).body {
        Some(RequestBody::TransferPlayback { play, .. }) => assert!(!play),
        _ => panic!("expected a transfer body"),
    }
    let r = play_command("d", None, Some(vec!["spotify:track:1".to_string()]), None);
    match r.body {
        Some(RequestBody::Play(b)) => {
            assert!(b.context_uri.is_none());
            assert_eq!(b.uris, Some(vec!["spotify:track:1".to_string()]));
            assert!(b.offset_position.is_none());
        }
        _ => panic!("expected a play body"),
    }
}

fn tokens(expires_at: u64) -> Tokens {
    Tokens { access_token: "acc".to_string(), refresh_token: "ref".to_string(), expires_at }
}

#[test]
fn token_actions() {
    let cid = Some("cid".to_string());
    assert_eq!(token_action_at(&None, &Some(tokens(100)), 0), Err(AppError::MissingClientId));
    assert_eq!(token_action_at(&None, &None, 0), Err(AppError::MissingClientId));
    assert_eq!(token_action_at(&cid, &None, 0), Err(AppError::NotAuthenticated));
    assert_eq!(token_action_at(&cid, &Some(tokens(1000)), 939), Ok(TokenAction::Use("acc".to_string())));
    assert_eq!(
        token_action_at(&cid, &Some(tokens(1000)), 940),
        Ok(TokenAction::Refresh { client_id: "cid".to_string(), refresh_token: "ref".to_string() })
    );
    assert_eq!(
        token_action(&cid, &Some(tokens(0))),
        Ok(TokenAction::Refresh { client_id: "cid".to_string(), refresh_token: "ref".to_string() })
    );
    assert_eq!(token_action(&cid, &Some(tokens(u64::MAX))), Ok(TokenAction::Use("acc".to_string())));
    assert_eq!(require_client_id(&cid), Ok("cid".to_string()));
    assert_eq!(require_client_id(&None), Err(AppError::MissingClientId));
}

#[test]
fn ready_line_text() {
    assert_eq!(ready_line(0), "SPOTLITE_READY_MS=0");
    assert_eq!(ready_line(1234), "SPOTLITE_READY_MS=1234");
}

#[test]
fn json_answer_is_the_document_sent() {
    for text in ["{\"a\":[1,2,{\"b\":null}]}", "[true,false]", "\"s\"", "3.5", "null"] {
        match interpret_response(200, text) {
            Ok(ApiReply::Json(v)) => assert_eq!(v, serde_json::from_str::<serde_json::Value>(text).unwrap()),
            _ => panic!("expected JSON"),
        }
    }
    match interpret_response(200, "{\"a\":1}") {
        Ok(ApiReply::Json(v)) => assert!(!v.is_null()),
        _ => panic!("expected JSON"),
    }
}

#[test]
fn refreshed_bundle_is_held() {
    let mut held = Some(tokens(1));
    let fresh = Tokens { access_token: "new".to_string(), refresh_token: "r2".to_string(), expires_at: 99 };
    let access = adopt_refreshed(&mut held, fresh.clone());
    assert_eq!(access, "new");
    assert_eq!(held, Some(fresh));
    let mut none: Option<Tokens> = None;
    let t = Tokens { access_token: "x".to_string(), refresh_token: "y".to_string(), expires_at: 0 };
    assert_eq!(adopt_refreshed(&mut none, t), "x");
    assert!(none.is_some());
}
