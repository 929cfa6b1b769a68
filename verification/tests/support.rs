use spotlite::config::{resolve_client_id, API_BASE, AUTH_URL, REDIRECT_PORT, REDIRECT_URI, SCOPES, TOKEN_URL};
use spotlite::spotify_api::search;
use spotlite::error::AppError;
use spotlite::media_keys::{media_key_action, media_key_event, MediaKey};
use spotlite::text::{decimal_string, same_text, trim};
use spotlite::token_store::{clear, load, now_secs, save, secs_or_zero, StoreOutcome, StoredRead, Tokens};

#[test]
fn decimal_rendering() {
    assert_eq!(decimal_string(0), "0");
    assert_eq!(decimal_string(7), "7");
    assert_eq!(decimal_string(10), "10");
    assert_eq!(decimal_string(1_000_000_007), "1000000007");
    assert_eq!(decimal_string(u128::MAX), u128::MAX.to_string());
}

#[test]
fn trimming_matches_str_trim() {
    for s in ["", "   ", "a", "  a b  ", "\t\nx\r\n", "\u{3000}id\u{a0}", "\u{85}\u{2028}", "x\u{200b}"] {
        assert_eq!(trim(s), s.trim());
    }
}

#[test]
fn text_equality() {
    assert!(same_text("abc", "abc"));
    assert!(!same_text("abc", "abd"));
    assert!(!same_text("ab", "abc"));
    assert!(same_text("", ""));
}

#[test]
fn form_urlencoding() {
    let q = |s: &str| search(s, "t", 1).path_and_query;
    assert_eq!(q("a b&c=d/é~*"), "/search?q=a+b%26c%3Dd%2F%C3%A9%7E*&type=t&limit=1");
    assert_eq!(q("AZaz09-._"), "/search?q=AZaz09-._&type=t&limit=1");
    assert_eq!(q(""), "/search?q=&type=t&limit=1");
    assert_eq!(q("\u{7f}\u{0}\u{1F600}"), "/search?q=%7F%00%F0%9F%98%80&type=t&limit=1");
}

#[test]
fn configuration() {
    assert_eq!(REDIRECT_PORT, 8888);
    assert_eq!(REDIRECT_URI, "http://127.0.0.1:8888/callback");
    assert_eq!(AUTH_URL, "https://accounts.spotify.com/authorize");
    assert_eq!(TOKEN_URL, "https://accounts.spotify.com/api/token");
    assert_eq!(API_BASE, "https://api.spotify.com/v1");
    assert_eq!(SCOPES.split(' ').count(), 9);
}

#[test]
fn client_id_resolution() {
    assert_eq!(resolve_client_id(Some("  abc \n"), Some("baked")), Some("abc".to_string()));
    assert_eq!(resolve_client_id(Some("   "), Some(" baked ")), Some("baked".to_string()));
    assert_eq!(resolve_client_id(None, Some("baked")), Some("baked".to_string()));
    assert_eq!(resolve_client_id(None, Some("")), None);
    assert_eq!(resolve_client_id(Some(""), None), None);
    assert_eq!(resolve_client_id(None, None), None);
}

#[test]
fn error_messages() {
    assert_eq!(AppError::MissingClientId.message(), "no Spotify client id configured; set SPOTLITE_CLIENT_ID");
    assert_eq!(AppError::NotAuthenticated.message(), "not authenticated; log in first");
    assert_eq!(AppError::Auth("x".to_string()).message(), "authentication flow failed: x");
    assert_eq!(
        AppError::Api { status: 404, body: "nope".to_string() }.message(),
        "Spotify API error (404): nope"
    );
    assert_eq!(AppError::Network("down".to_string()).message(), "network error: down");
    assert_eq!(AppError::Store("locked".to_string()).message(), "token store error: locked");
}

fn tokens(expires_at: u64) -> Tokens {
    Tokens { access_token: "a".to_string(), refresh_token: "r".to_string(), expires_at }
}

#[test]
fn expiry_rule() {
    assert!(tokens(100).is_expired_at(40));
    assert!(!tokens(100).is_expired_at(39));
    assert!(tokens(0).is_expired_at(0));
    assert!(tokens(60).is_expired_at(0));
    assert!(!tokens(61).is_expired_at(0));
    assert!(tokens(5).is_expired_at(u64::MAX));
    assert!(tokens(u64::MAX).is_expired_at(u64::MAX));
    assert!(!tokens(u64::MAX).is_expired_at(u64::MAX - 61));
    assert!(tokens(30).is_expired());
    assert!(!tokens(u64::MAX).is_expired());
}

#[test]
fn expiry_is_permanent() {
    let t = tokens(1_000);
    let mut expired = false;
    for now in 900..1_100 {
        let e = t.is_expired_at(now);
        assert!(!expired || e);
        expired = e;
    }
    assert!(expired);
}

#[test]
fn clock_reads_after_2020() {
    assert!(now_secs() > 1_600_000_000);
}

#[test]
fn store_outcomes() {
    assert_eq!(load(StoredRead::Found(Ok(tokens(5)))), Ok(Some(tokens(5))));
    assert_eq!(load(StoredRead::Found(Err("bad json".to_string()))), Err(AppError::Store("bad json".to_string())));
    assert_eq!(load(StoredRead::NoEntry), Ok(None));
    assert_eq!(load(StoredRead::Failed("locked".to_string())), Err(AppError::Store("locked".to_string())));
    assert_eq!(save(Ok(())), Ok(()));
    assert_eq!(save(Err("full".to_string())), Err(AppError::Store("full".to_string())));
    assert_eq!(clear(StoreOutcome::Done), Ok(()));
    assert_eq!(clear(StoreOutcome::NoEntry), Ok(()));
    assert_eq!(clear(StoreOutcome::Failed("x".to_string())), Err(AppError::Store("x".to_string())));
}

#[test]
fn media_keys() {
    assert_eq!(media_key_action(MediaKey::PlayPause), "playpause");
    assert_eq!(media_key_action(MediaKey::Next), "next");
    assert_eq!(media_key_action(MediaKey::Previous), "previous");
    assert_eq!(media_key_event(MediaKey::Next, true), Some("next"));
    assert_eq!(media_key_event(MediaKey::Next, false), None);
}

#[test]
fn clock_reading_to_seconds() {
    assert_eq!(secs_or_zero(Some(1_700_000_000)), 1_700_000_000);
    assert_eq!(secs_or_zero(Some(u64::MAX)), u64::MAX);
    assert_eq!(secs_or_zero(None), 0);
}
