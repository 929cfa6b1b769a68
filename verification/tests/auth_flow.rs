use spotlite::auth::{
    authorize_url, callback_decision, callback_reply, code_challenge, exchange_code, random_token,
    refresh, token_status, tokens_from_response, CallbackReply, Pkce, TokenResponse, PAGE_HEAD,
    PAGE_TAIL,
};
use spotlite::error::AppError;

fn unreserved(c: char) -> bool {
    c.is_ascii_alphanumeric() || c == '-' || c == '.' || c == '_' || c == '~'
}

#[test]
fn random_token_has_length_and_alphabet() {
    for len in [0usize, 1, 24, 96, 200] {
        let t = random_token(len);
        assert_eq!(t.chars().count(), len);
        assert!(t.chars().all(unreserved));
    }
}

#[test]
fn code_challenge_known_answers() {
    assert_eq!(code_challenge("abc"), "ungWv48Bz-pBQUDeXa4iI7ADYaOWF3qctBD_YfIAFa0");
    assert_eq!(
        code_challenge("dBjftJeZ4CVP-mJ92K9eV5ZQk6LPC4_X9tEl0Cv_cZNJxUa3TQbKyJ8Z9J0"),
        "JMsH3C9G87pe80hpxJqHsekKZlrC8H4t3CF_VnUNDYU"
    );
}

#[test]
fn pkce_new_meets_rfc7636() {
    let p = Pkce::new();
    assert_eq!(p.verifier.len(), 96);
    assert!(p.verifier.chars().all(unreserved));
    assert_eq!(p.state.len(), 24);
    assert!(p.state.chars().all(unreserved));
    assert_eq!(p.challenge.len(), 43);
    assert_eq!(p.challenge, code_challenge(&p.verifier));
    assert!(p.challenge.chars().all(|c| c.is_ascii_alphanumeric() || c == '-' || c == '_'));
    let q = Pkce::new();
    assert_ne!(p.verifier, q.verifier);
}

#[test]
fn authorize_url_exact_text() {
    let p = Pkce { verifier: "v".to_string(), challenge: "CH-_".to_string(), state: "S t".to_string() };
    let url = authorize_url("my id&x", &p);
    assert_eq!(
        url,
        "https://accounts.spotify.com/authorize?client_id=my+id%26x&response_type=code\
         &redirect_uri=http%3A%2F%2F127.0.0.1%3A8888%2Fcallback\
         &scope=streaming+user-read-email+user-read-private+user-read-playback-state\
         +user-modify-playback-state+user-read-currently-playing+user-library-read\
         +playlist-read-private+playlist-read-collaborative\
         &code_challenge_method=S256&code_challenge=CH-_&state=S+t"
    );
}

#[test]
fn authorize_url_parses_back_to_its_parameters() {
    let p = Pkce::new();
    let url = authorize_url("é & = ?#", &p);
    let parsed = url::Url::parse(&url).unwrap();
    assert_eq!(parsed.path(), "/authorize");
    let pairs: Vec<(String, String)> = parsed.query_pairs().map(|(k, v)| (k.into_owned(), v.into_owned())).collect();
    assert_eq!(parsed.origin().ascii_serialization(), "https://accounts.spotify.com");
    let expected: Vec<(String, String)> = [
        ("client_id", "é & = ?#"),
        ("response_type", "code"),
        ("redirect_uri", spotlite::config::REDIRECT_URI),
        ("scope", spotlite::config::SCOPES),
        ("code_challenge_method", "S256"),
        ("code_challenge", p.challenge.as_str()),
        ("state", p.state.as_str()),
    ]
    .iter()
    .map(|(k, v)| (k.to_string(), v.to_string()))
    .collect();
    assert_eq!(pairs, expected);
    assert!(!url.contains(&p.verifier));
}

fn finished(r: CallbackReply) -> (String, Result<String, AppError>) {
    match r {
        CallbackReply::Finished { page, result } => (page, result),
        CallbackReply::NotFound => panic!("not found"),
        CallbackReply::Unreadable(e) => panic!("unreadable: {:?}", e),
    }
}

fn page_of(body: &str) -> String {
    format!("{}{}{}", PAGE_HEAD, body, PAGE_TAIL)
}

#[test]
fn callback_grants_code_with_matching_state() {
    let (page, result) = finished(callback_reply("xyz", "/callback?code=abc&state=xyz"));
    assert_eq!(result, Ok("abc".to_string()));
    assert_eq!(
        page,
        page_of("Spotlite is now connected. You can close this tab and return to the app.")
    );
    assert!(page.starts_with("<!doctype html><html><head><meta charset=\"utf-8\"><title>Spotlite</title></head><body style=\"font-family:sans-serif;"));
}

#[test]
fn callback_decodes_parameters() {
    let (_, result) = finished(callback_reply("s t", "/callback?state=s+t&code=a%2Fb%20c"));
    assert_eq!(result, Ok("a/b c".to_string()));
}

#[test]
fn callback_state_mismatch_is_refused() {
    let (page, result) = finished(callback_reply("xyz", "/callback?code=abc&state=evil"));
    assert_eq!(result, Err(AppError::Auth("state mismatch (possible CSRF)".to_string())));
    assert_eq!(page, page_of("Spotlite login failed (state mismatch). You can close this tab."));
    let (_, missing) = finished(callback_reply("xyz", "/callback?code=abc"));
    assert_eq!(missing, Err(AppError::Auth("state mismatch (possible CSRF)".to_string())));
}

#[test]
fn callback_error_comes_first() {
    let (page, result) = finished(callback_reply("xyz", "/callback?error=access_denied&code=abc&state=xyz"));
    assert_eq!(result, Err(AppError::Auth("authorization denied: access_denied".to_string())));
    assert_eq!(page, page_of("Spotlite login failed. You can close this tab."));
}

#[test]
fn callback_without_code() {
    let (page, result) = finished(callback_reply("xyz", "/callback?state=xyz"));
    assert_eq!(result, Err(AppError::Auth("no authorization code in redirect".to_string())));
    assert_eq!(page, page_of("Spotlite login failed (no code). You can close this tab."));
}

#[test]
fn callback_last_occurrence_wins() {
    let (_, result) = finished(callback_reply("good", "/callback?state=bad&code=1&state=good&code=2"));
    assert_eq!(result, Ok("2".to_string()));
}

#[test]
fn other_paths_are_not_found() {
    assert!(matches!(callback_reply("x", "/favicon.ico"), CallbackReply::NotFound));
    assert!(matches!(callback_reply("x", "/callbackx?code=1&state=x"), CallbackReply::NotFound));
}

#[test]
fn unreadable_target_ends_with_auth_error() {
    match callback_reply("x", ":99999/callback") {
        CallbackReply::Unreadable(AppError::Auth(m)) => assert!(!m.is_empty()),
        _ => panic!("expected an unreadable target"),
    }
}

#[test]
fn callback_decision_on_given_pairs() {
    let pairs = vec![
        ("state".to_string(), "s".to_string()),
        ("code".to_string(), "c".to_string()),
        ("other".to_string(), "o".to_string()),
    ];
    let (_, result) = finished(callback_decision("s", "/callback", &pairs));
    assert_eq!(result, Ok("c".to_string()));
    assert!(matches!(callback_decision("s", "/elsewhere", &pairs), CallbackReply::NotFound));
}

#[test]
fn exchange_and_refresh_parameters() {
    let r = exchange_code("cid", "the code", "ver");
    let expected: Vec<(String, String)> = [
        ("grant_type", "authorization_code"),
        ("code", "the code"),
        ("redirect_uri", "http://127.0.0.1:8888/callback"),
        ("client_id", "cid"),
        ("code_verifier", "ver"),
    ]
    .iter()
    .map(|(k, v)| (k.to_string(), v.to_string()))
    .collect();
    assert_eq!(r.params, expected);
    assert_eq!(r.fallback_refresh, None);

    let r = refresh("cid", "rt");
    let expected: Vec<(String, String)> = [("grant_type", "refresh_token"), ("refresh_token", "rt"), ("client_id", "cid")]
        .iter()
        .map(|(k, v)| (k.to_string(), v.to_string()))
        .collect();
    assert_eq!(r.params, expected);
    assert_eq!(r.fallback_refresh, Some("rt".to_string()));
}

#[test]
fn token_status_checks_success() {
    assert_eq!(token_status(200, "200 OK", "{}"), Ok(()));
    assert_eq!(token_status(299, "299", ""), Ok(()));
    assert_eq!(
        token_status(400, "400 Bad Request", "{\"error\":\"invalid_grant\"}"),
        Err(AppError::Auth("token endpoint 400 Bad Request: {\"error\":\"invalid_grant\"}".to_string()))
    );
    assert!(token_status(199, "199", "").is_err());
    assert!(token_status(300, "300 Multiple Choices", "").is_err());
}

#[test]
fn tokens_from_response_expiry_and_refresh_token() {
    let resp = TokenResponse { access_token: "at".to_string(), refresh_token: Some("new".to_string()), expires_in: 3600 };
    let t = tokens_from_response(resp, Some("old".to_string()), 1_000).unwrap();
    assert_eq!(t.access_token, "at");
    assert_eq!(t.refresh_token, "new");
    assert_eq!(t.expires_at, 4_600);

    let resp = TokenResponse { access_token: "at".to_string(), refresh_token: None, expires_in: 10 };
    let t = tokens_from_response(resp, Some("old".to_string()), 5).unwrap();
    assert_eq!(t.refresh_token, "old");
    assert_eq!(t.expires_at, 15);

    let resp = TokenResponse { access_token: "at".to_string(), refresh_token: None, expires_in: 10 };
    assert_eq!(
        tokens_from_response(resp, None, 5),
        Err(AppError::Auth("no refresh token returned".to_string()))
    );
}

#[test]
fn refresh_keeps_stored_refresh_token() {
    let req = refresh("cid", "stored");
    let resp = TokenResponse { access_token: "a2".to_string(), refresh_token: None, expires_in: 60 };
    let t = tokens_from_response(resp, req.fallback_refresh, 0).unwrap();
    assert_eq!(t.refresh_token, "stored");
}

#[test]
fn authorize_url_agrees_with_url_serializer() {
    for (client_id, challenge, state) in [
        ("plain", "abc", "xyz"),
        ("with space & amp", "E9Melhoa2OwvFrEMTJguCHaoeK1t8URWbuGJSstw-cM", "s~t.a_t-e"),
        ("ünï©ødé/?#=", "-_", "+%"),
    ] {
        let p = Pkce { verifier: String::new(), challenge: challenge.to_string(), state: state.to_string() };
        let mut expected = url::Url::parse("https://accounts.spotify.com/authorize").unwrap();
        expected
            .query_pairs_mut()
            .append_pair("client_id", client_id)
            .append_pair("response_type", "code")
            .append_pair("redirect_uri", "http://127.0.0.1:8888/callback")
            .append_pair(
                "scope",
                "streaming user-read-email user-read-private user-read-playback-state \
                 user-modify-playback-state user-read-currently-playing user-library-read \
                 playlist-read-private playlist-read-collaborative",
            )
            .append_pair("code_challenge_method", "S256")
            .append_pair("code_challenge", challenge)
            .append_pair("state", state);
        assert_eq!(authorize_url(client_id, &p), expected.to_string());
    }
}
