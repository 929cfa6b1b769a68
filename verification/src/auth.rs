//! OAuth 2.0 Authorization Code flow with PKCE (RFC 7636).
//!
//! 1. Generate a random `code_verifier` and its S256 `code_challenge`.
//! 2. Send the user to the authorize URL built here.
//! 3. The loopback server hands every request it receives to
//!    [`callback_reply`], which recognises the redirect carrying the `code`.
//! 4. Exchange the `code` (and verifier) for tokens: [`exchange_code`] says
//!    what to post, [`token_status`] and [`tokens_from_response`] read the answer.
//! 5. Later, [`refresh`] the access token as it nears expiry.
use rand::Rng;
use vstd::prelude::*;
use vstd::utf8::encode_utf8;

use crate::config::{AUTH_URL, REDIRECT_URI, SCOPES};
use crate::encoding::{
    form_decode_query, is_query_char, lemma_form_query_chars, lemma_form_query_decodes,
    append_query_pair, b64url, b64url_encode, form_query, is_b64url_char, lemma_b64url_shape, sha256,
    sha256_digest,
};
use crate::error::{AppError, AppResult};
use crate::text::{push_char, same_text};
use crate::token_store::Tokens;

verus! {

/// Characters allowed in a PKCE verifier (RFC 3986 "unreserved"): ASCII
/// letters and digits and `-`, `.`, `_`, `~`.
pub open spec fn is_unreserved(c: char) -> bool {
    ||| 'A' <= c <= 'Z'
    ||| 'a' <= c <= 'z'
    ||| '0' <= c <= '9'
    ||| c == '-'
    ||| c == '.'
    ||| c == '_'
    ||| c == '~'
}

/// Whether every character of `s` is unreserved.
pub open spec fn all_unreserved(s: Seq<char>) -> bool {
    forall|k: int| 0 <= k < s.len() ==> is_unreserved(#[trigger] s[k])
}

/// The alphabet random tokens are drawn from, by index `i < 66`:
/// `A`-`Z`, `a`-`z`, `0`-`9`, then `-`, `.`, `_`, `~`.
pub open spec fn token_alphabet(i: int) -> char {
    if i < 26 {
        (i + 65) as char
    } else if i < 52 {
        (i - 26 + 97) as char
    } else if i < 62 {
        (i - 52 + 48) as char
    } else if i == 62 {
        '-'
    } else if i == 63 {
        '.'
    } else if i == 64 {
        '_'
    } else {
        '~'
    }
}

/// Number of characters in the token alphabet.
pub const TOKEN_ALPHABET_LEN: usize = 66;

/// Length of the PKCE code verifier.
pub const VERIFIER_LEN: usize = 96;

/// Length of the anti-CSRF `state` value.
pub const STATE_LEN: usize = 24;

fn token_char(i: usize) -> (c: char)
    requires
        i < 66,
    ensures
        c == token_alphabet(i as int),
        is_unreserved(c),
{
    if i < 26 {
        ((i as u8) + 65) as char
    } else if i < 52 {
        ((i as u8) - 26 + 97) as char
    } else if i < 62 {
        ((i as u8) - 52 + 48) as char
    } else if i == 62 {
        '-'
    } else if i == 63 {
        '.'
    } else if i == 64 {
        '_'
    } else {
        '~'
    }
}

/// `rand::thread_rng().gen_range(0..n)`: a random index below `n`. Which
/// index comes out is left open; it is chance.
#[verifier::external_body]
fn random_below(n: usize) -> (r: usize)
    requires
        n > 0,
    ensures
        r < n,
{
    rand::thread_rng().gen_range(0..n)
}

/// A random string of `len` characters from the token alphabet.
pub fn random_token(len: usize) -> (r: String)
    ensures
        r@.len() == len,
        all_unreserved(r@),
{
    let mut s = String::new();
    let mut i: usize = 0;
    while i < len
        invariant
            i <= len,
            s@.len() == i,
            all_unreserved(s@),
        decreases len - i,
    {
        let c = token_char(random_below(TOKEN_ALPHABET_LEN));
        push_char(&mut s, c);
        i = i + 1;
    }
    s
}

/// The S256 code challenge of a verifier: unpadded URL-safe base64 of the
/// SHA-256 digest of its UTF-8 bytes.
pub open spec fn s256_challenge(verifier: Seq<char>) -> Seq<char> {
    b64url(sha256(encode_utf8(verifier)))
}

/// The S256 code challenge of `verifier`. It is always 43 characters of
/// unpadded URL-safe base64, the encoding of a 32-byte digest, as RFC 7636
/// requires.
pub fn code_challenge(verifier: &str) -> (r: String)
    ensures
        r@ == s256_challenge(verifier@),
        r@.len() == 43,
        forall|k: int| 0 <= k < r@.len() ==> is_b64url_char(#[trigger] r@[k]),
{
    let digest = sha256_digest(verifier.as_bytes());
    proof {
        lemma_b64url_shape(digest@);
    }
    b64url_encode(digest.as_slice())
}

/// The PKCE secrets held between building the authorize URL and exchanging
/// the code.
pub struct Pkce {
    pub verifier: String,
    pub challenge: String,
    pub state: String,
}

impl Pkce {
    /// A fresh verifier (96 characters), its S256 challenge, and a fresh
    /// `state` (24 characters). The verifier meets RFC 7636: between 43
    /// and 128 unreserved characters.
    pub fn new() -> (p: Self)
        ensures
            p.verifier@.len() == VERIFIER_LEN,
            all_unreserved(p.verifier@),
            p.challenge@ == s256_challenge(p.verifier@),
            p.challenge@.len() == 43,
            p.state@.len() == STATE_LEN,
            all_unreserved(p.state@),
    {
        let verifier = random_token(VERIFIER_LEN);
        let challenge = code_challenge(verifier.as_str());
        let state = random_token(STATE_LEN);
        Pkce { verifier, challenge, state }
    }
}

/// The query parameters of the authorize request, in order.
pub open spec fn authorize_params(client_id: Seq<char>, challenge: Seq<char>, state: Seq<char>) -> Seq<
    (Seq<char>, Seq<char>),
> {
    seq![
        ("client_id"@, client_id),
        ("response_type"@, "code"@),
        ("redirect_uri"@, REDIRECT_URI@),
        ("scope"@, SCOPES@),
        ("code_challenge_method"@, "S256"@),
        ("code_challenge"@, challenge),
        ("state"@, state),
    ]
}

/// The authorize URL: the endpoint, `?`, and the form-urlencoded parameters.
pub open spec fn authorize_url_text(client_id: Seq<char>, challenge: Seq<char>, state: Seq<char>) -> Seq<
    char,
> {
    AUTH_URL@ + seq!['?'] + form_query(authorize_params(client_id, challenge, state))
}

/// The authorize URL is the endpoint (which holds no `?` or `#`), a `?`, and
/// a query without `#`, so the whole query is the part after the `?`; and
/// parsing that query gives back exactly the seven parameters, in order,
/// whatever characters the client id, challenge and state hold. The
/// verifier is not among them: the text depends on the client id, the
/// challenge and the state alone.
pub proof fn lemma_authorize_url_parses_back(client_id: Seq<char>, challenge: Seq<char>, state: Seq<char>)
    ensures
        authorize_url_text(client_id, challenge, state) == AUTH_URL@ + seq!['?'] + form_query(
            authorize_params(client_id, challenge, state),
        ),
        forall|k: int| 0 <= k < AUTH_URL@.len() ==> #[trigger] AUTH_URL@[k] != '?' && AUTH_URL@[k] != '#',
        forall|k: int|
            0 <= k < form_query(authorize_params(client_id, challenge, state)).len()
                ==> #[trigger] form_query(authorize_params(client_id, challenge, state))[k] != '#',
        form_decode_query(form_query(authorize_params(client_id, challenge, state))) == Some(
            authorize_params(client_id, challenge, state),
        ),
{
    let params = authorize_params(client_id, challenge, state);
    lemma_form_query_decodes(params);
    lemma_form_query_chars(params);
    reveal_strlit("https://accounts.spotify.com/authorize");
    assert forall|k: int| 0 <= k < form_query(params).len() implies #[trigger] form_query(params)[k] != '#' by {
        assert(is_query_char(form_query(params)[k]));
    }
}

/// The Spotify authorize URL for this client and PKCE challenge.
pub fn authorize_url(client_id: &str, pkce: &Pkce) -> (r: String)
    ensures
        r@ == authorize_url_text(client_id@, pkce.challenge@, pkce.state@),
{
    let ghost prefix = AUTH_URL@ + seq!['?'];
    let ghost target = authorize_params(client_id@, pkce.challenge@, pkce.state@);
    let mut url = String::from_str(AUTH_URL);
    url.append("?");
    proof {
        reveal_strlit("?");
        assert(url@ =~= prefix + form_query(target.take(0)));
    }
    append_query_pair(&mut url, Ghost(target.take(0)), Ghost(prefix), true, "client_id", client_id);
    assert(target.take(0).push(("client_id"@, client_id@)) =~= target.take(1));
    append_query_pair(&mut url, Ghost(target.take(1)), Ghost(prefix), false, "response_type", "code");
    assert(target.take(1).push(("response_type"@, "code"@)) =~= target.take(2));
    append_query_pair(&mut url, Ghost(target.take(2)), Ghost(prefix), false, "redirect_uri", REDIRECT_URI);
    assert(target.take(2).push(("redirect_uri"@, REDIRECT_URI@)) =~= target.take(3));
    append_query_pair(&mut url, Ghost(target.take(3)), Ghost(prefix), false, "scope", SCOPES);
    assert(target.take(3).push(("scope"@, SCOPES@)) =~= target.take(4));
    append_query_pair(
        &mut url,
        Ghost(target.take(4)),
        Ghost(prefix),
        false,
        "code_challenge_method",
        "S256",
    );
    assert(target.take(4).push(("code_challenge_method"@, "S256"@)) =~= target.take(5));
    append_query_pair(
        &mut url,
        Ghost(target.take(5)),
        Ghost(prefix),
        false,
        "code_challenge",
        pkce.challenge.as_str(),
    );
    assert(target.take(5).push(("code_challenge"@, pkce.challenge@)) =~= target.take(6));
    append_query_pair(&mut url, Ghost(target.take(6)), Ghost(prefix), false, "state", pkce.state.as_str());
    assert(target.take(6).push(("state"@, pkce.state@)) =~= target);
    url
}


/// The text of each name/value pair.
pub open spec fn pair_views(q: Seq<(String, String)>) -> Seq<(Seq<char>, Seq<char>)> {
    q.map_values(|kv: (String, String)| (kv.0@, kv.1@))
}

/// The value of the last pair named `key`, if any: when a name repeats, the
/// last occurrence wins.
pub open spec fn last_value(pairs: Seq<(Seq<char>, Seq<char>)>, key: Seq<char>) -> Option<Seq<char>>
    decreases pairs.len(),
{
    if pairs.len() == 0 {
        None
    } else if pairs.last().0 == key {
        Some(pairs.last().1)
    } else {
        last_value(pairs.drop_last(), key)
    }
}

/// How the redirect to the loopback server ends the login.
pub enum Verdict {
    /// The user or Spotify refused; the `error` parameter says why.
    Denied(Seq<char>),
    /// The `state` parameter is missing or differs from the one sent.
    StateMismatch,
    /// Authorization granted with this code.
    Granted(Seq<char>),
    /// No error, the right state, but no code.
    MissingCode,
}

/// The verdict on the query pairs of the redirect, given the `state` that was
/// sent: a reported error comes first, then the state check, then the code.
pub open spec fn callback_verdict(expected_state: Seq<char>, pairs: Seq<(Seq<char>, Seq<char>)>) -> Verdict {
    match last_value(pairs, "error"@) {
        Some(e) => Verdict::Denied(e),
        None => if last_value(pairs, "state"@) != Some(expected_state) {
            Verdict::StateMismatch
        } else {
            match last_value(pairs, "code"@) {
                Some(c) => Verdict::Granted(c),
                None => Verdict::MissingCode,
            }
        },
    }
}

/// A login only yields a code from a redirect that reports no error and
/// carries exactly the `state` that was sent, which defeats cross-site
/// request forgery of the redirect.
pub proof fn lemma_code_needs_matching_state(expected_state: Seq<char>, pairs: Seq<(Seq<char>, Seq<char>)>)
    ensures
        callback_verdict(expected_state, pairs) matches Verdict::Granted(c) ==> {
            &&& last_value(pairs, "state"@) == Some(expected_state)
            &&& last_value(pairs, "error"@) is None
            &&& last_value(pairs, "code"@) == Some(c)
        },
{
}

/// Completeness of the redirect check: a redirect that reports no error and
/// carries exactly the `state` that was sent, with a code, is granted with
/// that code, whatever the lengths or characters of the state and the code.
pub proof fn lemma_matching_state_grants_code(
    expected_state: Seq<char>,
    pairs: Seq<(Seq<char>, Seq<char>)>,
    code: Seq<char>,
)
    requires
        last_value(pairs, "error"@) is None,
        last_value(pairs, "state"@) == Some(expected_state),
        last_value(pairs, "code"@) == Some(code),
    ensures
        callback_verdict(expected_state, pairs) == Verdict::Granted(code),
{
}

/// The message shown in the browser tab for a verdict.
pub open spec fn verdict_body(v: Verdict) -> Seq<char> {
    match v {
        Verdict::Denied(_) => "Spotlite login failed. You can close this tab."@,
        Verdict::StateMismatch => "Spotlite login failed (state mismatch). You can close this tab."@,
        Verdict::Granted(_) => "Spotlite is now connected. You can close this tab and return to the app."@,
        Verdict::MissingCode => "Spotlite login failed (no code). You can close this tab."@,
    }
}

/// The text of the `Auth` error a failed verdict ends the login with.
pub open spec fn verdict_error(v: Verdict) -> Seq<char> {
    match v {
        Verdict::Denied(e) => "authorization denied: "@ + e,
        Verdict::StateMismatch => "state mismatch (possible CSRF)"@,
        _ => "no authorization code in redirect"@,
    }
}

/// Start of the page returned to the browser, up to the message.
pub const PAGE_HEAD: &'static str = "<!doctype html><html><head><meta charset=\"utf-8\"><title>Spotlite</title></head><body style=\"font-family:sans-serif;background:#121212;color:#fff;display:flex;align-items:center;justify-content:center;height:100vh;margin:0\"><h2>";

/// End of the page returned to the browser, after the message.
pub const PAGE_TAIL: &'static str = "</h2></body></html>";

/// The HTML page that shows `body`.
pub open spec fn callback_page(body: Seq<char>) -> Seq<char> {
    PAGE_HEAD@ + body + PAGE_TAIL@
}

/// Path of the redirect on the loopback server.
pub const CALLBACK_PATH: &'static str = "/callback";

/// What to do with one request that reached the loopback server.
pub enum CallbackReply {
    /// Not the redirect path: answer 404 "Not found" and keep waiting.
    NotFound,
    /// The redirect: answer with `page` (HTML) and end the wait with `result`.
    Finished { page: String, result: AppResult<String> },
    /// The request target does not form a URL: end the wait with this error,
    /// without answering.
    Unreadable(AppError),
}

/// `r` finishes the login as verdict `v` says: the page shows the verdict's
/// message, and the result is the granted code or the verdict's `Auth` error.
pub open spec fn finishes_as(r: CallbackReply, v: Verdict) -> bool {
    match r {
        CallbackReply::Finished { page, result } => {
            &&& page@ == callback_page(verdict_body(v))
            &&& match v {
                Verdict::Granted(c) => result matches Ok(code) && code@ == c,
                _ => result matches Err(AppError::Auth(m)) && m@ == verdict_error(v),
            }
        },
        _ => false,
    }
}

/// The reply to a request for `path` with query `pairs`.
pub open spec fn replies_to(r: CallbackReply, expected_state: Seq<char>, path: Seq<char>, pairs: Seq<(Seq<char>, Seq<char>)>) -> bool {
    if path == CALLBACK_PATH@ {
        finishes_as(r, callback_verdict(expected_state, pairs))
    } else {
        r is NotFound
    }
}

proof fn lemma_last_value_step(pairs: Seq<(Seq<char>, Seq<char>)>, i: int, key: Seq<char>)
    requires
        0 <= i < pairs.len(),
    ensures
        last_value(pairs.take(i + 1), key) == if pairs[i].0 == key {
            Some(pairs[i].1)
        } else {
            last_value(pairs.take(i), key)
        },
{
    assert(pairs.take(i + 1).drop_last() =~= pairs.take(i));
}

/// The optional text of an optional string.
pub open spec fn opt_view(o: Option<String>) -> Option<Seq<char>> {
    match o {
        Some(s) => Some(s@),
        None => None,
    }
}

/// Decides on a request for `path` whose query holds `pairs`, given the
/// `state` sent with the authorize URL. Only a redirect that reports no
/// error and carries the expected state yields the code.
pub fn callback_decision(expected_state: &str, path: &str, pairs: &Vec<(String, String)>) -> (r: CallbackReply)
    ensures
        replies_to(r, expected_state@, path@, pair_views(pairs@)),
{
    if !same_text(path, CALLBACK_PATH) {
        return CallbackReply::NotFound;
    }
    let ghost pv = pair_views(pairs@);
    let mut code: Option<String> = None;
    let mut state: Option<String> = None;
    let mut error: Option<String> = None;
    let n = pairs.len();
    let mut i: usize = 0;
    proof {
        reveal_strlit("code");
        reveal_strlit("state");
        reveal_strlit("error");
        assert(pv.take(0) =~= Seq::<(Seq<char>, Seq<char>)>::empty());
    }
    while i < n
        invariant
            n == pairs@.len(),
            pv == pair_views(pairs@),
            i <= n,
            opt_view(code) == last_value(pv.take(i as int), "code"@),
            opt_view(state) == last_value(pv.take(i as int), "state"@),
            opt_view(error) == last_value(pv.take(i as int), "error"@),
        decreases n - i,
    {
        let (k, v) = (&pairs[i].0, &pairs[i].1);
        proof {
            reveal_strlit("code");
            reveal_strlit("state");
            reveal_strlit("error");
            assert("code"@.len() == 4 && "state"@.len() == 5 && "error"@.len() == 5);
            assert("state"@[0] == 's' && "error"@[0] == 'e');
            lemma_last_value_step(pv, i as int, "code"@);
            lemma_last_value_step(pv, i as int, "state"@);
            lemma_last_value_step(pv, i as int, "error"@);
            assert(pv[i as int] == (k@, v@));
        }
        if same_text(k.as_str(), "code") {
            code = Some(v.clone());
        } else if same_text(k.as_str(), "state") {
            state = Some(v.clone());
        } else if same_text(k.as_str(), "error") {
            error = Some(v.clone());
        }
        i = i + 1;
    }
    assert(pv.take(n as int) =~= pv);
    let state_ok = match &state {
        Some(s) => same_text(s.as_str(), expected_state),
        None => false,
    };
    let (body, result): (String, AppResult<String>) = match error {
        Some(e) => (
            String::from_str("Spotlite login failed. You can close this tab."),
            Err(AppError::Auth(String::from_str("authorization denied: ").concat(e.as_str()))),
        ),
        None => if !state_ok {
            (
                String::from_str("Spotlite login failed (state mismatch). You can close this tab."),
                Err(AppError::Auth(String::from_str("state mismatch (possible CSRF)"))),
            )
        } else {
            match code {
                Some(c) => (
                    String::from_str(
                        "Spotlite is now connected. You can close this tab and return to the app.",
                    ),
                    Ok(c),
                ),
                None => (
                    String::from_str("Spotlite login failed (no code). You can close this tab."),
                    Err(AppError::Auth(String::from_str("no authorization code in redirect"))),
                ),
            }
        },
    };
    let page = String::from_str(PAGE_HEAD).concat(body.as_str()).concat(PAGE_TAIL);
    CallbackReply::Finished { page, result }
}

/// What `url::Url::parse` makes of a URL: its path and its decoded query
/// pairs (`Url::query_pairs`), or the text of the parse error.
pub uninterp spec fn request_url_parts(url: Seq<char>) -> Result<
    (Seq<char>, Seq<(Seq<char>, Seq<char>)>),
    Seq<char>,
>;

/// `url::Url::parse`, then `Url::path` and `Url::query_pairs` (percent- and
/// `+`-decoding): the parts of `url`, or the parse error's text. The
/// parsing and decoding are named, not stated.
#[verifier::external_body]
fn split_request_url(url: &str) -> (r: Result<(String, Vec<(String, String)>), String>)
    ensures
        match r {
            Ok((p, q)) => request_url_parts(url@) == Ok::<_, Seq<char>>((p@, pair_views(q@))),
            Err(m) => request_url_parts(url@) == Err::<(Seq<char>, Seq<(Seq<char>, Seq<char>)>), _>(m@),
        },
{
    match url::Url::parse(url) {
        Ok(u) => Ok((
            u.path().to_string(),
            u.query_pairs().map(|(k, v)| (k.into_owned(), v.into_owned())).collect(),
        )),
        Err(e) => Err(e.to_string()),
    }
}

/// The error ending the login when the loopback server cannot listen.
pub fn bind_failed(reason: &str) -> (e: AppError)
    ensures
        e matches AppError::Auth(m) && m@ == "cannot bind loopback server: "@ + reason@,
{
    AppError::Auth(String::from_str("cannot bind loopback server: ").concat(reason))
}

/// The error ending the login when the loopback server stops before the
/// redirect arrives.
pub fn server_closed() -> (e: AppError)
    ensures
        e matches AppError::Auth(m) && m@ == "loopback server closed unexpectedly"@,
{
    AppError::Auth(String::from_str("loopback server closed unexpectedly"))
}

/// Body of the answer to requests for any other path than the redirect.
pub const NOT_FOUND_BODY: &'static str = "Not found";

/// Origin of the loopback server, which request targets are relative to.
pub const LOOPBACK_ORIGIN: &'static str = "http://127.0.0.1";

/// The reply to a request whose target (path and query, as the HTTP request
/// line gives it) is `request_target`.
pub fn callback_reply(expected_state: &str, request_target: &str) -> (r: CallbackReply)
    ensures
        match request_url_parts(LOOPBACK_ORIGIN@ + request_target@) {
            Ok((path, pairs)) => replies_to(r, expected_state@, path, pairs),
            Err(m) => r matches CallbackReply::Unreadable(AppError::Auth(x)) && x@ == m,
        },
{
    let full = String::from_str(LOOPBACK_ORIGIN).concat(request_target);
    match split_request_url(full.as_str()) {
        Ok((path, pairs)) => callback_decision(expected_state, path.as_str(), &pairs),
        Err(m) => CallbackReply::Unreadable(AppError::Auth(m)),
    }
}


/// What to post (form-encoded) to the token endpoint, and which refresh
/// token to keep when the answer carries none.
pub struct TokenRequest {
    pub params: Vec<(String, String)>,
    pub fallback_refresh: Option<String>,
}

/// Form parameters exchanging an authorization code for tokens.
pub open spec fn exchange_params(client_id: Seq<char>, code: Seq<char>, verifier: Seq<char>) -> Seq<
    (Seq<char>, Seq<char>),
> {
    seq![
        ("grant_type"@, "authorization_code"@),
        ("code"@, code),
        ("redirect_uri"@, REDIRECT_URI@),
        ("client_id"@, client_id),
        ("code_verifier"@, verifier),
    ]
}

/// Form parameters refreshing an access token.
pub open spec fn refresh_params(client_id: Seq<char>, refresh_token: Seq<char>) -> Seq<
    (Seq<char>, Seq<char>),
> {
    seq![
        ("grant_type"@, "refresh_token"@),
        ("refresh_token"@, refresh_token),
        ("client_id"@, client_id),
    ]
}

fn pair(k: &str, v: &str) -> (r: (String, String))
    ensures
        r.0@ == k@,
        r.1@ == v@,
{
    (String::from_str(k), String::from_str(v))
}

/// The token request exchanging an authorization code (and the PKCE
/// verifier) for a fresh token bundle.
pub fn exchange_code(client_id: &str, code: &str, verifier: &str) -> (r: TokenRequest)
    ensures
        pair_views(r.params@) == exchange_params(client_id@, code@, verifier@),
        r.fallback_refresh is None,
{
    let params = vec![
        pair("grant_type", "authorization_code"),
        pair("code", code),
        pair("redirect_uri", REDIRECT_URI),
        pair("client_id", client_id),
        pair("code_verifier", verifier),
    ];
    assert(pair_views(params@) =~= exchange_params(client_id@, code@, verifier@));
    TokenRequest { params, fallback_refresh: None }
}

/// The token request refreshing an access token with the stored refresh
/// token, which is kept when the answer carries no new one.
pub fn refresh(client_id: &str, refresh_token: &str) -> (r: TokenRequest)
    ensures
        pair_views(r.params@) == refresh_params(client_id@, refresh_token@),
        opt_view(r.fallback_refresh) == Some(refresh_token@),
{
    let params = vec![
        pair("grant_type", "refresh_token"),
        pair("refresh_token", refresh_token),
        pair("client_id", client_id),
    ];
    assert(pair_views(params@) =~= refresh_params(client_id@, refresh_token@));
    TokenRequest { params, fallback_refresh: Some(String::from_str(refresh_token)) }
}

/// Whether an HTTP status is a success (2xx).
pub open spec fn is_success(status: u16) -> bool {
    200 <= status <= 299
}

/// Checks the token endpoint's status: any non-2xx answer fails with its
/// status line (`status_text`, such as `400 Bad Request`) and body.
pub fn token_status(status: u16, status_text: &str, body: &str) -> (r: AppResult<()>)
    ensures
        is_success(status) <==> r is Ok,
        !is_success(status) ==> (r matches Err(AppError::Auth(m)) && m@ == "token endpoint "@
            + status_text@ + ": "@ + body@),
{
    if 200 <= status && status <= 299 {
        Ok(())
    } else {
        Err(
            AppError::Auth(
                String::from_str("token endpoint ").concat(status_text).concat(": ").concat(body),
            ),
        )
    }
}

/// The token endpoint's JSON answer. `refresh_token` is absent from refresh
/// answers that keep the existing refresh token.
pub struct TokenResponse {
    pub access_token: String,
    pub refresh_token: Option<String>,
    pub expires_in: u64,
}

/// The refresh token kept: the new one when the answer carries one, else the
/// fallback.
pub open spec fn kept_refresh_token(answered: Option<String>, fallback: Option<String>) -> Option<String> {
    match answered {
        Some(t) => Some(t),
        None => fallback,
    }
}

/// A refresh never loses the refresh token: with the stored token as
/// fallback, a refresh token is always kept, and it is the stored one
/// exactly when the answer carries none.
pub proof fn lemma_refresh_keeps_a_refresh_token(answered: Option<String>, stored: String)
    ensures
        kept_refresh_token(answered, Some(stored)) is Some,
        answered is None ==> kept_refresh_token(answered, Some(stored)) == Some(stored),
        answered matches Some(t) ==> kept_refresh_token(answered, Some(stored)) == Some(t),
{
}

/// A refresh token in the answer is always the one kept, whatever the
/// fallback (none included); without a fallback, exactly the answer's token
/// (or none) is kept.
pub proof fn lemma_answered_refresh_token_wins(answered: Option<String>, fallback: Option<String>)
    ensures
        answered matches Some(t) ==> kept_refresh_token(answered, fallback) == Some(t),
        kept_refresh_token(answered, None) == answered,
        answered is None ==> kept_refresh_token(answered, fallback) == fallback,
{
}

/// The token bundle from a token endpoint answer received at Unix time
/// `now`: the access token expires `expires_in` seconds later. Fails when
/// neither the answer nor the request supplies a refresh token.
pub fn tokens_from_response(resp: TokenResponse, fallback_refresh: Option<String>, now: u64) -> (r: AppResult<Tokens>)
    requires
        now + resp.expires_in <= u64::MAX,
    ensures
        r is Ok <==> kept_refresh_token(resp.refresh_token, fallback_refresh) is Some,
        r matches Ok(t) ==> {
            &&& t.access_token == resp.access_token
            &&& Some(t.refresh_token) == kept_refresh_token(resp.refresh_token, fallback_refresh)
            &&& t.expires_at == now + resp.expires_in
        },
        r matches Err(e) ==> (e matches AppError::Auth(m) && m@ == "no refresh token returned"@),
{
    let kept = match resp.refresh_token {
        Some(t) => Some(t),
        None => fallback_refresh,
    };
    match kept {
        Some(refresh_token) => Ok(
            Tokens {
                access_token: resp.access_token,
                refresh_token,
                expires_at: now + resp.expires_in,
            },
        ),
        None => Err(AppError::Auth(String::from_str("no refresh token returned"))),
    }
}

} // verus!
