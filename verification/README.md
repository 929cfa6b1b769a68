# spotlite

The verified core of Spotlite, a lightweight Spotify desktop client built on
Tauri. Audio plays through Spotify's Web Playback SDK in the webview; login,
token bookkeeping and Web API access are handled by the Rust host.

- `src/` — the library, verified with Verus:
  - `auth` — OAuth Authorization Code flow with PKCE: verifier and S256
    challenge, the authorize URL, the decision on each request reaching the
    loopback redirect server (with the `state` check), token requests and
    how token answers become a token bundle.
  - `token_store` — the token bundle, its expiry rule, the clock, and what
    the credential store's outcomes mean.
  - `spotify_api` — every Web API call as method, path and body, and how an
    answer is read.
  - `commands` — when a stored token is used or refreshed, command defaults.
  - `config`, `error`, `encoding`, `text`, `media_keys` — configuration,
    the error type and its messages, wire encodings, string utilities, and
    the media-key actions.
- `app/` — the Tauri host around it: HTTP with `reqwest`, the loopback server
  with `tiny_http`, the credential store with `keyring`, the window and the
  global shortcuts.
- `tests/` — tests of the library.
