//! Verified core of a lightweight Spotify desktop client: OAuth PKCE, token
//! bookkeeping, Web API request construction and response handling.
pub mod auth;
pub mod commands;
pub mod config;
pub mod encoding;
pub mod error;
pub mod media_keys;
pub mod spotify_api;
pub mod text;
pub mod token_store;
