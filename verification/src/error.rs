//! The error type shared by every fallible operation of the library.
use vstd::prelude::*;

use crate::text::{decimal, decimal_string};

verus! {

/// Everything that can go wrong while authenticating or talking to Spotify.
#[derive(Debug, PartialEq, Eq)]
pub enum AppError {
    /// No client id was configured.
    MissingClientId,
    /// No token bundle is held; the user must log in.
    NotAuthenticated,
    /// The OAuth flow failed; the text says how.
    Auth(String),
    /// The Web API answered with a failure status, or with a body that is not JSON.
    Api { status: u16, body: String },
    /// The HTTP transport failed; the text is the transport's own description.
    Network(String),
    /// The credential store failed; the text is the store's own description.
    Store(String),
}

/// `Result` with the library's error.
pub type AppResult<T> = Result<T, AppError>;

/// The human-readable text of an error, as shown to the user.
pub open spec fn error_message(e: AppError) -> Seq<char> {
    match e {
        AppError::MissingClientId => "no Spotify client id configured; set SPOTLITE_CLIENT_ID"@,
        AppError::NotAuthenticated => "not authenticated; log in first"@,
        AppError::Auth(s) => "authentication flow failed: "@ + s@,
        AppError::Api { status, body } => "Spotify API error ("@ + decimal(status as nat) + "): "@
            + body@,
        AppError::Network(s) => "network error: "@ + s@,
        AppError::Store(s) => "token store error: "@ + s@,
    }
}

impl AppError {
    /// The text of this error (what `to_string` shows).
    pub fn message(&self) -> (r: String)
        ensures
            r@ == error_message(*self),
    {
        match self {
            AppError::MissingClientId => String::from_str(
                "no Spotify client id configured; set SPOTLITE_CLIENT_ID",
            ),
            AppError::NotAuthenticated => String::from_str("not authenticated; log in first"),
            AppError::Auth(s) => String::from_str("authentication flow failed: ").concat(s.as_str()),
            AppError::Api { status, body } => {
                let code = decimal_string(*status as u128);
                String::from_str("Spotify API error (").concat(code.as_str()).concat("): ").concat(
                    body.as_str(),
                )
            },
            AppError::Network(s) => String::from_str("network error: ").concat(s.as_str()),
            AppError::Store(s) => String::from_str("token store error: ").concat(s.as_str()),
        }
    }
}

} // verus!
