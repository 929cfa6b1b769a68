//! The OAuth token bundle, its expiry rule, and how the outcomes of the
//! credential store are turned into results. The store itself (the platform
//! credential manager) is driven by the application around this library.
use vstd::prelude::*;

use crate::error::{AppError, AppResult};

verus! {

/// Service name of the stored credential.
pub const SERVICE: &'static str = "app.spotlite.desktop";

/// Account name of the stored credential.
pub const ACCOUNT: &'static str = "spotify-tokens";

/// The full OAuth token bundle kept between sessions.
#[derive(Debug, PartialEq, Eq)]
pub struct Tokens {
    pub access_token: String,
    pub refresh_token: String,
    /// Unix seconds at which `access_token` expires.
    pub expires_at: u64,
}

/// Seconds before the stated expiry from which a token already counts as expired.
pub open spec fn expiry_margin() -> nat {
    60
}

/// A token expiring at `expires_at` is expired at time `now` when it is past
/// expiry or within the margin of it.
pub open spec fn expired_at(expires_at: u64, now: u64) -> bool {
    now + expiry_margin() >= expires_at
}

/// Once a token counts as expired it stays expired as time goes on.
pub proof fn lemma_expiry_is_permanent(expires_at: u64, now1: u64, now2: u64)
    requires
        now1 <= now2,
        expired_at(expires_at, now1),
    ensures
        expired_at(expires_at, now2),
{
}

/// The expiry rule in closed form: a token is expired exactly when the time
/// is at most 60 seconds before its expiry, or later; in particular at and
/// after its expiry.
pub proof fn lemma_expiry_rule(expires_at: u64, now: u64)
    ensures
        expired_at(expires_at, now) <==> now as int + 60 >= expires_at as int,
        now >= expires_at ==> expired_at(expires_at, now),
        now as int + 60 < expires_at as int ==> !expired_at(expires_at, now),
{
}

impl Clone for Tokens {
    fn clone(&self) -> (r: Self)
        ensures
            r == *self,
    {
        Tokens {
            access_token: self.access_token.clone(),
            refresh_token: self.refresh_token.clone(),
            expires_at: self.expires_at,
        }
    }
}

impl Tokens {
    /// True when the access token is expired or within 60 s of expiring at
    /// Unix time `now`.
    pub fn is_expired_at(&self, now: u64) -> (r: bool)
        ensures
            r == expired_at(self.expires_at, now),
    {
        if self.expires_at <= 60 {
            true
        } else {
            now >= self.expires_at - 60
        }
    }

    /// True when the access token is expired or within 60 s of expiring now.
    /// The clock is read here, so only what holds at every time is stated: a
    /// token that expires within the first minute of the epoch is always
    /// expired.
    pub fn is_expired(&self) -> (r: bool)
        ensures
            self.expires_at <= expiry_margin() ==> r,
    {
        self.is_expired_at(now_secs())
    }
}

#[verifier::external_type_specification]
#[verifier::external_body]
pub struct ExSystemTime(std::time::SystemTime);

/// `std::time::SystemTime::now`: the current system time.
#[verifier::external_body]
fn system_now() -> std::time::SystemTime {
    std::time::SystemTime::now()
}

/// `SystemTime::duration_since(UNIX_EPOCH)`, in whole seconds; `None` when
/// the time lies before the epoch. Nothing is stated of the value: it is
/// the machine's clock.
#[verifier::external_body]
fn secs_since_unix_epoch(t: &std::time::SystemTime) -> Option<u64> {
    t.duration_since(std::time::UNIX_EPOCH).ok().map(|d| d.as_secs())
}

/// Seconds since the epoch from a clock reading: the whole seconds elapsed,
/// or 0 for a reading before the epoch (`None`).
pub fn secs_or_zero(since_epoch: Option<u64>) -> (r: u64)
    ensures
        r == match since_epoch {
            Some(s) => s,
            None => 0,
        },
{
    match since_epoch {
        Some(s) => s,
        None => 0,
    }
}

/// Current Unix time in seconds; 0 when the clock reads before the epoch.
/// The clock is read here, so nothing is stated of the value; how a reading
/// becomes seconds is [`secs_or_zero`].
pub fn now_secs() -> u64 {
    let t = system_now();
    secs_or_zero(secs_since_unix_epoch(&t))
}

/// What reading the stored credential gave: the stored bundle (or why its
/// text could not be read back as a bundle), no stored credential at all,
/// or a failure of the store with its description.
pub enum StoredRead {
    Found(Result<Tokens, String>),
    NoEntry,
    Failed(String),
}

/// What a write or delete on the store gave.
pub enum StoreOutcome {
    Done,
    NoEntry,
    Failed(String),
}

/// The persisted token bundle, if any: a missing credential is no error.
pub fn load(read: StoredRead) -> (r: AppResult<Option<Tokens>>)
    ensures
        r == (match read {
            StoredRead::Found(Ok(t)) => Ok(Some(t)),
            StoredRead::Found(Err(m)) => Err(AppError::Store(m)),
            StoredRead::NoEntry => Ok(None),
            StoredRead::Failed(m) => Err(AppError::Store(m)),
        }),
{
    match read {
        StoredRead::Found(Ok(t)) => Ok(Some(t)),
        StoredRead::Found(Err(m)) => Err(AppError::Store(m)),
        StoredRead::NoEntry => Ok(None),
        StoredRead::Failed(m) => Err(AppError::Store(m)),
    }
}

/// Result of persisting the bundle: the store's failure, with its
/// description, is a `Store` error.
pub fn save(written: Result<(), String>) -> (r: AppResult<()>)
    ensures
        r == (match written {
            Ok(()) => Ok(()),
            Err(m) => Err(AppError::Store(m)),
        }),
{
    match written {
        Ok(()) => Ok(()),
        Err(m) => Err(AppError::Store(m)),
    }
}

/// Result of removing the stored credential (logout): removing what is not
/// there succeeds.
pub fn clear(deleted: StoreOutcome) -> (r: AppResult<()>)
    ensures
        r == (match deleted {
            StoreOutcome::Failed(m) => Err(AppError::Store(m)),
            _ => Ok(()),
        }),
{
    match deleted {
        StoreOutcome::Failed(m) => Err(AppError::Store(m)),
        _ => Ok(()),
    }
}

} // verus!
