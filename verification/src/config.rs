//! Settings of the service, the clock it reads and the passwords it makes up.
use vstd::prelude::*;
use rand::Rng;

verus! {

/// Most auth tokens a user keeps; older ones are trimmed when a new one is saved.
pub const MAX_AUTH_TOKEN: i64 = 5;

/// How long an auth token lives: 180 days, in seconds.
pub const TOKEN_LIFETIME_SECS: i64 = 15552000;

/// The hour added to UTC when the service reads "now" (it runs an hour east of UTC).
pub const NOW_OFFSET_SECS: i64 = 3600;

/// Last second (UNIX timestamp) that a date of the clock library can hold.
pub const MAX_TIMESTAMP: i64 = 8210266876799;

/// First second (UNIX timestamp) that a date of the clock library can hold.
pub const MIN_TIMESTAMP: i64 = -8334601315200;

/// Client type recorded with every auth token.
pub const CLIENT_TYPE_WEB: &'static str = "client-type-web";

/// Name of the private cookie that marks a logged-in administrator.
pub const COOKIE_NAME_AUTH_STATUS: &'static str = "auth_status_pvt";

/// Length of a generated password.
pub const PASSWORD_LEN: usize = 30;

/// An ASCII letter or digit.
pub open spec fn is_alphanumeric(c: char) -> bool {
    ('A' <= c && c <= 'Z') || ('a' <= c && c <= 'z') || ('0' <= c && c <= '9')
}

/// Calls `chrono::Utc::now()` and adds `offset` seconds with chrono's `+`.
/// Trusted: the clock reads a time after the UNIX epoch (chrono panics
/// otherwise), so the result is at least `offset`; the offset is at most
/// 180 days, so for any clock reading before the end of chrono's range of
/// dates the sum stays in that range. Nothing else is known of the time read.
#[verifier::external_body]
fn utc_now_plus_seconds(offset: i64) -> (ts: i64)
    requires
        0 <= offset <= TOKEN_LIFETIME_SECS,
    ensures
        MIN_TIMESTAMP <= ts <= MAX_TIMESTAMP,
        ts >= offset,
{
    (chrono::Utc::now() + chrono::Duration::seconds(offset)).timestamp()
}

/// The expiry of a token issued now: 180 days after the current UTC time.
pub fn get_token_duration() -> (exp: i64)
    ensures
        TOKEN_LIFETIME_SECS <= exp <= MAX_TIMESTAMP,
{
    utc_now_plus_seconds(TOKEN_LIFETIME_SECS)
}

/// The service's "now": the current UTC time plus one hour.
pub fn get_now() -> (now: i64)
    ensures
        NOW_OFFSET_SECS <= now <= MAX_TIMESTAMP,
{
    utc_now_plus_seconds(NOW_OFFSET_SECS)
}

/// Calls `rand::thread_rng().sample(Alphanumeric)`. Trusted: the crate draws
/// the character from `A-Z`, `a-z` and `0-9`; which one is left to chance.
#[verifier::external_body]
fn sample_alphanumeric() -> (c: char)
    ensures
        is_alphanumeric(c),
{
    rand::thread_rng().sample(rand::distributions::Alphanumeric)
}

/// A random password of 30 ASCII letters and digits.
pub fn generate_password() -> (res: String)
    ensures
        res@.len() == PASSWORD_LEN,
        forall|i: int| 0 <= i < res@.len() ==> is_alphanumeric(#[trigger] res@[i]),
{
    let mut res = String::new();
    let mut i: usize = 0;
    while i < PASSWORD_LEN
        invariant
            i <= PASSWORD_LEN,
            res@.len() == i,
            forall|j: int| 0 <= j < res@.len() ==> is_alphanumeric(#[trigger] res@[j]),
        decreases PASSWORD_LEN - i,
    {
        let c = sample_alphanumeric();
        crate::text::push_char(&mut res, c);
        i = i + 1;
    }
    res
}

} // verus!
