//! Pure rules of the stored login configuration: when a token is due
//! for a refresh, and the authorization header it yields.

use vstd::prelude::*;
use vstd::string::StringExecFns;

verus! {

/// How long a token may be used before a refresh is attempted.
pub const REFRESH_THRESHOLD_SECONDS: i64 = 8 * 3600;

/// Whether a stored token should be refreshed: there is a token, its
/// issue time is known, and the threshold has passed by `now` (both in
/// seconds since the Unix epoch).
pub fn token_needs_refresh(token: &String, issued_at: Option<i64>, now: i64) -> (r: bool)
    requires
        issued_at matches Some(i) ==> i <= i64::MAX - REFRESH_THRESHOLD_SECONDS,
    ensures
        r == (token@.len() > 0 && (issued_at matches Some(i) && i + REFRESH_THRESHOLD_SECONDS
            <= now)),
{
    if token.as_str().is_empty() {
        return false;
    }
    match issued_at {
        Some(i) => i + REFRESH_THRESHOLD_SECONDS <= now,
        None => false,
    }
}

/// The authorization header a bearer token produces.
pub fn get_auth_header(token: &String) -> (r: String)
    ensures
        r@ == "Bearer "@ + token@,
{
    "Bearer ".to_owned().concat(token.as_str())
}

} // verus!
