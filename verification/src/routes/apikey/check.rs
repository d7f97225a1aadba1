//! Signing in with an API key, and signing out.
use vstd::prelude::*;

use crate::guards::apikey::ApiKeyError;

verus! {

/// A semester's worth of sessions, so a student signs in once and stays
/// signed in for the course rather than every browser restart.
pub const SESSION_LIFETIME_DAYS: i64 = 120;

/// Where a sign-in attempt leads, and whether the key is kept in the
/// `apikey` cookie (path `/`, `SameSite=Lax`, `SESSION_LIFETIME_DAYS` days).
pub struct SignIn {
    pub location: String,
    pub set_cookie: bool,
}

/// A known key is kept in the cookie and leads to the lecture list; an
/// unknown or ambiguous one leads back to the start, with no cookie.
pub fn check(lookup: &Result<String, ApiKeyError>) -> (r: SignIn)
    ensures
        r.set_cookie == (lookup is Ok),
        r.location@ == (if lookup is Ok { "/leclist"@ } else { "/"@ }),
{
    match lookup {
        Ok(_) => SignIn { location: "/leclist".to_owned(), set_cookie: true },
        Err(_) => SignIn { location: "/".to_owned(), set_cookie: false },
    }
}

/// The front page sends a visitor whose cookie holds a known key to the
/// lecture list, and everyone else to the sign-in page.
pub fn index(lookup: &Option<Result<String, ApiKeyError>>) -> (r: String)
    ensures
        r@ == (if lookup matches Some(Ok(_)) { "/leclist"@ } else { "/login"@ }),
{
    match lookup {
        Some(Ok(_)) => "/leclist".to_owned(),
        _ => "/login".to_owned(),
    }
}

/// Signing out replaces the cookie with an empty, already expired one and
/// leads to the sign-in page.
pub fn logout() -> (r: String)
    ensures
        r@ == "/login"@,
{
    "/login".to_owned()
}

} // verus!
