//! Signing in with an API key.
use vstd::prelude::*;

use crate::text::views;

verus! {

/// Errors that we may encounter when authenticating an API key.
#[derive(Debug, Clone, Copy, PartialEq, Eq)]
pub enum ApiKeyError {
    Ambiguous,
    Missing,
}

/// The outcome of looking a key up, given the emails of the users that hold
/// it: exactly one user signs in; none is `Missing`; several is `Ambiguous`.
pub open spec fn api_key_outcome(users: Seq<Seq<char>>) -> Result<Seq<char>, ApiKeyError> {
    if users.len() < 1 {
        Err(ApiKeyError::Missing)
    } else if users.len() > 1 {
        Err(ApiKeyError::Ambiguous)
    } else {
        Ok(users[0])
    }
}

pub open spec fn result_view(r: Result<String, ApiKeyError>) -> Result<Seq<char>, ApiKeyError> {
    match r {
        Ok(s) => Ok(s@),
        Err(e) => Err(e),
    }
}

/// Checks an API key against the users found holding it.
pub fn check_api_key(users: &Vec<String>) -> (r: Result<String, ApiKeyError>)
    ensures
        result_view(r) == api_key_outcome(views(users@)),
{
    if users.len() < 1 {
        Err(ApiKeyError::Missing)
    } else if users.len() > 1 {
        Err(ApiKeyError::Ambiguous)
    } else {
        Ok(users[0].clone())
    }
}

/// The user a request acts for: the first user holding the key in its
/// `apikey` cookie, if there is one.
pub fn context_user(users: &Vec<String>) -> (r: Option<String>)
    ensures
        match r {
            Some(u) => users@.len() > 0 && u@ == users@[0]@,
            None => users@.len() == 0,
        },
{
    if users.len() == 0 {
        None
    } else {
        Some(users[0].clone())
    }
}

} // verus!
