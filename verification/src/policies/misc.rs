//! The API key column: usable in queries and in its cookie, never shown.
use vstd::prelude::*;

use crate::policies::context::{AccessReason, AccessReasonView, PolicyContext};
use crate::row::SqlValue;
use crate::text::{is_prefix, starts_with, str_eq};

verus! {

/// The API key rule: it may only be bound into a `SELECT` query, or stored in
/// the `apikey` cookie.
pub open spec fn queryable_only_allows(reason: AccessReasonView) -> bool {
    match reason {
        AccessReasonView::Db(q) => is_prefix("SELECT"@, q),
        AccessReasonView::Cookie(name) => name == "apikey"@,
        _ => false,
    }
}

/// Guards the `apikey` column of `users`.
#[derive(Clone)]
pub struct QueryableOnly {}

impl QueryableOnly {
    pub fn simple_name(&self) -> (r: String)
        ensures
            r@ == "QueryableOnly"@,
    {
        "QueryableOnly".to_string()
    }

    /// Only a `SELECT` query or the `apikey` cookie may use the value.
    pub fn simple_check(&self, _context: &PolicyContext, reason: &AccessReason) -> (r: bool)
        ensures
            r == queryable_only_allows(reason@),
    {
        match reason {
            AccessReason::Db(query) => starts_with(query.as_str(), "SELECT"),
            AccessReason::Cookie(name) => str_eq(name.as_str(), "apikey"),
            _ => false,
        }
    }

    /// The policy carries no state; nothing to combine.
    pub fn simple_join_direct(&mut self, _other: &mut Self)
        ensures
            *final(self) == *old(self),
            *final(_other) == *old(_other),
    {
    }

    /// The policy of a value that arrives with a request.
    pub fn from_request() -> (r: Self) {
        QueryableOnly {}
    }

    /// The policy of a value that arrives in a cookie.
    pub fn from_cookie(_name: &str) -> (r: Self) {
        QueryableOnly {}
    }

    /// The policy of a value read from the database.
    pub fn from_row(_table: &str, _row: &Vec<SqlValue>) -> (r: Self) {
        QueryableOnly {}
    }

    /// A key may be kept in the `apikey` cookie, and bound into any `SELECT`
    /// query (the sign-in lookup of its user).
    pub proof fn lemma_key_may_be_stored_and_looked_up(query: Seq<char>)
        ensures
            queryable_only_allows(AccessReasonView::Cookie("apikey"@)),
            is_prefix("SELECT"@, query) ==> queryable_only_allows(AccessReasonView::Db(query)),
    {
    }

    /// A key is never released to be rendered or sent anywhere but in a
    /// `SELECT` query or its own cookie.
    pub proof fn lemma_never_rendered(reason: AccessReasonView)
        ensures
            reason == AccessReasonView::Other ==> !queryable_only_allows(reason),
            reason matches AccessReasonView::Custom(_) ==> !queryable_only_allows(reason),
    {
    }
}

} // verus!
