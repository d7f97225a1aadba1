//! Who may read the aggregate reports.
use vstd::prelude::*;

use crate::policies::context::{is_listed, listed, AccessReason, PolicyContext, PolicyContextView};
use crate::row::SqlValue;
use crate::text::str_eq;

verus! {

/// The aggregate rule: managers may read the non-sensitive aggregates, admins
/// all of them.
pub open spec fn aggregate_allowed(sensitive: bool, ctx: PolicyContextView) -> bool {
    ctx.user matches Some(u) && ((listed(ctx.managers, u) && !sensitive) || listed(ctx.admins, u))
}

/// Whether the aggregate table is a sensitive one.
pub open spec fn sensitive_table(table: Seq<char>) -> bool {
    table == "agg_gender"@
}

/// Aggregate access policy.
#[derive(Clone)]
pub struct AggregateAccessPolicy {
    sensitive: bool,
}

impl View for AggregateAccessPolicy {
    type V = bool;

    closed spec fn view(&self) -> bool {
        self.sensitive
    }
}

impl AggregateAccessPolicy {
    pub fn simple_name(&self) -> (r: String)
        ensures
            r@ == "AggregateAccessPolicy"@,
    {
        "AggregateAccessPolicy".to_string()
    }

    /// Managers pass unless the value is sensitive; admins always pass. The
    /// check is only asked for a signed-in user.
    pub fn simple_check(&self, context: &PolicyContext, _reason: &AccessReason) -> (r: bool)
        requires
            context.user is Some,
        ensures
            r == aggregate_allowed(self@, context@),
    {
        let user = context.user.as_ref().unwrap();
        (is_listed(&context.managers, user) && !self.sensitive) || is_listed(&context.admins, user)
    }

    /// The joined value is sensitive if either part is.
    pub fn simple_join_direct(&mut self, other: &mut Self)
        ensures
            final(self)@ == (old(self)@ || old(other)@),
            *final(other) == *old(other),
    {
        self.sensitive = self.sensitive || other.sensitive;
    }

    /// The policy of a row of an aggregate table.
    pub fn from_row(table: &str, _row: &Vec<SqlValue>) -> (r: Self)
        ensures
            r@ == sensitive_table(table@),
    {
        AggregateAccessPolicy { sensitive: str_eq(table, "agg_gender") }
    }

    /// Joining never widens access.
    pub proof fn lemma_join_never_widens(a: Self, b: Self, context: PolicyContextView)
        ensures
            aggregate_allowed(a@ || b@, context) ==> aggregate_allowed(a@, context)
                && aggregate_allowed(b@, context),
    {
    }
}

} // verus!
