//! What may be released to employers.
use vstd::prelude::*;

use crate::policies::context::{is_listed, listed, AccessReason, PolicyContext, PolicyContextView};
use crate::row::{sql_bool, sql_bool_of, SqlValue};

verus! {

/// The release rule: a manager asks, and the student consented.
pub open spec fn release_allowed(consent: bool, ctx: PolicyContextView) -> bool {
    ctx.user matches Some(u) && listed(ctx.managers, u) && consent
}

/// Release-to-employers policy.
#[derive(Clone)]
pub struct EmployersReleasePolicy {
    consent: bool,
}

impl View for EmployersReleasePolicy {
    type V = bool;

    closed spec fn view(&self) -> bool {
        self.consent
    }
}

impl EmployersReleasePolicy {
    pub fn simple_name(&self) -> (r: String)
        ensures
            r@ == "EmployersReleasePolicy"@,
    {
        "EmployersReleasePolicy".to_string()
    }

    /// Only managers, and only for consenting students. The check is only
    /// asked for a signed-in user.
    pub fn simple_check(&self, context: &PolicyContext, _reason: &AccessReason) -> (r: bool)
        requires
            context.user is Some,
        ensures
            r == release_allowed(self@, context@),
    {
        let user = context.user.as_ref().unwrap();
        is_listed(&context.managers, user) && self.consent
    }

    /// The joined value may be released only if both students consented.
    pub fn simple_join_direct(&mut self, other: &mut Self)
        ensures
            final(self)@ == (old(self)@ && old(other)@),
            *final(other) == *old(other),
    {
        self.consent = self.consent && other.consent;
    }

    /// The policy of an `employers_release` row: consent is column 2.
    pub fn from_row(_table: &str, row: &Vec<SqlValue>) -> (r: Self)
        requires
            2 < row@.len(),
            sql_bool(row@[2]@) is Some,
        ensures
            Some(r@) == sql_bool(row@[2]@),
    {
        EmployersReleasePolicy { consent: sql_bool_of(&row[2]) }
    }

    /// Joining never widens access.
    pub proof fn lemma_join_never_widens(a: Self, b: Self, context: PolicyContextView)
        ensures
            release_allowed(a@ && b@, context) ==> release_allowed(a@, context)
                && release_allowed(b@, context),
    {
    }
}

} // verus!
