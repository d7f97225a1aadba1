//! Who may see a user's profile columns: the user and the admins.
use vstd::prelude::*;

use crate::config::opt_string_view;
use crate::policies::context::{opt_string_eq, AccessReason, PolicyContext, PolicyContextView};
use crate::policies::user_email::{join_owner, owner_or_admin, owner_or_admin_check};
use crate::row::{sql_opt_text, sql_opt_text_of, SqlValue};

verus! {

/// Access control on a user's profile (gender, age, ethnicity).
#[derive(Clone)]
pub struct UserProfilePolicy {
    owner: Option<String>,
}

impl View for UserProfilePolicy {
    type V = Option<Seq<char>>;

    closed spec fn view(&self) -> Option<Seq<char>> {
        opt_string_view(self.owner)
    }
}

impl UserProfilePolicy {
    pub fn simple_name(&self) -> (r: String)
        ensures
            r@ == "UserProfilePolicy"@,
    {
        "UserProfilePolicy".to_string()
    }

    /// Only the profile's owner and the admins may see it.
    pub fn simple_check(&self, context: &PolicyContext, _reason: &AccessReason) -> (r: bool)
        ensures
            r == owner_or_admin(self@, context@),
    {
        owner_or_admin_check(&self.owner, context)
    }

    /// The joined policy keeps an owner only where both had the same one.
    pub fn simple_join_direct(&mut self, other: &mut Self)
        ensures
            final(self)@ == join_owner(old(self)@, old(other)@),
            *final(other) == *old(other),
    {
        if !opt_string_eq(&self.owner, &other.owner) {
            self.owner = None;
        }
    }

    /// The policy of a `users` row: its owner is the email in column 0.
    pub fn from_row(_table: &str, row: &Vec<SqlValue>) -> (r: Self)
        requires
            0 < row@.len(),
            sql_opt_text(row@[0]@) is Some,
        ensures
            r@ == sql_opt_text(row@[0]@)->0,
    {
        UserProfilePolicy { owner: sql_opt_text_of(&row[0]) }
    }

    /// Joining never widens access.
    pub proof fn lemma_join_never_widens(a: Self, b: Self, context: PolicyContextView)
        ensures
            owner_or_admin(join_owner(a@, b@), context) ==> owner_or_admin(a@, context)
                && owner_or_admin(b@, context),
    {
    }
}

} // verus!
