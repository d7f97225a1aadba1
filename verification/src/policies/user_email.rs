//! Who may see an email address: its owner and the admins.
use vstd::prelude::*;

use crate::config::opt_string_view;
use crate::policies::context::{is_listed, listed, opt_string_eq, AccessReason, PolicyContext, PolicyContextView};
use crate::row::{sql_opt_text, sql_opt_text_of, SqlValue};
use crate::text::str_eq;

verus! {

/// The owner-or-admin rule: the signed-in user is the owner, or an admin.
/// Nobody who is not signed in passes.
pub open spec fn owner_or_admin(owner: Option<Seq<char>>, ctx: PolicyContextView) -> bool {
    match ctx.user {
        None => false,
        Some(u) => owner == Some(u) || listed(ctx.admins, u),
    }
}

/// Joining two owners keeps the owner only where both agree.
pub open spec fn join_owner(a: Option<Seq<char>>, b: Option<Seq<char>>) -> Option<Seq<char>> {
    if a == b {
        a
    } else {
        None
    }
}

pub fn owner_or_admin_check(owner: &Option<String>, ctx: &PolicyContext) -> (r: bool)
    ensures
        r == owner_or_admin(opt_string_view(*owner), ctx@),
{
    let user = match &ctx.user {
        None => return false,
        Some(u) => u,
    };
    if let Some(o) = owner {
        if str_eq(o.as_str(), user.as_str()) {
            return true;
        }
    }
    is_listed(&ctx.admins, user)
}

/// Where the owner's email sits in a row of each table the policy guards.
pub open spec fn email_column(table: Seq<char>) -> Option<int> {
    if table == "users"@ {
        Some(0)
    } else if table == "answers"@ {
        Some(1)
    } else if table == "presenters"@ {
        Some(2)
    } else if table == "questions_with_answers"@ {
        Some(4)
    } else {
        None
    }
}

/// Access control on email addresses (and on values that embed one, such as
/// an answer's id).
#[derive(Clone)]
pub struct UserEmailPolicy {
    owner: Option<String>,
}

impl View for UserEmailPolicy {
    type V = Option<Seq<char>>;

    closed spec fn view(&self) -> Option<Seq<char>> {
        opt_string_view(self.owner)
    }
}

impl UserEmailPolicy {
    pub fn simple_name(&self) -> (r: String)
        ensures
            r@ == "UserEmailPolicy"@,
    {
        "UserEmailPolicy".to_string()
    }

    /// Only the owner of the address and the admins may see it.
    pub fn simple_check(&self, context: &PolicyContext, _reason: &AccessReason) -> (r: bool)
        ensures
            r == owner_or_admin(self@, context@),
    {
        owner_or_admin_check(&self.owner, context)
    }

    /// Combining two values combines their owners: the result keeps an owner
    /// only where both had the same one.
    pub fn simple_join_direct(&mut self, other: &mut Self)
        ensures
            final(self)@ == join_owner(old(self)@, old(other)@),
            *final(other) == *old(other),
    {
        if !opt_string_eq(&self.owner, &other.owner) {
            self.owner = None;
        }
    }

    /// The policy of a row of `table`: its owner is the row's email column.
    pub fn from_row(table: &str, row: &Vec<SqlValue>) -> (r: Self)
        requires
            email_column(table@) matches Some(c) && c < row@.len()
                && sql_opt_text(row@[c]@) is Some,
        ensures
            r@ == sql_opt_text(row@[email_column(table@)->0]@)->0,
    {
        let col: usize = if str_eq(table, "users") {
            0
        } else if str_eq(table, "answers") {
            1
        } else if str_eq(table, "presenters") {
            2
        } else {
            4
        };
        UserEmailPolicy { owner: sql_opt_text_of(&row[col]) }
    }

    /// Joining never widens access: whoever the joined policy lets see a
    /// value, both parts let see it.
    pub proof fn lemma_join_never_widens(a: Self, b: Self, context: PolicyContextView)
        ensures
            owner_or_admin(join_owner(a@, b@), context) ==> owner_or_admin(a@, context)
                && owner_or_admin(b@, context),
    {
    }

    /// Joining a policy with itself changes nothing.
    pub proof fn lemma_join_idempotent(a: Self)
        ensures
            join_owner(a@, a@) == a@,
    {
    }

    /// The owner of an address always passes, and so does every admin; nobody
    /// passes without signing in.
    pub proof fn lemma_owner_and_admins_pass(a: Self, context: PolicyContextView)
        ensures
            context.user is None ==> !owner_or_admin(a@, context),
            context.user matches Some(u) && a@ == Some(u) ==> owner_or_admin(a@, context),
            context.user matches Some(u) && listed(context.admins, u) ==> owner_or_admin(
                a@,
                context,
            ),
    {
    }
}

/// The owner rule of values owned by `owners` and shown together: their
/// owners joined in order.
pub open spec fn joined_owners(owners: Seq<Seq<char>>) -> Option<Seq<char>>
    recommends
        owners.len() > 0,
    decreases owners.len(),
{
    if owners.len() <= 1 {
        Some(owners[0])
    } else {
        join_owner(joined_owners(owners.drop_last()), Some(owners.last()))
    }
}

/// Values owned by `owners` may be shown together: there are none, or their
/// joined owner rule lets the viewer see them.
pub open spec fn owners_visible(owners: Seq<Seq<char>>, ctx: PolicyContextView) -> bool {
    owners.len() == 0 || owner_or_admin(joined_owners(owners), ctx)
}

/// Checks the joined owner rule of values owned by `owners`.
pub fn owners_check(context: &PolicyContext, owners: &Vec<String>) -> (r: bool)
    ensures
        r == owners_visible(crate::text::views(owners@), context@),
{
    let ghost ov = crate::text::views(owners@);
    if owners.len() == 0 {
        return true;
    }
    let mut joined = UserEmailPolicy { owner: Some(owners[0].clone()) };
    let mut i: usize = 1;
    while i < owners.len()
        invariant
            1 <= i <= owners@.len(),
            ov == crate::text::views(owners@),
            joined@ == joined_owners(ov.take(i as int)),
        decreases owners@.len() - i,
    {
        assert(ov.take(i + 1).drop_last() =~= ov.take(i as int));
        let mut next = UserEmailPolicy { owner: Some(owners[i].clone()) };
        joined.simple_join_direct(&mut next);
        i = i + 1;
    }
    assert(ov.take(owners@.len() as int) =~= ov);
    joined.simple_check(context, &AccessReason::Other)
}

/// Every one of `owners` is `u`.
pub open spec fn all_owned_by(owners: Seq<Seq<char>>, u: Seq<char>) -> bool {
    forall|i: int| 0 <= i < owners.len() ==> owners[i] == u
}

proof fn lemma_joined_owners(owners: Seq<Seq<char>>, u: Seq<char>)
    requires
        owners.len() > 0,
    ensures
        joined_owners(owners) == Some(u) <==> all_owned_by(owners, u),
    decreases owners.len(),
{
    if owners.len() > 1 {
        let prev = owners.drop_last();
        lemma_joined_owners(prev, u);
        if all_owned_by(owners, u) {
            assert forall|i: int| 0 <= i < prev.len() implies prev[i] == u by {
                assert(prev[i] == owners[i]);
            }
            assert(owners[owners.len() - 1] == u);
        }
        if joined_owners(owners) == Some(u) {
            assert forall|i: int| 0 <= i < owners.len() implies owners[i] == u by {
                if i < owners.len() - 1 {
                    assert(prev[i] == owners[i]);
                }
            }
        }
    } else {
        if joined_owners(owners) == Some(u) {
            assert forall|i: int| 0 <= i < owners.len() implies owners[i] == u by {
                assert(i == 0);
            }
        }
        if all_owned_by(owners, u) {
            assert(owners[0] == u);
        }
    }
}

/// Values of several owners shown together are visible exactly to a
/// signed-in admin, or to the one user who owns them all; so whoever sees
/// them may see each one on its own.
pub proof fn lemma_owners_visible(owners: Seq<Seq<char>>, ctx: PolicyContextView)
    ensures
        owners.len() > 0 ==> (owners_visible(owners, ctx) <==> (ctx.user matches Some(u) && (listed(
            ctx.admins,
            u,
        ) || all_owned_by(owners, u)))),
        owners_visible(owners, ctx) ==> forall|i: int|
            0 <= i < owners.len() ==> owner_or_admin(Some(#[trigger] owners[i]), ctx),
{
    if owners.len() > 0 {
        if let Some(u) = ctx.user {
            lemma_joined_owners(owners, u);
        }
    }
}

} // verus!
