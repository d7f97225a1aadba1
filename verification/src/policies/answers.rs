//! Who may read an answer: its author, the admins, and the presenters of its
//! lecture.
use vstd::prelude::*;

use crate::config::opt_string_view;
use crate::policies::context::{is_listed, is_presenter, listed, opt_string_eq, presents, AccessReason, PolicyContext, PolicyContextView};
use crate::policies::user_email::join_owner;
use crate::row::{sql_opt_text, sql_opt_text_of, sql_opt_u64, sql_opt_u64_of, SqlValue};
use crate::text::str_eq;

verus! {

/// The mathematical value of an [`AnswerAccessPolicy`].
pub struct AnswerAccessView {
    pub owner: Option<Seq<char>>,
    pub lec_id: Option<u64>,
}

/// The answer rule: a signed-in user passes if they wrote the answer, are an
/// admin, or present the answer's lecture.
pub open spec fn answer_access(p: AnswerAccessView, ctx: PolicyContextView) -> bool {
    match ctx.user {
        None => false,
        Some(u) => p.owner == Some(u) || listed(ctx.admins, u) || (p.lec_id matches Some(l)
            && presents(ctx.presenters, l, u)),
    }
}

pub open spec fn join_lec(a: Option<u64>, b: Option<u64>) -> Option<u64> {
    if a == b {
        a
    } else {
        None
    }
}

/// Joining two answer policies keeps the owner and the lecture only where both
/// agree.
pub open spec fn join_answer_access(a: AnswerAccessView, b: AnswerAccessView) -> AnswerAccessView {
    AnswerAccessView { owner: join_owner(a.owner, b.owner), lec_id: join_lec(a.lec_id, b.lec_id) }
}

/// The columns that hold the owner and the lecture in a row of each table the
/// policy guards.
pub open spec fn answer_columns(table: Seq<char>) -> Option<(int, int)> {
    if table == "answers"@ {
        Some((1, 2))
    } else if table == "questions_with_answers"@ {
        Some((4, 1))
    } else {
        None
    }
}

/// Access control on answers.
#[derive(Clone)]
pub struct AnswerAccessPolicy {
    owner: Option<String>,
    lec_id: Option<u64>,
}

impl View for AnswerAccessPolicy {
    type V = AnswerAccessView;

    closed spec fn view(&self) -> AnswerAccessView {
        AnswerAccessView { owner: opt_string_view(self.owner), lec_id: self.lec_id }
    }
}

impl AnswerAccessPolicy {
    /// A policy for an answer by `owner` to a question of lecture `lec_id`
    /// (either may be unknown).
    pub fn new(owner: Option<String>, lec_id: Option<u64>) -> (r: AnswerAccessPolicy)
        ensures
            r@ == (AnswerAccessView { owner: opt_string_view(owner), lec_id }),
    {
        AnswerAccessPolicy { owner: owner, lec_id: lec_id }
    }

    pub fn simple_name(&self) -> (r: String)
        ensures
            r@ == "AnswerAccessPolicy"@,
    {
        "AnswerAccessPolicy".to_string()
    }

    /// The author, the admins and the lecture's presenters may read the answer.
    pub fn simple_check(&self, context: &PolicyContext, _reason: &AccessReason) -> (r: bool)
        ensures
            r == answer_access(self@, context@),
    {
        let user = match &context.user {
            None => return false,
            Some(u) => u,
        };
        if let Some(owner) = &self.owner {
            if str_eq(owner.as_str(), user.as_str()) {
                return true;
            }
        }
        if is_listed(&context.admins, user) {
            return true;
        }
        if let Some(lec_id) = self.lec_id {
            return is_presenter(&context.presenters, lec_id, user);
        }
        false
    }

    /// The joined policy keeps the owner and the lecture only where both
    /// parts agree on them.
    pub fn simple_join_direct(&mut self, other: &mut Self)
        ensures
            final(self)@ == join_answer_access(old(self)@, old(other)@),
            *final(other) == *old(other),
    {
        if !opt_string_eq(&self.owner, &other.owner) {
            self.owner = None;
        }
        if self.lec_id != other.lec_id {
            self.lec_id = None;
        }
    }

    /// The policy of a row: `answers` rows are `(id, email, lec, ...)`, and a
    /// `questions_with_answers` row belongs to its paired user (column 4) and
    /// its question's lecture (column 1), answered or not.
    pub fn from_row(table: &str, row: &Vec<SqlValue>) -> (r: Self)
        requires
            answer_columns(table@) matches Some(c) && c.0 < row@.len() && c.1 < row@.len()
                && sql_opt_text(row@[c.0]@) is Some && sql_opt_u64(row@[c.1]@) is Some,
        ensures
            r@ == (AnswerAccessView {
                owner: sql_opt_text(row@[(answer_columns(table@)->0).0]@)->0,
                lec_id: sql_opt_u64(row@[(answer_columns(table@)->0).1]@)->0,
            }),
    {
        if str_eq(table, "answers") {
            AnswerAccessPolicy::new(sql_opt_text_of(&row[1]), sql_opt_u64_of(&row[2]))
        } else {
            AnswerAccessPolicy::new(sql_opt_text_of(&row[4]), sql_opt_u64_of(&row[1]))
        }
    }

    /// Joining never widens access: whoever may read the joined value may read
    /// both parts.
    pub proof fn lemma_join_never_widens(a: Self, b: Self, context: PolicyContextView)
        ensures
            answer_access(join_answer_access(a@, b@), context) ==> answer_access(a@, context)
                && answer_access(b@, context),
    {
    }

    /// Joining a policy with itself changes nothing.
    pub proof fn lemma_join_idempotent(a: Self)
        ensures
            join_answer_access(a@, a@) == a@,
    {
    }

    /// The author of an answer and every admin may always read it, the
    /// presenters of its lecture may read it, and nobody else may: not another
    /// student, and nobody who is not signed in.
    pub proof fn lemma_who_may_read(a: Self, context: PolicyContextView)
        ensures
            answer_access(a@, context) ==> (context.user matches Some(u) && (a@.owner == Some(u)
                || listed(context.admins, u) || (a@.lec_id matches Some(l) && presents(
                context.presenters,
                l,
                u,
            )))),
            context.user is None ==> !answer_access(a@, context),
            context.user matches Some(u) && a@.owner == Some(u) ==> answer_access(a@, context),
            context.user matches Some(u) && listed(context.admins, u) ==> answer_access(
                a@,
                context,
            ),
            context.user matches Some(u) && a@.lec_id matches Some(l) && presents(
                context.presenters,
                l,
                u,
            ) ==> answer_access(a@, context),
    {
    }
}

/// The rule of an answer by `r.0` to a question of lecture `r.1`.
pub open spec fn rule_of(r: (Seq<char>, u64)) -> AnswerAccessView {
    AnswerAccessView { owner: Some(r.0), lec_id: Some(r.1) }
}

/// The rule of answers shown together: their rules joined in order.
pub open spec fn joined_rules(rs: Seq<(Seq<char>, u64)>) -> AnswerAccessView
    recommends
        rs.len() > 0,
    decreases rs.len(),
{
    if rs.len() <= 1 {
        rule_of(rs[0])
    } else {
        join_answer_access(joined_rules(rs.drop_last()), rule_of(rs.last()))
    }
}

/// Answers (author, lecture) may be shown together: there are none, or their
/// joined rule lets the viewer read them.
pub open spec fn rules_visible(rs: Seq<(Seq<char>, u64)>, ctx: PolicyContextView) -> bool {
    rs.len() == 0 || answer_access(joined_rules(rs), ctx)
}

pub open spec fn pairs_view(rs: Seq<(String, u64)>) -> Seq<(Seq<char>, u64)> {
    rs.map_values(|r: (String, u64)| (r.0@, r.1))
}

/// Checks the joined rule of answers given as (author, lecture).
pub fn rules_check(context: &PolicyContext, rs: &Vec<(String, u64)>) -> (r: bool)
    ensures
        r == rules_visible(pairs_view(rs@), context@),
{
    let ghost rv = pairs_view(rs@);
    if rs.len() == 0 {
        return true;
    }
    let mut joined = AnswerAccessPolicy::new(Some(rs[0].0.clone()), Some(rs[0].1));
    let mut i: usize = 1;
    while i < rs.len()
        invariant
            1 <= i <= rs@.len(),
            rv == pairs_view(rs@),
            joined@ == joined_rules(rv.take(i as int)),
        decreases rs@.len() - i,
    {
        assert(rv.take(i + 1).drop_last() =~= rv.take(i as int));
        let mut next = AnswerAccessPolicy::new(Some(rs[i].0.clone()), Some(rs[i].1));
        joined.simple_join_direct(&mut next);
        i = i + 1;
    }
    assert(rv.take(rs@.len() as int) =~= rv);
    joined.simple_check(context, &AccessReason::Other)
}

proof fn lemma_joined_rules(rs: Seq<(Seq<char>, u64)>, u: Seq<char>, l: u64)
    requires
        rs.len() > 0,
    ensures
        joined_rules(rs).owner == Some(u) <==> (forall|i: int| 0 <= i < rs.len() ==> (#[trigger] rs[i]).0 == u),
        joined_rules(rs).lec_id == Some(l) <==> (forall|i: int| 0 <= i < rs.len() ==> (#[trigger] rs[i]).1 == l),
    decreases rs.len(),
{
    if rs.len() > 1 {
        let prev = rs.drop_last();
        lemma_joined_rules(prev, u, l);
        assert forall|i: int| 0 <= i < prev.len() implies #[trigger] prev[i] == rs[i] by {}
        if forall|i: int| 0 <= i < rs.len() ==> (#[trigger] rs[i]).0 == u {
            assert(forall|i: int| 0 <= i < prev.len() ==> (#[trigger] prev[i]).0 == u);
            assert(rs[rs.len() - 1].0 == u);
        }
        if forall|i: int| 0 <= i < rs.len() ==> (#[trigger] rs[i]).1 == l {
            assert(forall|i: int| 0 <= i < prev.len() ==> (#[trigger] prev[i]).1 == l);
            assert(rs[rs.len() - 1].1 == l);
        }
        if joined_rules(rs).owner == Some(u) {
            assert forall|i: int| 0 <= i < rs.len() implies (#[trigger] rs[i]).0 == u by {
                if i < rs.len() - 1 {
                    assert(prev[i] == rs[i]);
                }
            }
        }
        if joined_rules(rs).lec_id == Some(l) {
            assert forall|i: int| 0 <= i < rs.len() implies (#[trigger] rs[i]).1 == l by {
                if i < rs.len() - 1 {
                    assert(prev[i] == rs[i]);
                }
            }
        }
    } else {
        assert forall|i: int| 0 <= i < rs.len() implies #[trigger] rs[i] == rs[0] by {}
    }
}

/// Answers shown together are visible exactly to a signed-in admin, to the
/// one student who wrote them all, or, when they all belong to one lecture,
/// to its presenters; so whoever sees them may read each one on its own.
pub proof fn lemma_rules_visible(rs: Seq<(Seq<char>, u64)>, ctx: PolicyContextView)
    ensures
        rs.len() > 0 ==> (rules_visible(rs, ctx) <==> (ctx.user matches Some(u) && (listed(ctx.admins, u)
            || (forall|i: int| 0 <= i < rs.len() ==> (#[trigger] rs[i]).0 == u) || (exists|l: u64|
            presents(ctx.presenters, l, u) && forall|i: int| 0 <= i < rs.len() ==> (#[trigger] rs[i]).1
            == l)))),
        rules_visible(rs, ctx) ==> forall|i: int|
            0 <= i < rs.len() ==> answer_access(rule_of(#[trigger] rs[i]), ctx),
{
    if rs.len() > 0 {
        if let Some(u) = ctx.user {
            let l0 = rs[0].1;
            lemma_joined_rules(rs, u, l0);
            if let Some(l) = joined_rules(rs).lec_id {
                lemma_joined_rules(rs, u, l);
                if presents(ctx.presenters, l, u) {
                    assert(presents(ctx.presenters, l, u) && forall|i: int| 0 <= i < rs.len() ==> (#[trigger] rs[i]).1 == l);
                }
            }
            assert forall|l: u64| presents(ctx.presenters, l, u) && (forall|i: int| 0 <= i < rs.len() ==> (#[trigger] rs[i]).1 == l) implies answer_access(joined_rules(rs), ctx) by {
                lemma_joined_rules(rs, u, l);
            }
            if rules_visible(rs, ctx) {
                assert forall|i: int| 0 <= i < rs.len() implies answer_access(rule_of(#[trigger] rs[i]), ctx) by {
                    if joined_rules(rs).owner == Some(u) {
                        assert(rs[i].0 == u);
                    }
                    if let Some(l) = joined_rules(rs).lec_id {
                        lemma_joined_rules(rs, u, l);
                        assert(rs[i].1 == l);
                    }
                }
            }
        }
    }
}

} // verus!
