//! Answers as a lecture's presenters see them: without their authors.
use vstd::prelude::*;

use crate::models::AnswerModel;
use crate::policies::answers::{answer_access, join_answer_access, AnswerAccessView};
use crate::policies::context::{AccessReason, PolicyContext};
use crate::policies::AnswerAccessPolicy;

verus! {

/// The rule that guards the answer columns of a row: owned by its author,
/// for its lecture.
pub open spec fn row_policy(row: AnswerModel) -> AnswerAccessView {
    AnswerAccessView { owner: Some(row.email@), lec_id: Some(row.lec) }
}

/// The rule of several rows shown together: their rules joined in order.
pub open spec fn joined_policy(rows: Seq<AnswerModel>) -> AnswerAccessView
    recommends
        rows.len() > 0,
    decreases rows.len(),
{
    if rows.len() <= 1 {
        row_policy(rows[0])
    } else {
        join_answer_access(joined_policy(rows.drop_last()), row_policy(rows.last()))
    }
}

/// Rows may be shown together when there are none, or when their joined rule
/// lets the viewer read them.
pub open spec fn rows_readable(rows: Seq<AnswerModel>, ctx: crate::policies::context::PolicyContextView) -> bool {
    rows.len() == 0 || answer_access(joined_policy(rows), ctx)
}

/// Whether the viewer may see all of `rows` on one page.
pub fn answers_readable(context: &PolicyContext, rows: &Vec<AnswerModel>) -> (r: bool)
    ensures
        r == rows_readable(rows@, context@),
{
    if rows.len() == 0 {
        return true;
    }
    let mut joined = AnswerAccessPolicy::new(Some(rows[0].email.clone()), Some(rows[0].lec));
    let mut i: usize = 1;
    while i < rows.len()
        invariant
            1 <= i <= rows@.len(),
            joined@ == joined_policy(rows@.take(i as int)),
        decreases rows@.len() - i,
    {
        assert(rows@.take(i + 1).drop_last() =~= rows@.take(i as int));
        let mut next = AnswerAccessPolicy::new(Some(rows[i].email.clone()), Some(rows[i].lec));
        joined.simple_join_direct(&mut next);
        i = i + 1;
    }
    assert(rows@.take(rows@.len() as int) =~= rows@);
    joined.simple_check(context, &AccessReason::Other)
}

/// Whoever may see rows together may read each of them on its own: joining
/// never widens what a viewer may read.
pub proof fn lemma_readable_rows_are_each_readable(
    rows: Seq<AnswerModel>,
    ctx: crate::policies::context::PolicyContextView,
)
    requires
        rows_readable(rows, ctx),
    ensures
        forall|i: int| 0 <= i < rows.len() ==> answer_access(row_policy(#[trigger] rows[i]), ctx),
    decreases rows.len(),
{
    if rows.len() > 1 {
        let prev = rows.drop_last();
        let a = joined_policy(prev);
        let b = row_policy(rows.last());
        lemma_join_sound(a, b, ctx);
        lemma_readable_rows_are_each_readable(prev, ctx);
        assert forall|i: int| 0 <= i < rows.len() implies answer_access(row_policy(#[trigger] rows[i]), ctx) by {
            if i < rows.len() - 1 {
                assert(rows[i] == prev[i]);
            }
        }
    }
}

proof fn lemma_join_sound(a: AnswerAccessView, b: AnswerAccessView, ctx: crate::policies::context::PolicyContextView)
    ensures
        answer_access(join_answer_access(a, b), ctx) ==> answer_access(a, ctx) && answer_access(b, ctx),
{
}

/// An answer as a presenter sees it: no author, no id (the id embeds the
/// author's email).
pub struct AnonymousAnswerRow {
    pub question_id: u64,
    pub lec: u64,
    pub answer: String,
    pub submitted_at: String,
}

/// The presenters' page of a lecture: its number and its answers.
pub struct AnonymousAnswersRender {
    pub lec_id: u8,
    pub answers: Vec<AnonymousAnswerRow>,
}

/// The presenters' view of the answers `rows` of lecture `num`: `None` (the
/// page is refused) unless the rows' joined rule lets the viewer read them
/// all (a lecture with no answers is always shown), else the answers without
/// their authors.
pub fn answers_for_presenters(context: &PolicyContext, num: u8, rows: &Vec<AnswerModel>) -> (r:
    Option<AnonymousAnswersRender>)
    ensures
        r is Some == rows_readable(rows@, context@),
        r matches Some(p) ==> p.lec_id == num && p.answers@.len() == rows@.len() && forall|i: int|
            0 <= i < rows@.len() ==> {
                let a = #[trigger] p.answers@[i];
                &&& a.question_id == rows@[i].question_id
                &&& a.lec == rows@[i].lec
                &&& a.answer@ == rows@[i].answer@
                &&& a.submitted_at@ == rows@[i].submitted_at@
            },
{
    if !answers_readable(context, rows) {
        return None;
    }
    let mut out: Vec<AnonymousAnswerRow> = Vec::new();
    let mut i: usize = 0;
    while i < rows.len()
        invariant
            i <= rows@.len(),
            out@.len() == i,
            forall|k: int|
                0 <= k < i ==> {
                    let a = #[trigger] out@[k];
                    &&& a.question_id == rows@[k].question_id
                    &&& a.lec == rows@[k].lec
                    &&& a.answer@ == rows@[k].answer@
                    &&& a.submitted_at@ == rows@[k].submitted_at@
                },
        decreases rows@.len() - i,
    {
        let a = &rows[i];
        out.push(
            AnonymousAnswerRow {
                question_id: a.question_id,
                lec: a.lec,
                answer: a.answer.clone(),
                submitted_at: a.submitted_at.clone(),
            },
        );
        i = i + 1;
    }
    Some(AnonymousAnswersRender { lec_id: num, answers: out })
}

/// All rows are answers to lecture `lec`.
pub open spec fn all_of_lecture(lec: u64, rows: Seq<AnswerModel>) -> bool {
    forall|i: int| 0 <= i < rows.len() ==> (#[trigger] rows[i]).lec == lec
}

proof fn lemma_joined_lecture(lec: u64, rows: Seq<AnswerModel>)
    requires
        rows.len() > 0,
        all_of_lecture(lec, rows),
    ensures
        joined_policy(rows).lec_id == Some(lec),
    decreases rows.len(),
{
    if rows.len() > 1 {
        assert(all_of_lecture(lec, rows.drop_last())) by {
            assert forall|i: int| 0 <= i < rows.drop_last().len() implies (#[trigger] rows.drop_last()[i]).lec == lec by {
                assert(rows.drop_last()[i] == rows[i]);
            }
        }
        lemma_joined_lecture(lec, rows.drop_last());
        assert(rows[rows.len() - 1].lec == lec);
    } else {
        assert(rows[0].lec == lec);
    }
}

/// All rows were written by `u`.
pub open spec fn all_by(rows: Seq<AnswerModel>, u: Seq<char>) -> bool {
    forall|i: int| 0 <= i < rows.len() ==> (#[trigger] rows[i]).email@ == u
}

proof fn lemma_joined_owner(rows: Seq<AnswerModel>, u: Seq<char>)
    requires
        rows.len() > 0,
    ensures
        joined_policy(rows).owner == Some(u) <==> all_by(rows, u),
    decreases rows.len(),
{
    if rows.len() > 1 {
        let prev = rows.drop_last();
        lemma_joined_owner(prev, u);
        if all_by(rows, u) {
            assert forall|i: int| 0 <= i < prev.len() implies (#[trigger] prev[i]).email@ == u by {
                assert(prev[i] == rows[i]);
            }
            assert(rows[rows.len() - 1].email@ == u);
        }
        if joined_policy(rows).owner == Some(u) {
            assert forall|i: int| 0 <= i < rows.len() implies (#[trigger] rows[i]).email@ == u by {
                if i < rows.len() - 1 {
                    assert(prev[i] == rows[i]);
                }
            }
        }
    } else {
        if joined_policy(rows).owner == Some(u) {
            assert forall|i: int| 0 <= i < rows.len() implies (#[trigger] rows[i]).email@ == u by {
                assert(i == 0);
            }
        }
        if all_by(rows, u) {
            assert(rows[0].email@ == u);
        }
    }
}

/// Who may read a lecture's answer page. A lecture with no answers is shown
/// to anyone. When its answers are all to that lecture, the page is shown
/// exactly to a signed-in admin, a presenter of the lecture, or a student
/// whose own answers are all there is. And whoever may read the page may read
/// each answer on it.
pub proof fn lemma_presenter_page_access(
    lec: u64,
    rows: Seq<AnswerModel>,
    ctx: crate::policies::context::PolicyContextView,
)
    ensures
        rows.len() == 0 ==> rows_readable(rows, ctx),
        rows.len() > 0 && all_of_lecture(lec, rows) ==> (rows_readable(rows, ctx) <==> (ctx.user matches Some(u)
            && (crate::policies::context::listed(ctx.admins, u)
            || crate::policies::context::presents(ctx.presenters, lec, u) || all_by(rows, u)))),
        rows_readable(rows, ctx) ==> forall|i: int|
            0 <= i < rows.len() ==> answer_access(row_policy(#[trigger] rows[i]), ctx),
{
    if rows.len() > 0 {
        if all_of_lecture(lec, rows) {
            lemma_joined_lecture(lec, rows);
        }
        if let Some(u) = ctx.user {
            lemma_joined_owner(rows, u);
        }
        if rows_readable(rows, ctx) {
            lemma_readable_rows_are_each_readable(rows, ctx);
        }
    }
}

} // verus!
