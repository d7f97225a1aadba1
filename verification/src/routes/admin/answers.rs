//! A lecture's answers as an admin sees them: with their authors.
use vstd::prelude::*;

use crate::config::opt_string_view;
use crate::models::AnswerModel;
use crate::policies::context::{listed, PolicyContext, PolicyContextView};
use crate::policies::user_email::{join_owner, owner_or_admin};
use crate::routes::answers::presenters::{answers_readable, rows_readable};

verus! {

/// The owner rule of the authors' emails shown together: their owners joined
/// in order.
pub open spec fn joined_owner(rows: Seq<AnswerModel>) -> Option<Seq<char>>
    recommends
        rows.len() > 0,
    decreases rows.len(),
{
    if rows.len() <= 1 {
        Some(rows[0].email@)
    } else {
        join_owner(joined_owner(rows.drop_last()), Some(rows.last().email@))
    }
}

/// The authors' emails may be shown together.
pub open spec fn emails_readable(rows: Seq<AnswerModel>, ctx: PolicyContextView) -> bool {
    rows.len() == 0 || owner_or_admin(joined_owner(rows), ctx)
}

pub fn authors_readable(context: &PolicyContext, rows: &Vec<AnswerModel>) -> (r: bool)
    ensures
        r == emails_readable(rows@, context@),
{
    if rows.len() == 0 {
        return true;
    }
    let mut owner: Option<String> = Some(rows[0].email.clone());
    let mut i: usize = 1;
    while i < rows.len()
        invariant
            1 <= i <= rows@.len(),
            opt_string_view(owner) == joined_owner(rows@.take(i as int)),
        decreases rows@.len() - i,
    {
        assert(rows@.take(i + 1).drop_last() =~= rows@.take(i as int));
        let next = Some(rows[i].email.clone());
        if !crate::policies::context::opt_string_eq(&owner, &next) {
            owner = None;
        }
        i = i + 1;
    }
    assert(rows@.take(rows@.len() as int) =~= rows@);
    crate::policies::user_email::owner_or_admin_check(&owner, context)
}

/// A row of the admin's answer page.
pub struct AnswerRow {
    pub question_id: u64,
    pub email: String,
    pub lec: u64,
    pub answer: String,
    pub submitted_at: String,
}

/// The admin's answer page of a lecture: its number and its answers.
pub struct AnswersRender {
    pub lec_id: u8,
    pub answers: Vec<AnswerRow>,
}

/// The admin's view of the answers `rows` of lecture `num`: refused (`None`)
/// unless the viewer may read both the answers and their authors' emails.
pub fn composed_answers(context: &PolicyContext, num: u8, rows: &Vec<AnswerModel>) -> (r: Option<AnswersRender>)
    ensures
        r is Some == (rows_readable(rows@, context@) && emails_readable(rows@, context@)),
        r matches Some(p) ==> p.lec_id == num && p.answers@.len() == rows@.len() && forall|i: int|
            0 <= i < rows@.len() ==> {
                let a = #[trigger] p.answers@[i];
                &&& a.question_id == rows@[i].question_id
                &&& a.email@ == rows@[i].email@
                &&& a.lec == rows@[i].lec
                &&& a.answer@ == rows@[i].answer@
                &&& a.submitted_at@ == rows@[i].submitted_at@
            },
{
    if !(answers_readable(context, rows) && authors_readable(context, rows)) {
        return None;
    }
    let mut out: Vec<AnswerRow> = Vec::new();
    let mut i: usize = 0;
    while i < rows.len()
        invariant
            i <= rows@.len(),
            out@.len() == i,
            forall|k: int|
                0 <= k < i ==> {
                    let a = #[trigger] out@[k];
                    &&& a.question_id == rows@[k].question_id
                    &&& a.email@ == rows@[k].email@
                    &&& a.lec == rows@[k].lec
                    &&& a.answer@ == rows@[k].answer@
                    &&& a.submitted_at@ == rows@[k].submitted_at@
                },
        decreases rows@.len() - i,
    {
        let a = &rows[i];
        out.push(
            AnswerRow {
                question_id: a.question_id,
                email: a.email.clone(),
                lec: a.lec,
                answer: a.answer.clone(),
                submitted_at: a.submitted_at.clone(),
            },
        );
        i = i + 1;
    }
    Some(AnswersRender { lec_id: num, answers: out })
}

/// An admin may read every lecture's answers and their authors, whoever
/// wrote them.
pub proof fn lemma_admins_read_everything(rows: Seq<AnswerModel>, ctx: PolicyContextView)
    requires
        ctx.user matches Some(u) && listed(ctx.admins, u),
    ensures
        rows_readable(rows, ctx),
        emails_readable(rows, ctx),
{
}

} // verus!
