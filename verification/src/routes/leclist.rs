//! The lecture list: every lecture with its question count and how many of
//! its questions the viewer has answered.
use vstd::prelude::*;

use crate::models::{answer_rule_list, answer_rules, AnswerModel};
use crate::policies::answers::{rules_check, rules_visible};
use crate::policies::context::{is_listed, listed, PolicyContext, PolicyContextView};
use crate::policies::user_email::{owner_or_admin, owner_or_admin_check};
use crate::text::{trim, trimmed, views};

verus! {

/// A lecture as the `lectures_with_question_counts` view lists it.
pub struct LectureCount {
    pub id: u64,
    pub label: String,
    pub num_qs: u64,
}

/// A row of the list.
pub struct AggregateLectureRow {
    pub id: u64,
    pub label: String,
    pub num_qs: u64,
    pub num_answered: u64,
}

/// The list page: whether the viewer is an admin (who gets the admin links),
/// and the lectures.
pub struct LectureListPage {
    pub admin: bool,
    pub lectures: Vec<AggregateLectureRow>,
}

/// How many of `answers` are for lecture `lec` and not blank.
pub open spec fn answered_count(answers: Seq<AnswerModel>, lec: u64) -> nat
    decreases answers.len(),
{
    if answers.len() == 0 {
        0
    } else {
        answered_count(answers.drop_last(), lec) + if answers.last().lec == lec && trimmed(
            answers.last().answer@,
        ).len() > 0 {
            1nat
        } else {
            0nat
        }
    }
}

proof fn lemma_answered_count_bound(answers: Seq<AnswerModel>, lec: u64)
    ensures
        answered_count(answers, lec) <= answers.len(),
    decreases answers.len(),
{
    if answers.len() > 0 {
        lemma_answered_count_bound(answers.drop_last(), lec);
    }
}

/// Which answers are not blank.
fn non_blank(answers: &Vec<AnswerModel>) -> (r: Vec<bool>)
    ensures
        r@.len() == answers@.len(),
        forall|i: int| 0 <= i < answers@.len() ==> r@[i] == (trimmed(answers@[i].answer@).len() > 0),
{
    let mut r: Vec<bool> = Vec::new();
    let mut i: usize = 0;
    while i < answers.len()
        invariant
            i <= answers@.len(),
            r@.len() == i,
            forall|k: int| 0 <= k < i ==> r@[k] == (trimmed(answers@[k].answer@).len() > 0),
        decreases answers@.len() - i,
    {
        let t = trim(answers[i].answer.as_str());
        r.push(!t.as_str().is_empty());
        i = i + 1;
    }
    r
}

fn count_answered(answers: &Vec<AnswerModel>, filled: &Vec<bool>, lec: u64) -> (r: u64)
    requires
        filled@.len() == answers@.len(),
        forall|i: int| 0 <= i < answers@.len() ==> filled@[i] == (trimmed(answers@[i].answer@).len() > 0),
        answers@.len() <= u64::MAX,
    ensures
        r == answered_count(answers@, lec),
{
    let mut n: u64 = 0;
    let mut i: usize = 0;
    while i < answers.len()
        invariant
            i <= answers@.len(),
            filled@.len() == answers@.len(),
            forall|k: int| 0 <= k < answers@.len() ==> filled@[k] == (trimmed(answers@[k].answer@).len() > 0),
            answers@.len() <= u64::MAX,
            n == answered_count(answers@.take(i as int), lec),
        decreases answers@.len() - i,
    {
        assert(answers@.take(i + 1).drop_last() =~= answers@.take(i as int));
        proof {
            lemma_answered_count_bound(answers@.take(i as int), lec);
        }
        if answers[i].lec == lec && filled[i] {
            n = n + 1;
        }
        i = i + 1;
    }
    assert(answers@.take(answers@.len() as int) =~= answers@);
    n
}

/// The lecture list for `user`, from the lectures of the view and the user's
/// answers: refused (`None`) unless the rules of the values it shows let the
/// viewer see them; else every lecture, in the view's order, with the number
/// of the user's non-blank answers to it, and whether the user is an admin.
pub fn leclist(
    context: &PolicyContext,
    user: &String,
    admins: &Vec<String>,
    lectures: &Vec<LectureCount>,
    answers: &Vec<AnswerModel>,
) -> (r: Option<LectureListPage>)
    ensures
        r is Some == leclist_visible_for(user@, answers@, context@),
        r matches Some(page) ==> {
            &&& page.admin == listed(views(admins@), user@)
            &&& page.lectures@.len() == lectures@.len()
            &&& forall|i: int|
                0 <= i < lectures@.len() ==> {
                    let row = #[trigger] page.lectures@[i];
                    &&& row.id == lectures@[i].id
                    &&& row.label@ == lectures@[i].label@
                    &&& row.num_qs == lectures@[i].num_qs
                    &&& row.num_answered == answered_count(answers@, lectures@[i].id)
                }
        },
{
    if !leclist_visible(context, user, answers) {
        return None;
    }
    assert(answers@.len() == answers.len());
    let filled = non_blank(answers);
    let mut rows: Vec<AggregateLectureRow> = Vec::new();
    let mut i: usize = 0;
    while i < lectures.len()
        invariant
            i <= lectures@.len(),
            filled@.len() == answers@.len(),
            forall|k: int| 0 <= k < answers@.len() ==> filled@[k] == (trimmed(answers@[k].answer@).len() > 0),
            answers@.len() <= u64::MAX,
            rows@.len() == i,
            forall|k: int|
                0 <= k < i ==> {
                    let row = #[trigger] rows@[k];
                    &&& row.id == lectures@[k].id
                    &&& row.label@ == lectures@[k].label@
                    &&& row.num_qs == lectures@[k].num_qs
                    &&& row.num_answered == answered_count(answers@, lectures@[k].id)
                },
        decreases lectures@.len() - i,
    {
        let l = &lectures[i];
        let num_answered = count_answered(answers, &filled, l.id);
        rows.push(
            AggregateLectureRow { id: l.id, label: l.label.clone(), num_qs: l.num_qs, num_answered },
        );
        i = i + 1;
    }
    Some(LectureListPage { admin: is_listed(admins, user), lectures: rows })
}

/// The lecture list may be shown to the viewer: the admin flag is guarded by
/// the rule of `user`'s email, and the answered counts by the joined rule of
/// the answers they are counted from.
pub open spec fn leclist_visible_for(user: Seq<char>, answers: Seq<AnswerModel>, ctx: PolicyContextView) -> bool {
    owner_or_admin(Some(user), ctx) && rules_visible(answer_rules(answers), ctx)
}

/// Checks the rules of the values the lecture list shows, for the viewer.
pub fn leclist_visible(context: &PolicyContext, user: &String, answers: &Vec<AnswerModel>) -> (r: bool)
    ensures
        r == leclist_visible_for(user@, answers@, context@),
{
    let owner = Some(user.clone());
    owner_or_admin_check(&owner, context) && rules_check(context, &answer_rule_list(answers))
}

/// The answered count of a lecture counts every one of the viewer's answers to
/// it whose trimmed text is not empty, whatever its length: none for no
/// answers, and one more for each such answer added.
pub proof fn lemma_answered_count_counts_each_answer(answers: Seq<AnswerModel>, a: AnswerModel, lec: u64)
    ensures
        answered_count(Seq::<AnswerModel>::empty(), lec) == 0,
        answered_count(answers.push(a), lec) == answered_count(answers, lec) + if a.lec == lec && trimmed(
            a.answer@,
        ).len() > 0 {
            1int
        } else {
            0int
        },
        answered_count(answers, lec) <= answers.len(),
{
    assert(answers.push(a).drop_last() =~= answers);
    lemma_answered_count_bound(answers, lec);
}

} // verus!
