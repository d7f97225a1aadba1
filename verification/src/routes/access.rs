//! The "access my data" page: everything stored about the viewer.
use vstd::prelude::*;

use crate::models::{
    answer_author_list, answer_authors, answer_rule_list, answer_rules, presenter_email_list,
    presenter_emails, user_email_list, user_emails, AnswerModel, PresenterModel, UserModel,
};
use crate::policies::answers::{rules_check, rules_visible};
use crate::policies::context::{PolicyContext, PolicyContextView};
use crate::policies::user_email::{owners_check, owners_visible};

verus! {

/// The viewer's `users` row as the page shows it: the API key is never read.
pub struct GdprUserRow {
    pub email: String,
    pub is_admin: bool,
    pub consent: bool,
}

/// One of the viewer's answers as the page shows it.
pub struct GdprAnswerRow {
    pub id: String,
    pub lec: u64,
    pub question_id: u64,
    pub answer: String,
    pub submitted_at: String,
}

/// A lecture the viewer presents.
pub struct GdprPresenterRow {
    pub lecture_id: u64,
    pub email: String,
}

pub struct AccessPage {
    pub users: Vec<GdprUserRow>,
    pub answers: Vec<GdprAnswerRow>,
    pub presenters: Vec<GdprPresenterRow>,
}

/// The page from the rows fetched for the viewer: refused (`None`) unless
/// the rules of every value it shows let the viewer see them; else every row
/// is shown, the `users` rows without their API key.
pub fn access(
    context: &PolicyContext,
    users: &Vec<UserModel>,
    answers: &Vec<AnswerModel>,
    presenters: &Vec<PresenterModel>,
) -> (r: Option<AccessPage>)
    ensures
        r is Some == access_visible_for(users@, answers@, presenters@, context@),
        r matches Some(page) ==> {
            &&& page.users@.len() == users@.len()
            &&& forall|i: int|
                0 <= i < users@.len() ==> {
                    let u = #[trigger] page.users@[i];
                    &&& u.email@ == users@[i].email@
                    &&& u.is_admin == users@[i].is_admin
                    &&& u.consent == users@[i].consent
                }
            &&& page.answers@.len() == answers@.len()
            &&& forall|i: int|
                0 <= i < answers@.len() ==> {
                    let a = #[trigger] page.answers@[i];
                    &&& a.id@ == answers@[i].id@
                    &&& a.lec == answers@[i].lec
                    &&& a.question_id == answers@[i].question_id
                    &&& a.answer@ == answers@[i].answer@
                    &&& a.submitted_at@ == answers@[i].submitted_at@
                }
            &&& page.presenters@.len() == presenters@.len()
            &&& forall|i: int|
                0 <= i < presenters@.len() ==> {
                    let p = #[trigger] page.presenters@[i];
                    &&& p.lecture_id == presenters@[i].lecture_id
                    &&& p.email@ == presenters@[i].email@
                }
        },
{
    if !access_visible(context, users, answers, presenters) {
        return None;
    }
    Some(access_page(users, answers, presenters))
}

/// Every row as the page shows it, the `users` rows without their API key.
fn access_page(
    users: &Vec<UserModel>,
    answers: &Vec<AnswerModel>,
    presenters: &Vec<PresenterModel>,
) -> (r: AccessPage)
    ensures
        r.users@.len() == users@.len(),
        forall|i: int|
            0 <= i < users@.len() ==> {
                let u = #[trigger] r.users@[i];
                &&& u.email@ == users@[i].email@
                &&& u.is_admin == users@[i].is_admin
                &&& u.consent == users@[i].consent
            },
        r.answers@.len() == answers@.len(),
        forall|i: int|
            0 <= i < answers@.len() ==> {
                let a = #[trigger] r.answers@[i];
                &&& a.id@ == answers@[i].id@
                &&& a.lec == answers@[i].lec
                &&& a.question_id == answers@[i].question_id
                &&& a.answer@ == answers@[i].answer@
                &&& a.submitted_at@ == answers@[i].submitted_at@
            },
        r.presenters@.len() == presenters@.len(),
        forall|i: int|
            0 <= i < presenters@.len() ==> {
                let p = #[trigger] r.presenters@[i];
                &&& p.lecture_id == presenters@[i].lecture_id
                &&& p.email@ == presenters@[i].email@
            },
{
    let mut us: Vec<GdprUserRow> = Vec::new();
    let mut i: usize = 0;
    while i < users.len()
        invariant
            i <= users@.len(),
            us@.len() == i,
            forall|k: int|
                0 <= k < i ==> {
                    let u = #[trigger] us@[k];
                    &&& u.email@ == users@[k].email@
                    &&& u.is_admin == users@[k].is_admin
                    &&& u.consent == users@[k].consent
                },
        decreases users@.len() - i,
    {
        us.push(
            GdprUserRow {
                email: users[i].email.clone(),
                is_admin: users[i].is_admin,
                consent: users[i].consent,
            },
        );
        i = i + 1;
    }
    let mut ans: Vec<GdprAnswerRow> = Vec::new();
    let mut j: usize = 0;
    while j < answers.len()
        invariant
            j <= answers@.len(),
            ans@.len() == j,
            forall|k: int|
                0 <= k < j ==> {
                    let a = #[trigger] ans@[k];
                    &&& a.id@ == answers@[k].id@
                    &&& a.lec == answers@[k].lec
                    &&& a.question_id == answers@[k].question_id
                    &&& a.answer@ == answers@[k].answer@
                    &&& a.submitted_at@ == answers@[k].submitted_at@
                },
        decreases answers@.len() - j,
    {
        let a = &answers[j];
        ans.push(
            GdprAnswerRow {
                id: a.id.clone(),
                lec: a.lec,
                question_id: a.question_id,
                answer: a.answer.clone(),
                submitted_at: a.submitted_at.clone(),
            },
        );
        j = j + 1;
    }
    let mut ps: Vec<GdprPresenterRow> = Vec::new();
    let mut k: usize = 0;
    while k < presenters.len()
        invariant
            k <= presenters@.len(),
            ps@.len() == k,
            forall|m: int|
                0 <= m < k ==> {
                    let p = #[trigger] ps@[m];
                    &&& p.lecture_id == presenters@[m].lecture_id
                    &&& p.email@ == presenters@[m].email@
                },
        decreases presenters@.len() - k,
    {
        ps.push(
            GdprPresenterRow {
                lecture_id: presenters[k].lecture_id,
                email: presenters[k].email.clone(),
            },
        );
        k = k + 1;
    }
    AccessPage { users: us, answers: ans, presenters: ps }
}

/// The page may be shown to the viewer: the users' emails under their joined
/// owner rule; the answers' ids under their authors' joined owner rule and
/// their contents under their joined answer rule; the presenters' emails
/// under their joined owner rule.
pub open spec fn access_visible_for(
    users: Seq<UserModel>,
    answers: Seq<AnswerModel>,
    presenters: Seq<PresenterModel>,
    ctx: PolicyContextView,
) -> bool {
    &&& owners_visible(user_emails(users), ctx)
    &&& owners_visible(answer_authors(answers), ctx)
    &&& rules_visible(answer_rules(answers), ctx)
    &&& owners_visible(presenter_emails(presenters), ctx)
}

/// Checks the rules of every value the page shows, for the viewer.
pub fn access_visible(
    context: &PolicyContext,
    users: &Vec<UserModel>,
    answers: &Vec<AnswerModel>,
    presenters: &Vec<PresenterModel>,
) -> (r: bool)
    ensures
        r == access_visible_for(users@, answers@, presenters@, context@),
{
    owners_check(context, &user_email_list(users)) && owners_check(context, &answer_author_list(answers))
        && rules_check(context, &answer_rule_list(answers)) && owners_check(
        context,
        &presenter_email_list(presenters),
    )
}

} // verus!
