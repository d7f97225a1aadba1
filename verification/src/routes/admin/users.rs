//! The list of registered users and the grading report.
use vstd::prelude::*;
use vstd::utf8::encode_utf8;

use crate::models::{answer_author_list, answer_authors, answer_rule_list, answer_rules, AnswerModel, LectureModel, UserModel};
use crate::policies::answers::{rules_check, rules_visible};
use crate::policies::context::{is_listed, listed, PolicyContext, PolicyContextView};
use crate::policies::user_email::{owner_or_admin, owner_or_admin_check, owners_check, owners_visible};
use crate::text::{trim, trimmed, views};

verus! {

/// A row of the user list: whether the user is an admin comes from the
/// configuration, not from the stored flag.
pub struct UserRow {
    pub email: String,
    pub is_admin: bool,
    pub consent: bool,
}

/// Every registered user, in the order of the table, with whether they are a
/// configured admin and whether they consented: refused (`None`) unless each
/// row's rule lets the viewer see it.
pub fn get_registered_users(context: &PolicyContext, users: &Vec<UserModel>, admins: &Vec<String>) -> (r: Option<Vec<UserRow>>)
    ensures
        r is Some == users_visible_for(users@, context@),
        r matches Some(v) ==> v@.len() == users@.len() && forall|i: int|
            0 <= i < users@.len() ==> {
                let row = #[trigger] v@[i];
                &&& row.email@ == users@[i].email@
                &&& row.is_admin == listed(views(admins@), users@[i].email@)
                &&& row.consent == users@[i].consent
            },
{
    if !users_visible(context, users) {
        return None;
    }
    Some(user_rows(users, admins))
}

fn user_rows(users: &Vec<UserModel>, admins: &Vec<String>) -> (r: Vec<UserRow>)
    ensures
        r@.len() == users@.len(),
        forall|i: int|
            0 <= i < users@.len() ==> {
                let row = #[trigger] r@[i];
                &&& row.email@ == users@[i].email@
                &&& row.is_admin == listed(views(admins@), users@[i].email@)
                &&& row.consent == users@[i].consent
            },
{
    let mut rows: Vec<UserRow> = Vec::new();
    let mut i: usize = 0;
    while i < users.len()
        invariant
            i <= users@.len(),
            rows@.len() == i,
            forall|k: int|
                0 <= k < i ==> {
                    let row = #[trigger] rows@[k];
                    &&& row.email@ == users@[k].email@
                    &&& row.is_admin == listed(views(admins@), users@[k].email@)
                    &&& row.consent == users@[k].consent
                },
        decreases users@.len() - i,
    {
        let u = &users[i];
        rows.push(
            UserRow { email: u.email.clone(), is_admin: is_listed(admins, &u.email), consent: u.consent },
        );
        i = i + 1;
    }
    rows
}

/// A lecture column of the report: the question count is what a user's count
/// is divided by.
pub struct GradingLecture {
    pub id: u64,
    pub label: String,
    pub num_qs: u64,
}

/// A user's row of the report: the number of counted answers per lecture
/// column.
pub struct GradingUser {
    pub email: String,
    pub lectures: Vec<u64>,
}

pub struct GradingReport {
    pub lectures_count: u64,
    pub lectures: Vec<GradingLecture>,
    pub users: Vec<GradingUser>,
}

/// The label of the last row of `lectures` with this id.
pub open spec fn last_label(lectures: Seq<LectureModel>, id: u64) -> Option<Seq<char>>
    decreases lectures.len(),
{
    if lectures.len() == 0 {
        None
    } else if lectures.last().id == id {
        Some(lectures.last().label@)
    } else {
        last_label(lectures.drop_last(), id)
    }
}

/// How many of `ids` equal `id`.
pub open spec fn count_eq(ids: Seq<u64>, id: u64) -> nat
    decreases ids.len(),
{
    if ids.len() == 0 {
        0
    } else {
        count_eq(ids.drop_last(), id) + if ids.last() == id {
            1nat
        } else {
            0nat
        }
    }
}

/// An answer counts towards the report when, trimmed, it is at least ten
/// bytes long.
pub open spec fn counts_as_answered(answer: Seq<char>) -> bool {
    encode_utf8(trimmed(answer)).len() >= 10
}

/// How many of `answers` are by `email`, for lecture `lec`, and count.
pub open spec fn graded_count(answers: Seq<AnswerModel>, email: Seq<char>, lec: u64) -> nat
    decreases answers.len(),
{
    if answers.len() == 0 {
        0
    } else {
        graded_count(answers.drop_last(), email, lec) + if answers.last().email@ == email
            && answers.last().lec == lec && counts_as_answered(answers.last().answer@) {
            1nat
        } else {
            0nat
        }
    }
}

proof fn lemma_count_eq_bound(ids: Seq<u64>, id: u64)
    ensures
        count_eq(ids, id) <= ids.len(),
    decreases ids.len(),
{
    if ids.len() > 0 {
        lemma_count_eq_bound(ids.drop_last(), id);
    }
}

proof fn lemma_graded_count_bound(answers: Seq<AnswerModel>, email: Seq<char>, lec: u64)
    ensures
        graded_count(answers, email, lec) <= answers.len(),
    decreases answers.len(),
{
    if answers.len() > 0 {
        lemma_graded_count_bound(answers.drop_last(), email, lec);
    }
}

/// The lecture columns: each id of `lectures` once, in increasing order, with
/// the label of its last row.
pub open spec fn lecture_columns_ok(cols: Seq<GradingLecture>, lectures: Seq<LectureModel>) -> bool {
    &&& forall|a: int, b: int| 0 <= a < b < cols.len() ==> cols[a].id < cols[b].id
    &&& forall|k: int| 0 <= k < cols.len() ==> last_label(lectures, #[trigger] cols[k].id) == Some(cols[k].label@)
    &&& forall|j: int| 0 <= j < lectures.len() ==> has_column(cols, #[trigger] lectures[j].id)
}

/// Some column has this id.
pub open spec fn has_column(cols: Seq<GradingLecture>, id: u64) -> bool {
    exists|k: int| 0 <= k < cols.len() && cols[k].id == id
}

proof fn lemma_last_label_push(s: Seq<LectureModel>, x: LectureModel, id: u64)
    ensures
        last_label(s.push(x), id) == if x.id == id {
            Some(x.label@)
        } else {
            last_label(s, id)
        },
{
    assert(s.push(x).drop_last() =~= s);
}

proof fn lemma_last_label_some(s: Seq<LectureModel>, j: int)
    requires
        0 <= j < s.len(),
    ensures
        last_label(s, s[j].id) is Some,
    decreases s.len(),
{
    if j < s.len() - 1 {
        assert(s.drop_last()[j] == s[j]);
        lemma_last_label_some(s.drop_last(), j);
    }
}

fn lecture_columns(lectures: &Vec<LectureModel>) -> (cols: Vec<GradingLecture>)
    ensures
        lecture_columns_ok(cols@, lectures@),
        forall|k: int| 0 <= k < cols@.len() ==> (#[trigger] cols@[k]).num_qs == 0,
{
    let mut cols: Vec<GradingLecture> = Vec::new();
    let mut i: usize = 0;
    while i < lectures.len()
        invariant
            i <= lectures@.len(),
            lecture_columns_ok(cols@, lectures@.take(i as int)),
            forall|k: int| 0 <= k < cols@.len() ==> (#[trigger] cols@[k]).num_qs == 0,
        decreases lectures@.len() - i,
    {
        let x = &lectures[i];
        let ghost pre = lectures@.take(i as int);
        let ghost post = lectures@.take(i + 1);
        assert(post =~= pre.push(lectures@[i as int]));
        let mut pos: usize = 0;
        while pos < cols.len() && cols[pos].id < x.id
            invariant
                pos <= cols@.len(),
                forall|k: int| 0 <= k < pos ==> cols@[k].id < x.id,
            decreases cols@.len() - pos,
        {
            pos = pos + 1;
        }
        let ghost old_cols = cols@;
        if pos < cols.len() && cols[pos].id == x.id {
            cols.set(pos, GradingLecture { id: x.id, label: x.label.clone(), num_qs: 0 });
            proof {
                assert forall|k: int| 0 <= k < cols@.len() implies last_label(post, #[trigger] cols@[k].id)
                    == Some(cols@[k].label@) by {
                    lemma_last_label_push(pre, lectures@[i as int], cols@[k].id);
                    if k != pos {
                        assert(cols@[k] == old_cols[k]);
                        assert(old_cols[k].id != x.id);
                    }
                }
                assert forall|j: int| 0 <= j < post.len() implies has_column(cols@, #[trigger] post[j].id) by {
                    if j < pre.len() {
                        assert(post[j] == pre[j]);
                        let k = choose|k: int| 0 <= k < old_cols.len() && old_cols[k].id == pre[j].id;
                        assert(cols@[k].id == old_cols[k].id);
                    } else {
                        assert(cols@[pos as int].id == post[j].id);
                    }
                }
            }
        } else {
            cols.insert(pos, GradingLecture { id: x.id, label: x.label.clone(), num_qs: 0 });
            proof {
                assert(cols@ == old_cols.insert(pos as int, cols@[pos as int]));
                assert forall|a: int, b: int| 0 <= a < b < cols@.len() implies cols@[a].id < cols@[b].id by {
                    if pos < old_cols.len() {
                        assert(old_cols[pos as int].id > x.id);
                    }
                    if a < pos && b > pos {
                        assert(cols@[b] == old_cols[b - 1]);
                    }
                }
                assert forall|k: int| 0 <= k < cols@.len() implies last_label(post, #[trigger] cols@[k].id)
                    == Some(cols@[k].label@) by {
                    lemma_last_label_push(pre, lectures@[i as int], cols@[k].id);
                    if k < pos {
                        assert(cols@[k] == old_cols[k]);
                    } else if k > pos {
                        assert(cols@[k] == old_cols[k - 1]);
                    }
                }
                assert forall|j: int| 0 <= j < post.len() implies has_column(cols@, #[trigger] post[j].id) by {
                    if j < pre.len() {
                        assert(post[j] == pre[j]);
                        let k = choose|k: int| 0 <= k < old_cols.len() && old_cols[k].id == pre[j].id;
                        if k < pos {
                            assert(cols@[k] == old_cols[k]);
                        } else {
                            assert(cols@[k + 1] == old_cols[k]);
                        }
                    } else {
                        assert(cols@[pos as int].id == post[j].id);
                    }
                }
            }
        }
        i = i + 1;
    }
    assert(lectures@.take(lectures@.len() as int) =~= lectures@);
    cols
}

proof fn lemma_same_columns(a: Seq<GradingLecture>, b: Seq<GradingLecture>, lectures: Seq<LectureModel>)
    requires
        lecture_columns_ok(a, lectures),
        a.len() == b.len(),
        forall|k: int| 0 <= k < b.len() ==> (#[trigger] b[k]).id == a[k].id && b[k].label@ == a[k].label@,
    ensures
        lecture_columns_ok(b, lectures),
{
    assert forall|a1: int, b1: int| 0 <= a1 < b1 < b.len() implies b[a1].id < b[b1].id by {
        assert(b[a1].id == a[a1].id);
        assert(b[b1].id == a[b1].id);
    }
    assert forall|j: int| 0 <= j < lectures.len() implies has_column(b, #[trigger] lectures[j].id) by {
        let k = choose|k: int| 0 <= k < a.len() && a[k].id == lectures[j].id;
        assert(b[k].id == a[k].id);
    }
    assert forall|k: int| 0 <= k < b.len() implies last_label(lectures, #[trigger] b[k].id) == Some(b[k].label@) by {
        assert(b[k].id == a[k].id);
    }
}

fn count_questions(question_lectures: &Vec<u64>, id: u64) -> (r: u64)
    ensures
        r == count_eq(question_lectures@, id),
{
    let mut n: u64 = 0;
    let mut i: usize = 0;
    assert(question_lectures@.len() == question_lectures.len());
    while i < question_lectures.len()
        invariant
            i <= question_lectures@.len(),
            question_lectures@.len() <= usize::MAX,
            n == count_eq(question_lectures@.take(i as int), id),
        decreases question_lectures@.len() - i,
    {
        assert(question_lectures@.take(i + 1).drop_last() =~= question_lectures@.take(i as int));
        proof {
            lemma_count_eq_bound(question_lectures@.take(i as int), id);
        }
        if question_lectures[i] == id {
            n = n + 1;
        }
        i = i + 1;
    }
    assert(question_lectures@.take(question_lectures@.len() as int) =~= question_lectures@);
    n
}

/// Which answers count (are at least ten bytes long once trimmed).
fn counted(answers: &Vec<AnswerModel>) -> (r: Vec<bool>)
    ensures
        r@.len() == answers@.len(),
        forall|i: int| 0 <= i < answers@.len() ==> r@[i] == counts_as_answered(answers@[i].answer@),
{
    let mut r: Vec<bool> = Vec::new();
    let mut i: usize = 0;
    while i < answers.len()
        invariant
            i <= answers@.len(),
            r@.len() == i,
            forall|k: int| 0 <= k < i ==> r@[k] == counts_as_answered(answers@[k].answer@),
        decreases answers@.len() - i,
    {
        let t = trim(answers[i].answer.as_str());
        let bytes = t.as_str().as_bytes();
        r.push(bytes.len() >= 10);
        i = i + 1;
    }
    r
}

fn count_graded(answers: &Vec<AnswerModel>, ok: &Vec<bool>, email: &String, lec: u64) -> (r: u64)
    requires
        ok@.len() == answers@.len(),
        forall|i: int| 0 <= i < answers@.len() ==> ok@[i] == counts_as_answered(answers@[i].answer@),
    ensures
        r == graded_count(answers@, email@, lec),
{
    let mut n: u64 = 0;
    let mut i: usize = 0;
    while i < answers.len()
        invariant
            i <= answers@.len(),
            ok@.len() == answers@.len(),
            forall|k: int| 0 <= k < answers@.len() ==> ok@[k] == counts_as_answered(answers@[k].answer@),
            n == graded_count(answers@.take(i as int), email@, lec),
        decreases answers@.len() - i,
    {
        assert(answers@.take(i + 1).drop_last() =~= answers@.take(i as int));
        proof {
            lemma_graded_count_bound(answers@.take(i as int), email@, lec);
        }
        if answers[i].lec == lec && ok[i] && crate::text::str_eq(answers[i].email.as_str(), email.as_str()) {
            n = n + 1;
        }
        i = i + 1;
    }
    assert(answers@.take(answers@.len() as int) =~= answers@);
    n
}

/// The grading report from the lectures, the lecture of each question, the
/// users' emails and the answers: refused (`None`) unless the rules of the
/// values it is computed from let the viewer see them. Else one column per
/// lecture id, in increasing order, with the label of its last row and its
/// number of questions; and per user, in order, the number of their counted
/// answers to each column's lecture.
pub fn grading(
    context: &PolicyContext,
    lectures: &Vec<LectureModel>,
    question_lectures: &Vec<u64>,
    user_emails: &Vec<String>,
    answers: &Vec<AnswerModel>,
) -> (r: Option<GradingReport>)
    ensures
        r is Some == grading_visible_for(views(user_emails@), answers@, context@),
        r matches Some(rep) ==> {
            &&& lecture_columns_ok(rep.lectures@, lectures@)
            &&& forall|k: int| 0 <= k < rep.lectures@.len() ==> (#[trigger] rep.lectures@[k]).num_qs == count_eq(question_lectures@, rep.lectures@[k].id)
            &&& rep.lectures_count == rep.lectures@.len()
            &&& rep.users@.len() == user_emails@.len()
            &&& forall|u: int|
                0 <= u < user_emails@.len() ==> {
                    let row = #[trigger] rep.users@[u];
                    &&& row.email@ == user_emails@[u]@
                    &&& row.lectures@.len() == rep.lectures@.len()
                    &&& forall|k: int| 0 <= k < rep.lectures@.len() ==> #[trigger] row.lectures@[k] == graded_count(answers@, user_emails@[u]@, rep.lectures@[k].id)
                }
        },
{
    if !grading_visible(context, user_emails, answers) {
        return None;
    }
    Some(grading_report(lectures, question_lectures, user_emails, answers))
}

/// The grading report: one column per lecture (each id once, by increasing
/// id, labelled as its last row says, with its question count), and for each
/// user, in order, the number of their counted answers to each lecture.
fn grading_report(
    lectures: &Vec<LectureModel>,
    question_lectures: &Vec<u64>,
    user_emails: &Vec<String>,
    answers: &Vec<AnswerModel>,
) -> (r: GradingReport)
    ensures
        lecture_columns_ok(r.lectures@, lectures@),
        forall|k: int| 0 <= k < r.lectures@.len() ==> (#[trigger] r.lectures@[k]).num_qs == count_eq(question_lectures@, r.lectures@[k].id),
        r.lectures_count == r.lectures@.len(),
        r.users@.len() == user_emails@.len(),
        forall|u: int|
            0 <= u < user_emails@.len() ==> {
                let row = #[trigger] r.users@[u];
                &&& row.email@ == user_emails@[u]@
                &&& row.lectures@.len() == r.lectures@.len()
                &&& forall|k: int| 0 <= k < r.lectures@.len() ==> #[trigger] row.lectures@[k] == graded_count(answers@, user_emails@[u]@, r.lectures@[k].id)
            },
{
    let cols0 = lecture_columns(lectures);
    let mut cols: Vec<GradingLecture> = Vec::new();
    let mut i: usize = 0;
    while i < cols0.len()
        invariant
            i <= cols0@.len(),
            lecture_columns_ok(cols0@, lectures@),
            cols@.len() == i,
            forall|k: int| 0 <= k < i ==> (#[trigger] cols@[k]).id == cols0@[k].id && cols@[k].label@ == cols0@[k].label@
                && cols@[k].num_qs == count_eq(question_lectures@, cols0@[k].id),
        decreases cols0@.len() - i,
    {
        let c = &cols0[i];
        let num_qs = count_questions(question_lectures, c.id);
        cols.push(GradingLecture { id: c.id, label: c.label.clone(), num_qs });
        i = i + 1;
    }
    proof {
        lemma_same_columns(cols0@, cols@, lectures@);
    }
    let ok = counted(answers);
    let mut users: Vec<GradingUser> = Vec::new();
    let mut u: usize = 0;
    while u < user_emails.len()
        invariant
            u <= user_emails@.len(),
            ok@.len() == answers@.len(),
            forall|k: int| 0 <= k < answers@.len() ==> ok@[k] == counts_as_answered(answers@[k].answer@),
            users@.len() == u,
            forall|v: int|
                0 <= v < u ==> {
                    let row = #[trigger] users@[v];
                    &&& row.email@ == user_emails@[v]@
                    &&& row.lectures@.len() == cols@.len()
                    &&& forall|k: int| 0 <= k < cols@.len() ==> #[trigger] row.lectures@[k] == graded_count(answers@, user_emails@[v]@, cols@[k].id)
                },
        decreases user_emails@.len() - u,
    {
        let email = &user_emails[u];
        let mut counts: Vec<u64> = Vec::new();
        let mut k: usize = 0;
        while k < cols.len()
            invariant
                k <= cols@.len(),
                ok@.len() == answers@.len(),
                forall|j: int| 0 <= j < answers@.len() ==> ok@[j] == counts_as_answered(answers@[j].answer@),
                counts@.len() == k,
                forall|j: int| 0 <= j < k ==> #[trigger] counts@[j] == graded_count(answers@, email@, cols@[j].id),
            decreases cols@.len() - k,
        {
            counts.push(count_graded(answers, &ok, email, cols[k].id));
            k = k + 1;
        }
        users.push(GradingUser { email: email.clone(), lectures: counts });
        u = u + 1;
    }
    let lectures_count = cols.len() as u64;
    GradingReport { lectures_count, lectures: cols, users }
}

/// The user list may be shown to the viewer: each row's email (and the admin
/// flag derived from it) is guarded by that email's owner rule.
pub open spec fn users_visible_for(users: Seq<UserModel>, ctx: PolicyContextView) -> bool {
    forall|i: int| 0 <= i < users.len() ==> owner_or_admin(Some((#[trigger] users[i]).email@), ctx)
}

/// Checks each row of the user list, for the viewer.
pub fn users_visible(context: &PolicyContext, users: &Vec<UserModel>) -> (r: bool)
    ensures
        r == users_visible_for(users@, context@),
{
    let mut i: usize = 0;
    while i < users.len()
        invariant
            i <= users@.len(),
            forall|k: int| 0 <= k < i ==> owner_or_admin(Some((#[trigger] users@[k]).email@), context@),
        decreases users@.len() - i,
    {
        let owner = Some(users[i].email.clone());
        if !owner_or_admin_check(&owner, context) {
            return false;
        }
        i = i + 1;
    }
    true
}

/// The grading report may be shown to the viewer: its rows are computed from
/// the answers (their authors under the joined owner rule, their lectures and
/// texts under the joined answer rule) together with the users' emails, so
/// the authors and the users' emails are joined into one owner rule.
pub open spec fn grading_visible_for(user_emails: Seq<Seq<char>>, answers: Seq<AnswerModel>, ctx: PolicyContextView) -> bool {
    owners_visible(answer_authors(answers) + user_emails, ctx) && rules_visible(answer_rules(answers), ctx)
}

/// Checks the rules of the values the report is computed from, for the viewer.
pub fn grading_visible(context: &PolicyContext, user_emails: &Vec<String>, answers: &Vec<AnswerModel>) -> (r: bool)
    ensures
        r == grading_visible_for(views(user_emails@), answers@, context@),
{
    let mut owners = answer_author_list(answers);
    let ghost a = views(owners@);
    let mut i: usize = 0;
    while i < user_emails.len()
        invariant
            i <= user_emails@.len(),
            a == answer_authors(answers@),
            views(owners@) == a + views(user_emails@).take(i as int),
        decreases user_emails@.len() - i,
    {
        let ghost before = views(owners@);
        owners.push(user_emails[i].clone());
        assert(views(owners@) =~= before.push(user_emails@[i as int]@));
        assert(views(user_emails@).take(i + 1) =~= views(user_emails@).take(i as int).push(user_emails@[i as int]@));
        assert(a + views(user_emails@).take(i + 1) =~= (a + views(user_emails@).take(i as int)).push(user_emails@[i as int]@));
        i = i + 1;
    }
    assert(views(user_emails@).take(user_emails@.len() as int) =~= views(user_emails@));
    owners_check(context, &owners) && rules_check(context, &answer_rule_list(answers))
}

/// The grading count of a user and lecture counts every answer by that user
/// to that lecture whose trimmed text is at least ten bytes: none for no
/// answers, and one more for each such answer added, however many there are.
pub proof fn lemma_graded_count_counts_each_answer(answers: Seq<AnswerModel>, a: AnswerModel, email: Seq<char>, lec: u64)
    ensures
        graded_count(Seq::<AnswerModel>::empty(), email, lec) == 0,
        graded_count(answers.push(a), email, lec) == graded_count(answers, email, lec) + if a.email@ == email
            && a.lec == lec && encode_utf8(trimmed(a.answer@)).len() >= 10 {
            1int
        } else {
            0int
        },
        graded_count(answers, email, lec) <= answers.len(),
{
    assert(answers.push(a).drop_last() =~= answers);
    lemma_graded_count_bound(answers, email, lec);
}

} // verus!
