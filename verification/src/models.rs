//! One struct per table (and per view the pages read), holding that
//! relation's columns, and how each is read from a row of the store.
use vstd::prelude::*;

use crate::config::opt_string_view;
use crate::policies::answers::pairs_view;
use crate::text::views;
use crate::row::{
    bool_at, opt_text_at, opt_u64_at, read_bool, read_opt_text, read_opt_u64,
    read_text, read_u64, text_at, u64_at, SqlValue,
};

verus! {

/// A row of the `answers` table. `id` is the synthesised key
/// "{email}-{question_id}"; `submitted_at` is the time as the store reports
/// it.
pub struct AnswerModel {
    pub id: String,
    pub email: String,
    pub lec: u64,
    pub question_id: u64,
    pub answer: String,
    pub submitted_at: String,
}

impl AnswerModel {
    /// Reads `(id, email, lec, question_id, answer, submitted_at)`; `None`
    /// when a column is missing or does not read as its type.
    pub fn from_row(row: &Vec<SqlValue>) -> (r: Option<AnswerModel>)
        ensures
            r is Some <==> (text_at(row@, 0) is Some && text_at(row@, 1) is Some && u64_at(row@, 2) is Some
                && u64_at(row@, 3) is Some && text_at(row@, 4) is Some && text_at(row@, 5) is Some),
            r matches Some(m) ==> {
                &&& Some(m.id@) == text_at(row@, 0)
                &&& Some(m.email@) == text_at(row@, 1)
                &&& Some(m.lec) == u64_at(row@, 2)
                &&& Some(m.question_id) == u64_at(row@, 3)
                &&& Some(m.answer@) == text_at(row@, 4)
                &&& Some(m.submitted_at@) == text_at(row@, 5)
            },
    {
        let id = match read_text(row, 0) { Some(x) => x, None => return None };
        let email = match read_text(row, 1) { Some(x) => x, None => return None };
        let lec = match read_u64(row, 2) { Some(x) => x, None => return None };
        let question_id = match read_u64(row, 3) { Some(x) => x, None => return None };
        let answer = match read_text(row, 4) { Some(x) => x, None => return None };
        let submitted_at = match read_text(row, 5) { Some(x) => x, None => return None };
        Some(AnswerModel { id, email, lec, question_id, answer, submitted_at })
    }
}

/// A row of the `consented_answers` view: an answer from a consenting
/// student, with the lecture and question it belongs to.
pub struct ConsentedAnswerModel {
    pub answer: String,
    pub consent: bool,
    pub lec: u64,
    pub question_id: u64,
}

impl ConsentedAnswerModel {
    /// Reads `(answer, consent, lec, question_id)`.
    pub fn from_row(row: &Vec<SqlValue>) -> (r: Option<ConsentedAnswerModel>)
        ensures
            r is Some <==> (text_at(row@, 0) is Some && bool_at(row@, 1) is Some && u64_at(row@, 2) is Some
                && u64_at(row@, 3) is Some),
            r matches Some(m) ==> {
                &&& Some(m.answer@) == text_at(row@, 0)
                &&& Some(m.consent) == bool_at(row@, 1)
                &&& Some(m.lec) == u64_at(row@, 2)
                &&& Some(m.question_id) == u64_at(row@, 3)
            },
    {
        let answer = match read_text(row, 0) { Some(x) => x, None => return None };
        let consent = match read_bool(row, 1) { Some(x) => x, None => return None };
        let lec = match read_u64(row, 2) { Some(x) => x, None => return None };
        let question_id = match read_u64(row, 3) { Some(x) => x, None => return None };
        Some(ConsentedAnswerModel { answer, consent, lec, question_id })
    }
}

/// A row of the `lectures` table.
pub struct LectureModel {
    pub id: u64,
    pub label: String,
}

impl LectureModel {
    /// Reads `(id, label)`.
    pub fn from_row(row: &Vec<SqlValue>) -> (r: Option<LectureModel>)
        ensures
            r is Some <==> (u64_at(row@, 0) is Some && text_at(row@, 1) is Some),
            r matches Some(m) ==> Some(m.id) == u64_at(row@, 0) && Some(m.label@) == text_at(row@, 1),
    {
        let id = match read_u64(row, 0) { Some(x) => x, None => return None };
        let label = match read_text(row, 1) { Some(x) => x, None => return None };
        Some(LectureModel { id, label })
    }
}

/// A row of the `lectures_with_question_counts` view: every lecture with the
/// number of its questions, lectures with none included.
pub struct LectureWithQuestionCountsModel {
    pub id: u64,
    pub label: String,
    pub u_c: u64,
}

impl LectureWithQuestionCountsModel {
    /// Reads `(id, label, count)`.
    pub fn from_row(row: &Vec<SqlValue>) -> (r: Option<LectureWithQuestionCountsModel>)
        ensures
            r is Some <==> (u64_at(row@, 0) is Some && text_at(row@, 1) is Some && u64_at(row@, 2) is Some),
            r matches Some(m) ==> {
                &&& Some(m.id) == u64_at(row@, 0)
                &&& Some(m.label@) == text_at(row@, 1)
                &&& Some(m.u_c) == u64_at(row@, 2)
            },
    {
        let id = match read_u64(row, 0) { Some(x) => x, None => return None };
        let label = match read_text(row, 1) { Some(x) => x, None => return None };
        let u_c = match read_u64(row, 2) { Some(x) => x, None => return None };
        Some(LectureWithQuestionCountsModel { id, label, u_c })
    }
}

/// A row of the `presenters` table.
pub struct PresenterModel {
    pub id: u64,
    pub lecture_id: u64,
    pub email: String,
}

impl PresenterModel {
    /// Reads `(id, lecture_id, email)`.
    pub fn from_row(row: &Vec<SqlValue>) -> (r: Option<PresenterModel>)
        ensures
            r is Some <==> (u64_at(row@, 0) is Some && u64_at(row@, 1) is Some && text_at(row@, 2) is Some),
            r matches Some(m) ==> {
                &&& Some(m.id) == u64_at(row@, 0)
                &&& Some(m.lecture_id) == u64_at(row@, 1)
                &&& Some(m.email@) == text_at(row@, 2)
            },
    {
        let id = match read_u64(row, 0) { Some(x) => x, None => return None };
        let lecture_id = match read_u64(row, 1) { Some(x) => x, None => return None };
        let email = match read_text(row, 2) { Some(x) => x, None => return None };
        Some(PresenterModel { id, lecture_id, email })
    }
}

/// A row of the `questions` table.
pub struct QuestionModel {
    pub id: u64,
    pub lecture_id: u64,
    pub question_number: u64,
    pub question: String,
}

impl QuestionModel {
    /// Reads `(id, lecture_id, question_number, question)`.
    pub fn from_row(row: &Vec<SqlValue>) -> (r: Option<QuestionModel>)
        ensures
            r is Some <==> (u64_at(row@, 0) is Some && u64_at(row@, 1) is Some && u64_at(row@, 2) is Some
                && text_at(row@, 3) is Some),
            r matches Some(m) ==> {
                &&& Some(m.id) == u64_at(row@, 0)
                &&& Some(m.lecture_id) == u64_at(row@, 1)
                &&& Some(m.question_number) == u64_at(row@, 2)
                &&& Some(m.question@) == text_at(row@, 3)
            },
    {
        let id = match read_u64(row, 0) { Some(x) => x, None => return None };
        let lecture_id = match read_u64(row, 1) { Some(x) => x, None => return None };
        let question_number = match read_u64(row, 2) { Some(x) => x, None => return None };
        let question = match read_text(row, 3) { Some(x) => x, None => return None };
        Some(QuestionModel { id, lecture_id, question_number, question })
    }
}

/// A row of the `questions_with_answers` view: one question paired with one
/// user, with that user's answer when they gave one. The answer side is an
/// outer join, so its columns may be NULL.
pub struct QuestionWithAnswerModel {
    pub id: u64,
    pub lecture_id: u64,
    pub question_number: u64,
    pub question: String,
    pub user_email: String,
    pub answer_id: Option<String>,
    pub answer_email: Option<String>,
    pub lec: Option<u64>,
    pub question_id: Option<u64>,
    pub answer: Option<String>,
    pub submitted_at: Option<String>,
}

impl QuestionWithAnswerModel {
    /// Reads `(id, lecture_id, question_number, question, user_email,
    /// answer_id, answer_email, lec, question_id, answer, submitted_at)`.
    pub fn from_row(row: &Vec<SqlValue>) -> (r: Option<QuestionWithAnswerModel>)
        ensures
            r is Some <==> (u64_at(row@, 0) is Some && u64_at(row@, 1) is Some && u64_at(row@, 2) is Some
                && text_at(row@, 3) is Some && text_at(row@, 4) is Some && opt_text_at(row@, 5) is Some
                && opt_text_at(row@, 6) is Some && opt_u64_at(row@, 7) is Some && opt_u64_at(row@, 8) is Some
                && opt_text_at(row@, 9) is Some && opt_text_at(row@, 10) is Some),
            r matches Some(m) ==> {
                &&& Some(m.id) == u64_at(row@, 0)
                &&& Some(m.lecture_id) == u64_at(row@, 1)
                &&& Some(m.question_number) == u64_at(row@, 2)
                &&& Some(m.question@) == text_at(row@, 3)
                &&& Some(m.user_email@) == text_at(row@, 4)
                &&& Some(opt_string_view(m.answer_id)) == opt_text_at(row@, 5)
                &&& Some(opt_string_view(m.answer_email)) == opt_text_at(row@, 6)
                &&& Some(m.lec) == opt_u64_at(row@, 7)
                &&& Some(m.question_id) == opt_u64_at(row@, 8)
                &&& Some(opt_string_view(m.answer)) == opt_text_at(row@, 9)
                &&& Some(opt_string_view(m.submitted_at)) == opt_text_at(row@, 10)
            },
    {
        let id = match read_u64(row, 0) { Some(x) => x, None => return None };
        let lecture_id = match read_u64(row, 1) { Some(x) => x, None => return None };
        let question_number = match read_u64(row, 2) { Some(x) => x, None => return None };
        let question = match read_text(row, 3) { Some(x) => x, None => return None };
        let user_email = match read_text(row, 4) { Some(x) => x, None => return None };
        let answer_id = match read_opt_text(row, 5) { Some(x) => x, None => return None };
        let answer_email = match read_opt_text(row, 6) { Some(x) => x, None => return None };
        let lec = match read_opt_u64(row, 7) { Some(x) => x, None => return None };
        let question_id = match read_opt_u64(row, 8) { Some(x) => x, None => return None };
        let answer = match read_opt_text(row, 9) { Some(x) => x, None => return None };
        let submitted_at = match read_opt_text(row, 10) { Some(x) => x, None => return None };
        Some(
            QuestionWithAnswerModel {
                id,
                lecture_id,
                question_number,
                question,
                user_email,
                answer_id,
                answer_email,
                lec,
                question_id,
                answer,
                submitted_at,
            },
        )
    }
}

/// A row of the `users` table.
pub struct UserModel {
    pub email: String,
    pub apikey: String,
    pub is_admin: bool,
    pub consent: bool,
}

impl UserModel {
    /// Reads `(email, apikey, is_admin, consent)`.
    pub fn from_row(row: &Vec<SqlValue>) -> (r: Option<UserModel>)
        ensures
            r is Some <==> (text_at(row@, 0) is Some && text_at(row@, 1) is Some && bool_at(row@, 2) is Some
                && bool_at(row@, 3) is Some),
            r matches Some(m) ==> {
                &&& Some(m.email@) == text_at(row@, 0)
                &&& Some(m.apikey@) == text_at(row@, 1)
                &&& Some(m.is_admin) == bool_at(row@, 2)
                &&& Some(m.consent) == bool_at(row@, 3)
            },
    {
        let email = match read_text(row, 0) { Some(x) => x, None => return None };
        let apikey = match read_text(row, 1) { Some(x) => x, None => return None };
        let is_admin = match read_bool(row, 2) { Some(x) => x, None => return None };
        let consent = match read_bool(row, 3) { Some(x) => x, None => return None };
        Some(UserModel { email, apikey, is_admin, consent })
    }
}

/// The (author, lecture) rule of each answer row.
pub open spec fn answer_rules(rows: Seq<AnswerModel>) -> Seq<(Seq<char>, u64)> {
    rows.map_values(|m: AnswerModel| (m.email@, m.lec))
}

pub fn answer_rule_list(rows: &Vec<AnswerModel>) -> (r: Vec<(String, u64)>)
    ensures
        pairs_view(r@) == answer_rules(rows@),
{
    let mut out: Vec<(String, u64)> = Vec::new();
    let mut i: usize = 0;
    while i < rows.len()
        invariant
            i <= rows@.len(),
            pairs_view(out@) == answer_rules(rows@).take(i as int),
        decreases rows@.len() - i,
    {
        let ghost before = pairs_view(out@);
        out.push((rows[i].email.clone(), rows[i].lec));
        assert(pairs_view(out@) =~= before.push(pairs_view(out@)[i as int]));
        assert(answer_rules(rows@).take(i + 1) =~= answer_rules(rows@).take(i as int).push(answer_rules(rows@)[i as int]));
        assert(pairs_view(out@) =~= answer_rules(rows@).take(i + 1));
        i = i + 1;
    }
    assert(answer_rules(rows@).take(rows@.len() as int) =~= answer_rules(rows@));
    out
}

/// The author of each answer row.
pub open spec fn answer_authors(rows: Seq<AnswerModel>) -> Seq<Seq<char>> {
    rows.map_values(|m: AnswerModel| m.email@)
}

pub fn answer_author_list(rows: &Vec<AnswerModel>) -> (r: Vec<String>)
    ensures
        views(r@) == answer_authors(rows@),
{
    let mut out: Vec<String> = Vec::new();
    let mut i: usize = 0;
    while i < rows.len()
        invariant
            i <= rows@.len(),
            views(out@) == answer_authors(rows@).take(i as int),
        decreases rows@.len() - i,
    {
        let ghost before = views(out@);
        out.push(rows[i].email.clone());
        assert(views(out@) =~= before.push(views(out@)[i as int]));
        assert(answer_authors(rows@).take(i + 1) =~= answer_authors(rows@).take(i as int).push(answer_authors(rows@)[i as int]));
        assert(views(out@) =~= answer_authors(rows@).take(i + 1));
        i = i + 1;
    }
    assert(answer_authors(rows@).take(rows@.len() as int) =~= answer_authors(rows@));
    out
}

/// The email of each user row.
pub open spec fn user_emails(rows: Seq<UserModel>) -> Seq<Seq<char>> {
    rows.map_values(|m: UserModel| m.email@)
}

pub fn user_email_list(rows: &Vec<UserModel>) -> (r: Vec<String>)
    ensures
        views(r@) == user_emails(rows@),
{
    let mut out: Vec<String> = Vec::new();
    let mut i: usize = 0;
    while i < rows.len()
        invariant
            i <= rows@.len(),
            views(out@) == user_emails(rows@).take(i as int),
        decreases rows@.len() - i,
    {
        let ghost before = views(out@);
        out.push(rows[i].email.clone());
        assert(views(out@) =~= before.push(views(out@)[i as int]));
        assert(user_emails(rows@).take(i + 1) =~= user_emails(rows@).take(i as int).push(user_emails(rows@)[i as int]));
        assert(views(out@) =~= user_emails(rows@).take(i + 1));
        i = i + 1;
    }
    assert(user_emails(rows@).take(rows@.len() as int) =~= user_emails(rows@));
    out
}

/// The email of each presenter row.
pub open spec fn presenter_emails(rows: Seq<PresenterModel>) -> Seq<Seq<char>> {
    rows.map_values(|m: PresenterModel| m.email@)
}

pub fn presenter_email_list(rows: &Vec<PresenterModel>) -> (r: Vec<String>)
    ensures
        views(r@) == presenter_emails(rows@),
{
    let mut out: Vec<String> = Vec::new();
    let mut i: usize = 0;
    while i < rows.len()
        invariant
            i <= rows@.len(),
            views(out@) == presenter_emails(rows@).take(i as int),
        decreases rows@.len() - i,
    {
        let ghost before = views(out@);
        out.push(rows[i].email.clone());
        assert(views(out@) =~= before.push(views(out@)[i as int]));
        assert(presenter_emails(rows@).take(i + 1) =~= presenter_emails(rows@).take(i as int).push(presenter_emails(rows@)[i as int]));
        assert(views(out@) =~= presenter_emails(rows@).take(i + 1));
        i = i + 1;
    }
    assert(presenter_emails(rows@).take(rows@.len() as int) =~= presenter_emails(rows@));
    out
}

/// The rule of the answer side of each question row: the paired user, for the question's lecture.
pub open spec fn question_rules(rows: Seq<QuestionWithAnswerModel>) -> Seq<(Seq<char>, u64)> {
    rows.map_values(|m: QuestionWithAnswerModel| (m.user_email@, m.lecture_id))
}

pub fn question_rule_list(rows: &Vec<QuestionWithAnswerModel>) -> (r: Vec<(String, u64)>)
    ensures
        pairs_view(r@) == question_rules(rows@),
{
    let mut out: Vec<(String, u64)> = Vec::new();
    let mut i: usize = 0;
    while i < rows.len()
        invariant
            i <= rows@.len(),
            pairs_view(out@) == question_rules(rows@).take(i as int),
        decreases rows@.len() - i,
    {
        let ghost before = pairs_view(out@);
        out.push((rows[i].user_email.clone(), rows[i].lecture_id));
        assert(pairs_view(out@) =~= before.push(pairs_view(out@)[i as int]));
        assert(question_rules(rows@).take(i + 1) =~= question_rules(rows@).take(i as int).push(question_rules(rows@)[i as int]));
        assert(pairs_view(out@) =~= question_rules(rows@).take(i + 1));
        i = i + 1;
    }
    assert(question_rules(rows@).take(rows@.len() as int) =~= question_rules(rows@));
    out
}

} // verus!
