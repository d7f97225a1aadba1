//! Adding and editing a lecture's questions.
use vstd::prelude::*;

use crate::routes::admin::lectures::{lecture_admin_location, lecture_admin_path, QuestionModel};
use crate::text::{decimal_string, u64_to_string};

verus! {

/// A new question is numbered after the lecture's existing ones.
pub fn next_question_number(existing: usize) -> (r: u64)
    requires
        existing < u64::MAX,
    ensures
        r == existing + 1,
{
    existing as u64 + 1
}

/// A question added to a lecture, and where to go next.
pub struct QuestionInsert {
    pub lecture_id: u64,
    pub question_number: u64,
    pub question: String,
    pub location: String,
}

/// Adds a question to lecture `num`, which has `existing` questions: it is
/// numbered after them.
pub fn addq(num: u8, existing: usize, q_prompt: String) -> (r: QuestionInsert)
    requires
        existing < u64::MAX,
    ensures
        r.lecture_id == num,
        r.question_number == existing + 1,
        r.question@ == q_prompt@,
        r.location@ == lecture_admin_path(num),
{
    QuestionInsert {
        lecture_id: num as u64,
        question_number: next_question_number(existing),
        question: q_prompt,
        location: lecture_admin_location(num),
    }
}

/// Where editing a question of lecture `num` leads.
pub fn editq_submit(num: u8) -> (r: String)
    ensures
        r@ == lecture_admin_path(num),
{
    lecture_admin_location(num)
}

/// The question edit page.
pub struct QuestionEditPage {
    /// The question's prompt, if the question exists.
    pub prompt: Option<String>,
    /// Its number within the lecture, if the question exists.
    pub qnum: Option<String>,
    pub id: String,
    pub lec_id: String,
}

/// The edit page for question `qid` of lecture `num`, from the rows found for
/// that id (the first one is shown).
pub fn editq(num: u8, qid: u64, found: &Vec<QuestionModel>) -> (r: QuestionEditPage)
    ensures
        r.id@ == decimal_string(qid as nat),
        r.lec_id@ == decimal_string(num as nat),
        found@.len() == 0 ==> r.prompt is None && r.qnum is None,
        found@.len() > 0 ==> (r.prompt matches Some(p) && p@ == found@[0].question@),
        found@.len() > 0 ==> (r.qnum matches Some(q) && q@ == decimal_string(found@[0].question_number as nat)),
{
    let (prompt, qnum) = if found.len() > 0 {
        (Some(found[0].question.clone()), Some(u64_to_string(found[0].question_number)))
    } else {
        (None, None)
    };
    QuestionEditPage { prompt, qnum, id: u64_to_string(qid), lec_id: u64_to_string(num as u64) }
}

} // verus!
