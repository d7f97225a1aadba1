//! Adding and editing a lecture's questions.
use websubmit_boxed::guards::admin::admin_guard;
use websubmit_boxed::routes::admin::lectures::{lec, QuestionModel};
use websubmit_boxed::routes::admin::questions::{addq, editq, editq_submit};
use websubmit_boxed::models::QuestionWithAnswerModel;
use websubmit_boxed::policies::PolicyContext;
use websubmit_boxed::routes::students::questions::questions;

const ADMIN: &str = "admin@bu.edu";
const ALEX: &str = "alex@brown.edu";

fn admins() -> Vec<String> {
    vec![ADMIN.to_string()]
}

#[test]
fn the_admin_can_add_questions_to_a_lecture() {
    let mut stored: Vec<QuestionModel> = vec![];
    for question in 1..=2u64 {
        let insert = addq(94, stored.len(), format!("Prompt number {}", question));
        assert_eq!(insert.location, "/admin/lec/94");
        stored.push(QuestionModel {
            id: 100 + question,
            lecture_id: insert.lecture_id,
            question_number: insert.question_number,
            question: insert.question,
        });
    }

    // They are numbered within the lecture, in the order they were added.
    let page = lec(&vec!["Question tests".to_string()], &vec![], stored);
    let lines: Vec<String> =
        page.questions.iter().map(|q| format!("{}: {}", q.question_number, q.question)).collect();
    assert_eq!(lines, vec!["1: Prompt number 1", "2: Prompt number 2"]);

    // ... and students are offered a box for each.
    let rows: Vec<QuestionWithAnswerModel> = page
        .questions
        .iter()
        .map(|q| QuestionWithAnswerModel {
            id: q.id,
            lecture_id: q.lecture_id,
            question_number: q.question_number,
            question: q.question.clone(),
            user_email: ALEX.to_string(),
            answer_id: None,
            answer_email: None,
            lec: None,
            question_id: None,
            answer: None,
            submitted_at: None,
        })
        .collect();
    let alex = PolicyContext { user: Some(ALEX.to_string()), admins: admins(), managers: vec![], presenters: vec![] };
    let form = questions(&alex, &rows).unwrap();
    assert_eq!(form.len(), 2);
    for id in [101u64, 102] {
        assert!(form.iter().any(|r| r.id == id));
    }
}

#[test]
fn the_admin_can_edit_a_question() {
    let found = vec![QuestionModel {
        id: 7,
        lecture_id: 95,
        question_number: 1,
        question: "The original prompt".to_string(),
    }];
    let page = editq(95, 7, &found);
    assert_eq!(page.qnum.as_deref(), Some("1"));
    assert_eq!(page.prompt.as_deref(), Some("The original prompt"));
    assert_eq!(format!("/admin/lec/editq/{}/{}", page.lec_id, page.id), "/admin/lec/editq/95/7");
    assert_eq!(editq_submit(95), "/admin/lec/95");

    let missing = editq(95, 8, &vec![]);
    assert!(missing.prompt.is_none() && missing.qnum.is_none());
}

#[test]
fn questions_are_not_editable_by_students() {
    assert!(admin_guard(&Some(ALEX.to_string()), &admins()).is_err());
    assert!(admin_guard(&None, &admins()).is_err());
}
