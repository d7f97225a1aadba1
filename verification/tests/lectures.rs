//! Adding a lecture, and editing its title and presenters.
use websubmit_boxed::guards::admin::admin_guard;
use websubmit_boxed::models::AnswerModel;
use websubmit_boxed::policies::PolicyContext;
use websubmit_boxed::routes::admin::lectures::{
    lec, lec_add_submit, lec_edit_submit, parse_presenters, QuestionModel,
};
use websubmit_boxed::routes::answers::presenters::answers_for_presenters;
use websubmit_boxed::routes::leclist::{leclist, LectureCount};

const ADMIN: &str = "admin@bu.edu";
const CORINN: &str = "corinn@brown.edu";
const ARTEM: &str = "artem@brown.edu";
const ALEX: &str = "alex@brown.edu";
const SARAH: &str = "sarah@brown.edu";
const ALLEN: &str = "allen@brown.edu";

fn admins() -> Vec<String> {
    vec![ADMIN.to_string()]
}

/// An answer by `email` to a question of lecture `lec`.
fn answer(email: &str, lec: u64) -> AnswerModel {
    AnswerModel {
        id: format!("{}-1", email),
        email: email.to_string(),
        lec,
        question_id: 1,
        answer: "an answer".to_string(),
        submitted_at: "2024-01-01 10:00:00".to_string(),
    }
}

fn viewer(user: &str, presenters: Vec<(u64, String)>) -> PolicyContext {
    PolicyContext { user: Some(user.to_string()), admins: admins(), managers: vec![], presenters }
}

#[test]
fn the_add_lecture_form_is_admin_only() {
    assert!(admin_guard(&Some(ADMIN.to_string()), &admins()).is_ok());
    assert!(admin_guard(&Some(ALEX.to_string()), &admins()).is_err());
}

#[test]
fn the_admin_can_add_a_lecture() {
    let insert = lec_add_submit(91, "Added lecture".to_string());
    assert_eq!(insert.location, "/leclist");
    assert_eq!((insert.id, insert.label.as_str()), (91, "Added lecture"));

    // A lecture with no questions still shows up, with a zero denominator.
    let lectures = vec![LectureCount { id: insert.id, label: insert.label.clone(), num_qs: 0 }];
    let page = leclist(&viewer(ADMIN, vec![]), &ADMIN.to_string(), &admins(), &lectures, &vec![]).unwrap();
    let row = &page.lectures[0];
    assert_eq!(format!("{} ({}/{})", row.label, row.num_answered, row.num_qs), "Added lecture (0/0)");
}

#[test]
fn the_lecture_admin_page_shows_its_questions_and_presenters() {
    // Lecture 1's questions (ids 1 and 2), as the store may return them.
    let questions = vec![
        QuestionModel { id: 2, lecture_id: 1, question_number: 2, question: "Lecture 1 question 2".to_string() },
        QuestionModel { id: 1, lecture_id: 1, question_number: 1, question: "Lecture 1 question 1".to_string() },
    ];
    let page = lec(&vec!["Lecture 1".to_string()], &vec![CORINN.to_string()], questions);
    assert_eq!(page.title, "Lecture 1");
    assert_eq!(page.presenters, CORINN);
    let lines: Vec<String> =
        page.questions.iter().map(|q| format!("{}: {}", q.question_number, q.question)).collect();
    assert_eq!(lines, vec!["1: Lecture 1 question 1", "2: Lecture 1 question 2"]);
    let ids: Vec<u64> = page.questions.iter().map(|q| q.id).collect();
    assert_eq!(ids, vec![1, 2]);
}

#[test]
fn the_lecture_admin_page_is_closed_to_students() {
    assert!(admin_guard(&Some(SARAH.to_string()), &admins()).is_err());
}

#[test]
fn editing_a_lecture_sets_its_title_and_replaces_its_presenters() {
    let edit = lec_edit_submit(92, "After edit".to_string(), &format!("{},{}", SARAH, ALLEN));
    assert_eq!(edit.location, "/admin/lec/92");
    assert_eq!(edit.label, "After edit");
    assert_eq!(edit.presenters, vec![SARAH.to_string(), ALLEN.to_string()]);

    // Sarah can now read lecture 92's answers as its presenter.
    let presenters: Vec<(u64, String)> = edit.presenters.iter().map(|p| (92, p.clone())).collect();
    assert!(answers_for_presenters(&viewer(SARAH, presenters), 92, &vec![answer(CORINN, 92)]).is_some());

    // Editing again replaces the presenter list wholesale.
    let edit = lec_edit_submit(92, "After edit".to_string(), ALLEN);
    assert_eq!(edit.presenters, vec![ALLEN.to_string()]);
    let presenters: Vec<(u64, String)> = edit.presenters.iter().map(|p| (92, p.clone())).collect();
    assert!(answers_for_presenters(&viewer(SARAH, presenters), 92, &vec![answer(CORINN, 92)]).is_none());
}

#[test]
fn editing_a_lecture_is_closed_to_students() {
    assert!(admin_guard(&Some(ARTEM.to_string()), &admins()).is_err());
}

#[test]
fn presenter_lists_are_trimmed_and_skip_blanks() {
    assert_eq!(parse_presenters(" a@x.edu , ,b@x.edu,"), vec!["a@x.edu".to_string(), "b@x.edu".to_string()]);
    assert!(parse_presenters("").is_empty());
    assert!(parse_presenters(" , ").is_empty());
}
