//! The lecture list: what a student sees, and the extra links an admin gets.
use websubmit_boxed::models::AnswerModel;
use websubmit_boxed::policies::PolicyContext;
use websubmit_boxed::routes::leclist::{leclist, LectureCount};

const ADMIN: &str = "admin@bu.edu";
const CORINN: &str = "corinn@brown.edu";
const ALLEN: &str = "allen@brown.edu";

fn admins() -> Vec<String> {
    vec![ADMIN.to_string()]
}

fn ctx(user: &str) -> PolicyContext {
    PolicyContext { user: Some(user.to_string()), admins: admins(), managers: vec![], presenters: vec![] }
}

fn answer(email: &str, lec: u64, text: &str) -> AnswerModel {
    AnswerModel {
        id: format!("{}-{}", email, lec),
        email: email.to_string(),
        lec,
        question_id: lec,
        answer: text.to_string(),
        submitted_at: "2024-01-01 10:00:00".to_string(),
    }
}

/// The seeded lectures: three, each with two questions.
fn lectures() -> Vec<LectureCount> {
    (1..=3u64)
        .map(|l| LectureCount { id: l, label: format!("Lecture {}", l), num_qs: 2 })
        .collect()
}

#[test]
fn the_lecture_list_shows_every_lecture_and_its_question_count() {
    // Corinn never answers anything, so her counts stay at zero.
    let page = leclist(&ctx(CORINN), &CORINN.to_string(), &admins(), &lectures(), &vec![]).unwrap();
    for lecture in 1..=3u64 {
        let row = page.lectures.iter().find(|r| r.id == lecture).unwrap();
        assert_eq!(row.label, format!("Lecture {}", lecture));
        assert_eq!((row.num_answered, row.num_qs), (0, 2), "lecture {} is missing or miscounted on the list", lecture);
    }
}

#[test]
fn students_do_not_see_the_admin_links() {
    let page = leclist(&ctx(ALLEN), &ALLEN.to_string(), &admins(), &lectures(), &vec![]).unwrap();
    assert!(!page.admin);
}

#[test]
fn the_admin_sees_the_admin_links() {
    let page = leclist(&ctx(ADMIN), &ADMIN.to_string(), &admins(), &lectures(), &vec![]).unwrap();
    assert!(page.admin);
    assert!(page.lectures.iter().any(|r| r.id == 1));
}

#[test]
fn blank_answers_are_not_counted() {
    let answers = vec![
        answer(CORINN, 1, "an answer"),
        answer(CORINN, 1, "   "),
        answer(CORINN, 2, "another"),
    ];
    let page = leclist(&ctx(CORINN), &CORINN.to_string(), &admins(), &lectures(), &answers).unwrap();
    let counts: Vec<u64> = page.lectures.iter().map(|r| r.num_answered).collect();
    assert_eq!(counts, vec![1, 1, 0]);
}

#[test]
fn the_list_is_refused_when_it_would_count_another_students_answers() {
    let answers = vec![answer(CORINN, 1, "mine"), answer(ALLEN, 1, "not mine")];
    assert!(leclist(&ctx(CORINN), &CORINN.to_string(), &admins(), &lectures(), &answers).is_none());
    // Nor may one see the list of someone else.
    assert!(leclist(&ctx(CORINN), &ALLEN.to_string(), &admins(), &lectures(), &vec![]).is_none());
}
