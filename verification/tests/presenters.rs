//! Who may read a lecture's answers: its presenters (anonymously) and the
//! admin (with the authors' emails).
use websubmit_boxed::guards::admin::admin_guard;
use websubmit_boxed::policies::PolicyContext;
use websubmit_boxed::routes::admin::answers::composed_answers;
use websubmit_boxed::models::AnswerModel;
use websubmit_boxed::routes::answers::presenters::answers_for_presenters;

const ADMIN: &str = "admin@bu.edu";
const CORINN: &str = "corinn@brown.edu";
const ARTEM: &str = "artem@brown.edu";
const ALEX: &str = "alex@brown.edu";
const SARAH: &str = "sarah@brown.edu";
const ALLEN: &str = "allen@brown.edu";
const STUDENTS: [&str; 5] = [CORINN, ARTEM, ALEX, SARAH, ALLEN];

/// The seeded presenters: Corinn presents lecture 1, Artem lecture 2.
fn seeded_presenters() -> Vec<(u64, String)> {
    vec![(1, CORINN.to_string()), (2, ARTEM.to_string())]
}

fn viewer(user: &str, presenters: Vec<(u64, String)>) -> PolicyContext {
    PolicyContext {
        user: Some(user.to_string()),
        admins: vec![ADMIN.to_string()],
        managers: vec![],
        presenters,
    }
}

fn answers(email: &str, lec: u64, question_ids: &[u64], text: &str) -> Vec<AnswerModel> {
    question_ids
        .iter()
        .map(|q| AnswerModel {
            id: format!("{}-{}", email, q),
            email: email.to_string(),
            lec,
            question_id: *q,
            answer: text.to_string(),
            submitted_at: "2024-01-01 10:00:00".to_string(),
        })
        .collect()
}

#[test]
fn a_presenter_sees_the_answers_without_the_authors() {
    let answer = "Sarah wrote this for the discussion";
    let rows = answers(SARAH, 2, &[3, 4], answer);
    let page = answers_for_presenters(&viewer(ARTEM, seeded_presenters()), 2, &rows).unwrap();
    assert_eq!(page.lec_id, 2);
    let page = page.answers;
    assert!(page.iter().any(|a| a.answer == answer));
    assert!(page.iter().all(|a| a.lec == 2));
    // The presenter's view is anonymous: no author appears anywhere on it.
    for student in STUDENTS {
        assert!(!page.iter().any(|a| a.answer.contains(student) || a.submitted_at.contains(student)), "{} was revealed", student);
    }
}

#[test]
fn a_presenter_of_one_lecture_may_not_read_another() {
    let rows = answers(SARAH, 97, &[20], "Sarah's answer for lecture 97");
    assert!(answers_for_presenters(&viewer(ARTEM, seeded_presenters()), 97, &rows).is_none());
}

#[test]
fn a_student_who_presents_nothing_is_refused() {
    let mut presenters = seeded_presenters();
    presenters.push((98, CORINN.to_string()));
    for lecture in [98u8, 99] {
        let rows = answers(SARAH, lecture as u64, &[30 + lecture as u64], &format!("Sarah's answer for lecture {}", lecture));
        assert!(
            answers_for_presenters(&viewer(ALLEN, presenters.clone()), lecture, &rows).is_none(),
            "lecture {} was readable by a non-presenter",
            lecture
        );
    }
}

#[test]
fn the_admin_answers_page_names_the_authors() {
    let answer = "Allen had something to say here";
    let rows = answers(ALLEN, 3, &[5, 6], answer);
    let page = composed_answers(&viewer(ADMIN, seeded_presenters()), 3, &rows).unwrap();
    assert_eq!(page.lec_id, 3);
    let page = page.answers;
    assert!(page.iter().any(|a| a.answer == answer));
    assert!(page.iter().any(|a| a.email == ALLEN), "the admin view identifies the author");
}

#[test]
fn the_admin_answers_page_is_closed_to_students() {
    // Corinn presents lecture 1, which still does not make her an admin.
    assert!(admin_guard(&Some(CORINN.to_string()), &vec![ADMIN.to_string()]).is_err());
}

#[test]
fn a_presenter_cannot_see_authors_on_the_admin_page() {
    let rows = answers(SARAH, 2, &[3], "an answer");
    // Artem may read the answers as presenter, but not Sarah's address.
    assert!(composed_answers(&viewer(ARTEM, seeded_presenters()), 2, &rows).is_none());
    // An author may see their own answers and address.
    assert!(composed_answers(&viewer(SARAH, seeded_presenters()), 2, &rows).is_some());
}

#[test]
fn a_lecture_with_no_answers_is_shown_to_anyone() {
    let page = answers_for_presenters(&viewer(ALLEN, seeded_presenters()), 5, &vec![]).unwrap();
    assert_eq!(page.lec_id, 5);
    assert!(page.answers.is_empty());
}

#[test]
fn a_student_may_read_a_page_of_only_their_own_answers() {
    let rows = answers(ALLEN, 4, &[7, 8], "Allen's own answer");
    assert!(answers_for_presenters(&viewer(ALLEN, seeded_presenters()), 4, &rows).is_some());
    let mut mixed = rows;
    mixed.extend(answers(SARAH, 4, &[7], "Sarah's answer"));
    assert!(answers_for_presenters(&viewer(ALLEN, seeded_presenters()), 4, &mixed).is_none());
}
