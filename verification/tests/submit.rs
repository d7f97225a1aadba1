//! Answering a lecture's questions, and who can read those answers back.
use websubmit_boxed::config::Config;
use websubmit_boxed::models::{AnswerModel, QuestionWithAnswerModel};
use websubmit_boxed::routes::leclist::{leclist, LectureCount};
use websubmit_boxed::policies::PolicyContext;
use websubmit_boxed::routes::students::questions::{
    questions, questions_submit, questions_visible,
};

const ADMIN: &str = "admin@bu.edu";
const ALEX: &str = "alex@brown.edu";
const SARAH: &str = "sarah@brown.edu";
const CORINN: &str = "corinn@brown.edu";
const LECTURE: u64 = 1;

fn config() -> Config {
    Config {
        class: "TEST 101".to_string(),
        port: 8000,
        db_addr: "127.0.0.1".to_string(),
        db_name: "websubmit_test".to_string(),
        db_user: "root".to_string(),
        db_password: "password".to_string(),
        admins: vec![ADMIN.to_string()],
        staff: vec![ADMIN.to_string()],
        email_domain: None,
        template_dir: "templates".to_string(),
        resource_dir: "resources".to_string(),
        secret: "test-secret".to_string(),
        anthropic_api_key: String::new(),
        send_emails: false,
        smtp_server: "localhost".to_string(),
        smtp_port: 25,
        smtp_user: String::new(),
        smtp_password: String::new(),
        smtp_from: "no-reply@test.invalid".to_string(),
        prime: false,
    }
}

fn ctx(user: &str) -> PolicyContext {
    PolicyContext {
        user: Some(user.to_string()),
        admins: vec![ADMIN.to_string()],
        managers: vec![],
        presenters: vec![(1, CORINN.to_string())],
    }
}

/// A row of the answer form's view: question `id` (number `q`) of lecture
/// `l`, paired with `user` and carrying their answer, if any.
fn view_row(user: &str, l: u64, id: u64, q: u64, prompt: &str, text: Option<&str>) -> QuestionWithAnswerModel {
    QuestionWithAnswerModel {
        id,
        lecture_id: l,
        question_number: q,
        question: prompt.to_string(),
        user_email: user.to_string(),
        answer_id: text.map(|_| format!("{}-{}", user, id)),
        answer_email: text.map(|_| user.to_string()),
        lec: text.map(|_| l),
        question_id: text.map(|_| id),
        answer: text.map(String::from),
        submitted_at: text.map(|_| "2024-01-01 10:00:00".to_string()),
    }
}

/// Lecture `l`'s questions as the answer form's view pairs them with
/// `user`'s answers, in no particular order.
fn form_rows(user: &str, l: u64, answers: &[Option<&str>]) -> Vec<QuestionWithAnswerModel> {
    let mut rows: Vec<QuestionWithAnswerModel> = (1..=2u64)
        .map(|q| view_row(user, l, (l - 1) * 2 + q, q, &format!("Lecture {} question {}", l, q), answers[(q - 1) as usize]))
        .collect();
    rows.reverse();
    rows
}

#[test]
fn the_questions_page_shows_a_box_per_question() {
    let rows = questions(&ctx(SARAH), &form_rows(SARAH, 3, &[None, None])).unwrap();
    assert!(rows.iter().any(|r| r.prompt == "Lecture 3 question 1"));
    assert!(rows.iter().any(|r| r.prompt == "Lecture 3 question 2"));
    let ids: Vec<u64> = rows.iter().map(|r| r.id).collect();
    assert_eq!(ids, vec![5, 6]);
    // Nothing answered yet, so every box is empty.
    assert_eq!(rows.iter().filter(|r| r.answer.is_none()).count(), 2);
}

#[test]
fn submitting_answers_stores_them_and_shows_them_again() {
    let ids = vec![1u64, 2];
    let answer = "Alex answered this one properly";
    let submission = questions_submit(
        ALEX,
        LECTURE,
        &ids.iter().map(|id| (*id, answer.to_string())).collect(),
        &config(),
    );
    assert_eq!(submission.location, "/leclist");
    assert!(submission.notice.is_none());

    // Stored under the synthesised "{email}-{question_id}" key.
    assert_eq!(submission.writes.len(), ids.len());
    for (w, q) in submission.writes.iter().zip(ids.iter()) {
        assert_eq!(w.id, format!("{}-{}", ALEX, q));
        assert_eq!((w.answer.as_str(), w.lec, w.email.as_str()), (answer, LECTURE, ALEX));
    }

    // The answers come back on the questions page, in the right boxes.
    let rows = questions(&ctx(ALEX), &form_rows(ALEX, LECTURE, &[Some(answer), Some(answer)])).unwrap();
    assert_eq!(rows.iter().filter(|r| r.answer.as_deref() == Some(answer)).count(), ids.len());

    // ... and the lecture list now counts them.
    let own: Vec<AnswerModel> = submission
        .writes
        .iter()
        .map(|w| AnswerModel {
            id: w.id.clone(),
            email: w.email.clone(),
            lec: w.lec,
            question_id: w.question_id,
            answer: w.answer.clone(),
            submitted_at: "2024-01-01 10:00:00".to_string(),
        })
        .collect();
    let lectures: Vec<LectureCount> =
        (1..=3u64).map(|l| LectureCount { id: l, label: format!("Lecture {}", l), num_qs: 2 }).collect();
    let page = leclist(&ctx(ALEX), &ALEX.to_string(), &vec![ADMIN.to_string()], &lectures, &own).unwrap();
    let row = &page.lectures[0];
    assert_eq!(format!("{} ({}/{})", row.label, row.num_answered, row.num_qs), "Lecture 1 (2/2)");
}

#[test]
fn resubmitting_replaces_the_previous_answer() {
    let first = questions_submit(ALEX, 2, &vec![(3, "A first attempt at the answer".to_string())], &config());
    let second = questions_submit(ALEX, 2, &vec![(3, "A second and better attempt".to_string())], &config());
    // Both land on the same key, so the second replaces the first.
    assert_eq!(first.writes[0].id, second.writes[0].id);
    assert_eq!(second.writes[0].id, format!("{}-{}", ALEX, 3));
    assert_eq!(second.writes[0].answer, "A second and better attempt");
}

#[test]
fn a_student_does_not_see_another_students_answers() {
    let answer = "Alex answered this one properly";
    // A row of the answer form: lecture 1's question `q` paired with `user`,
    // carrying that user's answer.
    let row = |user: &str, q: u64, text: Option<&str>| {
        view_row(user, LECTURE, q, q, &format!("Lecture 1 question {}", q), text)
    };
    let sarah = ctx(SARAH);
    // Sarah's form pairs lecture 1's questions with her own (absent) answers:
    // she may see it.
    let own = vec![row(SARAH, 1, None), row(SARAH, 2, None)];
    assert!(questions_visible(&sarah, &own));
    // A form carrying Alex's answers is refused to her.
    let mixed = vec![row(SARAH, 1, None), row(ALEX, 2, Some(answer))];
    assert!(!questions_visible(&sarah, &mixed));
    assert!(!questions_visible(&sarah, &vec![row(ALEX, 1, Some(answer))]));
    assert!(questions(&sarah, &mixed).is_none());

    let rows = questions(&sarah, &form_rows(SARAH, LECTURE, &[None, None])).unwrap();
    for id in [1u64, 2] {
        assert!(rows.iter().any(|r| r.id == id));
    }
    assert!(!rows.iter().any(|r| r.answer.as_deref() == Some(answer)));
    assert_eq!(rows.iter().filter(|r| r.answer.is_none()).count(), 2);
}

#[test]
fn submitting_mails_the_staff_when_emails_are_on() {
    let mut cfg = config();
    cfg.send_emails = true;
    let submission = questions_submit(
        ALEX,
        7,
        &vec![(1, "first".to_string()), (2, "second".to_string())],
        &cfg,
    );
    let notice = submission.notice.unwrap();
    assert_eq!(notice.reply_to, ALEX);
    assert_eq!(notice.recipients, vec![ADMIN.to_string()]);
    assert_eq!(notice.subject, "TEST 101 meeting 7 questions");
    assert_eq!(notice.text, "Question 1:\nfirst\n-----\nQuestion 2:\nsecond");
}

#[test]
fn rows_of_equal_id_keep_their_order() {
    let rows = vec![
        view_row(ALEX, 1, 2, 1, "b", None),
        view_row(ALEX, 1, 1, 1, "first", None),
        view_row(ALEX, 1, 1, 2, "second", None),
    ];
    let sorted = questions(&ctx(ALEX), &rows).unwrap();
    let prompts: Vec<&str> = sorted.iter().map(|r| r.prompt.as_str()).collect();
    assert_eq!(prompts, vec!["first", "second", "b"]);
}
