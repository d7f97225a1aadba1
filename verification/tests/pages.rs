//! Every value a page shows passes its rule for the viewer.
use websubmit_boxed::models::{AnswerModel, PresenterModel, UserModel};
use websubmit_boxed::policies::PolicyContext;
use websubmit_boxed::routes::access::access_visible;
use websubmit_boxed::routes::admin::users::{grading_visible, users_visible};
use websubmit_boxed::routes::leclist::leclist_visible;

const ADMIN: &str = "admin@bu.edu";
const ALEX: &str = "alex@brown.edu";
const SARAH: &str = "sarah@brown.edu";

fn ctx(user: &str) -> PolicyContext {
    PolicyContext {
        user: Some(user.to_string()),
        admins: vec![ADMIN.to_string()],
        managers: vec![],
        presenters: vec![(2, SARAH.to_string())],
    }
}

fn answer(email: &str, lec: u64) -> AnswerModel {
    AnswerModel {
        id: format!("{}-1", email),
        email: email.to_string(),
        lec,
        question_id: 1,
        answer: "an answer".to_string(),
        submitted_at: "2024-01-01 10:00:00".to_string(),
    }
}

fn user(email: &str) -> UserModel {
    UserModel { email: email.to_string(), apikey: "k".to_string(), is_admin: false, consent: true }
}

#[test]
fn the_lecture_list_shows_only_the_viewers_own_answers() {
    assert!(leclist_visible(&ctx(ALEX), &ALEX.to_string(), &vec![answer(ALEX, 1), answer(ALEX, 2)]));
    assert!(leclist_visible(&ctx(ALEX), &ALEX.to_string(), &vec![]));
    assert!(!leclist_visible(&ctx(ALEX), &ALEX.to_string(), &vec![answer(ALEX, 1), answer(SARAH, 1)]));
    // The admin flag is guarded by the email it is derived from.
    assert!(!leclist_visible(&ctx(ALEX), &SARAH.to_string(), &vec![]));
}

#[test]
fn the_access_page_shows_only_the_viewers_rows() {
    let users = vec![user(ALEX)];
    let answers = vec![answer(ALEX, 1)];
    let presenters = vec![PresenterModel { id: 1, lecture_id: 1, email: ALEX.to_string() }];
    assert!(access_visible(&ctx(ALEX), &users, &answers, &presenters));
    assert!(!access_visible(&ctx(SARAH), &users, &vec![], &vec![]));
    // Sarah presents lecture 2, but Alex's answer id still names him.
    assert!(!access_visible(&ctx(SARAH), &vec![], &vec![answer(ALEX, 2)], &vec![]));
    assert!(access_visible(&ctx(ADMIN), &users, &answers, &presenters));
}

#[test]
fn the_user_list_and_report_are_for_admins() {
    let users = vec![user(ALEX), user(SARAH)];
    assert!(users_visible(&ctx(ADMIN), &users));
    assert!(!users_visible(&ctx(ALEX), &users));
    assert!(users_visible(&ctx(ALEX), &vec![user(ALEX)]));
    let emails = vec![ALEX.to_string(), SARAH.to_string()];
    let answers = vec![answer(ALEX, 1), answer(SARAH, 2)];
    assert!(grading_visible(&ctx(ADMIN), &emails, &answers));
    assert!(!grading_visible(&ctx(ALEX), &emails, &answers));
    assert!(!grading_visible(&ctx(SARAH), &vec![SARAH.to_string()], &vec![answer(SARAH, 2), answer(ALEX, 2)]));
    assert!(grading_visible(&ctx(ALEX), &vec![ALEX.to_string()], &vec![answer(ALEX, 1)]));
}
