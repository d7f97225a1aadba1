//! The "access my data" page: what a signed-in user can see about
//! themselves, and that it never shows their API key.
use websubmit_boxed::guards::apikey::{check_api_key, context_user, ApiKeyError};
use websubmit_boxed::models::{AnswerModel, PresenterModel, UserModel};
use websubmit_boxed::policies::PolicyContext;
use websubmit_boxed::routes::access::access;
use websubmit_boxed::row::SqlValue;
use websubmit_boxed::sandboxes::hash;

const ARTEM: &str = "artem@brown.edu";
const SECRET: &str = "test-secret";

fn apikey(email: &str) -> String {
    hash((email.to_string(), SECRET.to_string()))
}

#[test]
fn a_student_sees_their_own_data_and_never_their_api_key() {
    // What the store holds for Artem: his user row, his two answers to
    // lecture 2 (questions 3 and 4), and his presenting lecture 2.
    let users = vec![UserModel {
        email: ARTEM.to_string(),
        apikey: apikey(ARTEM),
        is_admin: false,
        consent: true,
    }];
    let answers: Vec<AnswerModel> = [3u64, 4]
        .iter()
        .map(|q| AnswerModel {
            id: format!("{}-{}", ARTEM, q),
            email: ARTEM.to_string(),
            lec: 2,
            question_id: *q,
            answer: format!("Artem's seeded answer to question {}", q),
            submitted_at: "2024-01-01 10:00:00".to_string(),
        })
        .collect();
    let presenters = vec![PresenterModel { id: 1, lecture_id: 2, email: ARTEM.to_string() }];

    let artem = PolicyContext { user: Some(ARTEM.to_string()), admins: vec![], managers: vec![], presenters: vec![] };
    let page = access(&artem, &users, &answers, &presenters).unwrap();

    assert!(page.users.iter().any(|u| u.email == ARTEM));
    assert_eq!(page.answers.iter().filter(|a| a.answer.contains("seeded answer")).count(), 2);
    assert_eq!(page.presenters.len(), 1);
    let key = apikey(ARTEM);
    let mut shown: Vec<String> = page.users.iter().map(|u| u.email.clone()).collect();
    shown.extend(page.answers.iter().flat_map(|a| vec![a.id.clone(), a.answer.clone()]));
    shown.extend(page.presenters.iter().map(|p| p.email.clone()));
    assert!(!shown.iter().any(|s| s.contains(&key)));
}

#[test]
fn the_access_page_is_closed_to_anonymous_visitors() {
    // No cookie: no user holds the (absent) key.
    assert_eq!(check_api_key(&vec![]), Err(ApiKeyError::Missing));
    assert_eq!(context_user(&vec![]), None);
}

#[test]
fn stored_rows_are_read_column_by_column() {
    let user = UserModel::from_row(&vec![
        SqlValue::Bytes(ARTEM.to_string()),
        SqlValue::Bytes(apikey(ARTEM)),
        SqlValue::Int(0),
        SqlValue::Bytes("1".to_string()),
    ])
    .unwrap();
    assert_eq!((user.email.as_str(), user.is_admin, user.consent), (ARTEM, false, true));
    assert_eq!(user.apikey, apikey(ARTEM));

    let answer = AnswerModel::from_row(&vec![
        SqlValue::Bytes(format!("{}-3", ARTEM)),
        SqlValue::Bytes(ARTEM.to_string()),
        SqlValue::Bytes("2".to_string()),
        SqlValue::UInt(3),
        SqlValue::Bytes("an answer".to_string()),
        SqlValue::Bytes("2024-01-01 10:00:00".to_string()),
    ])
    .unwrap();
    assert_eq!((answer.lec, answer.question_id), (2, 3));
    assert_eq!(answer.submitted_at, "2024-01-01 10:00:00");

    let presenter = PresenterModel::from_row(&vec![
        SqlValue::UInt(1),
        SqlValue::Int(2),
        SqlValue::Bytes(ARTEM.to_string()),
    ])
    .unwrap();
    assert_eq!((presenter.id, presenter.lecture_id, presenter.email.as_str()), (1, 2, ARTEM));
}

#[test]
fn rows_that_do_not_read_are_refused() {
    // Too few columns.
    assert!(UserModel::from_row(&vec![SqlValue::Bytes(ARTEM.to_string())]).is_none());
    // NULL where text is required.
    assert!(PresenterModel::from_row(&vec![SqlValue::UInt(1), SqlValue::UInt(2), SqlValue::Null]).is_none());
    // A negative lecture number, and text that is not a number.
    assert!(PresenterModel::from_row(&vec![SqlValue::UInt(1), SqlValue::Int(-2), SqlValue::Bytes(ARTEM.to_string())]).is_none());
    assert!(PresenterModel::from_row(&vec![SqlValue::UInt(1), SqlValue::Bytes("two".to_string()), SqlValue::Bytes(ARTEM.to_string())]).is_none());
    // A flag must be a number, or the text 0 or 1.
    assert!(UserModel::from_row(&vec![
        SqlValue::Bytes(ARTEM.to_string()),
        SqlValue::Bytes("k".to_string()),
        SqlValue::Bytes("yes".to_string()),
        SqlValue::Int(1),
    ])
    .is_none());
}
