//! The SQL the store is sent, the CSV the reports carry, and the text helpers
//! they are built from.
use websubmit_boxed::csv::csv;
use websubmit_boxed::db::backend::{connection_url, reconnect_url, schema_statements};
use websubmit_boxed::db::gdpr::{gdpr_get_query, gdpr_table, GdprTable};
use websubmit_boxed::db::query::{consented_answers_query, ColumnNames};
use websubmit_boxed::db::write::insert_query;
use websubmit_boxed::email::{mail_plan, transport_for_port, uses_credentials, SmtpSecurity};
use websubmit_boxed::text::{join, replace, split, trim, u64_to_string};

#[test]
fn select_statements_name_each_column_once() {
    assert_eq!(ColumnNames::none().select_from("lectures"), "SELECT * FROM lectures");
    assert_eq!(
        ColumnNames::one("email").select_from("users"),
        "SELECT * FROM users WHERE email = ?"
    );
    assert_eq!(
        ColumnNames::many(vec!["lec".to_string(), "email".to_string()]).select_from("answers"),
        "SELECT * FROM answers WHERE lec = ? AND email = ?"
    );
}

#[test]
fn consented_answers_are_looked_up_by_literal_keys() {
    assert_eq!(
        consented_answers_query(3, 17),
        "SELECT * FROM consented_answers WHERE lec = 3 AND question_id = 17"
    );
    assert_eq!(
        consented_answers_query(0, u64::MAX),
        "SELECT * FROM consented_answers WHERE lec = 0 AND question_id = 18446744073709551615"
    );
}

#[test]
fn inserts_have_one_placeholder_per_value() {
    assert_eq!(insert_query("users", 4, false), "INSERT INTO users VALUES (?,?,?,?)");
    assert_eq!(insert_query("users", 4, true), "REPLACE INTO users VALUES (?,?,?,?)");
    assert_eq!(
        insert_query("presenters(lecture_id, email)", 2, false),
        "INSERT INTO presenters(lecture_id, email) VALUES (?,?)"
    );
    assert_eq!(insert_query("t", 1, false), "INSERT INTO t VALUES (?)");
    assert_eq!(insert_query("t", 0, false), "INSERT INTO t VALUES ()");
}

#[test]
fn the_gdpr_statement_quotes_the_email() {
    assert_eq!(gdpr_get_query("artem@brown.edu"), "GDPR GET users 'artem@brown.edu'");
    assert_eq!(gdpr_get_query("o'brien@brown.edu"), "GDPR GET users 'o''brien@brown.edu'");
    // Backslashes are not escapes for this server.
    assert_eq!(gdpr_get_query("a\\b"), "GDPR GET users 'a\\b'");
}

#[test]
fn gdpr_result_sets_are_told_apart_by_table() {
    assert_eq!(gdpr_table("users"), Some(GdprTable::Users));
    assert_eq!(gdpr_table("answers"), Some(GdprTable::Answers));
    assert_eq!(gdpr_table("presenters"), Some(GdprTable::Presenters));
    assert_eq!(gdpr_table("lectures"), None);
}

#[test]
fn connection_urls_name_the_user_server_and_database() {
    assert_eq!(connection_url("root", "pw", "127.0.0.1:3306"), "mysql://root:pw@127.0.0.1:3306/");
    assert_eq!(
        reconnect_url("root", "pw", "127.0.0.1", "websubmit"),
        "mysql://root:pw@127.0.0.1/websubmit"
    );
}

#[test]
fn the_schema_is_split_into_statements() {
    let schema = "-- the users\nCREATE TABLE users (\n  email varchar(255),\n  apikey text\n);\n\n  CREATE TABLE lectures (id int);  \n-- trailing comment\nSELECT 1";
    assert_eq!(
        schema_statements(schema),
        vec![
            "CREATE TABLE users ( email varchar(255), apikey text ); ".to_string(),
            "CREATE TABLE lectures (id int); ".to_string(),
        ]
    );
    assert!(schema_statements("").is_empty());
    assert!(schema_statements("-- only a comment\n\n").is_empty());
}

#[test]
fn csv_fields_are_quoted_and_defused() {
    assert_eq!(csv(&vec!["alex@brown.edu".to_string()]), "\"alex@brown.edu\"");
    assert_eq!(csv(&vec!["Lecture ".to_string(), "1".to_string()]), "\"Lecture 1\"");
    assert_eq!(csv(&vec!["say \"hi\"".to_string()]), "\"say \"\"hi\"\"\"");
    assert_eq!(csv(&vec!["=SUM(A1)".to_string()]), "\"'=SUM(A1)\"");
    assert_eq!(csv(&vec!["@evil".to_string()]), "\"'@evil\"");
    assert_eq!(csv(&vec!["-1".to_string()]), "\"'-1\"");
    assert_eq!(csv(&vec!["+".to_string(), "1".to_string()]), "\"'+1\"");
    assert_eq!(csv(&vec!["\tx".to_string()]), "\"'\tx\"");
    assert_eq!(csv(&vec![]), "\"\"");
    assert_eq!(csv(&vec!["".to_string(), "=".to_string()]), "\"'=\"");
}

#[test]
fn the_smtp_port_picks_the_transport() {
    assert_eq!(transport_for_port(465), SmtpSecurity::ImplicitTls);
    assert_eq!(transport_for_port(25), SmtpSecurity::Plaintext);
    assert_eq!(transport_for_port(587), SmtpSecurity::StartTls);
    assert_eq!(transport_for_port(0), SmtpSecurity::StartTls);
    assert!(uses_credentials("mailer"));
    assert!(!uses_credentials(""));
}

#[test]
fn text_helpers_behave_like_std() {
    for t in ["  a b\t", "\u{3000}x y\u{a0}\n", "", "   ", "\u{85}\u{2028}z", "q\u{200b}"] {
        assert_eq!(trim(t), t.trim(), "{:?}", t);
    }
    assert_eq!(u64_to_string(0), "0");
    assert_eq!(u64_to_string(4096), "4096");
    assert_eq!(u64_to_string(u64::MAX), u64::MAX.to_string());
    assert_eq!(split("a,b,,c", ','), vec!["a", "b", "", "c"]);
    assert_eq!(split("", ','), vec![""]);
    assert_eq!(join(&vec!["a".to_string(), "b".to_string()], ", "), "a, b");
    assert_eq!(join(&vec![], ", "), "");
    assert_eq!(replace("{X} and {X}", "{X}", "y"), "y and y");
    assert_eq!(replace("aaa", "aa", "b"), "ba");
    assert_eq!(replace("nothing here", "{X}", "y"), "nothing here");
    assert_eq!(replace("{X}", "{X}", "{X}{X}"), "{X}{X}");
}

#[test]
fn mail_goes_only_to_addresses_that_read_as_mailboxes() {
    let recipients = vec![
        "ta@bu.edu".to_string(),
        "not an address".to_string(),
        "Staff <staff@bu.edu>".to_string(),
    ];
    let plan = mail_plan("noreply@bu.edu", &Some("alex@brown.edu".to_string()), &recipients);
    assert!(plan.send);
    assert_eq!(plan.recipients, vec!["ta@bu.edu".to_string(), "Staff <staff@bu.edu>".to_string()]);
    assert_eq!(plan.reply_to, Some("alex@brown.edu".to_string()));
    let plan = mail_plan("noreply@bu.edu", &Some("@@".to_string()), &recipients);
    assert_eq!(plan.reply_to, None);
    let plan = mail_plan("nobody", &None, &recipients);
    assert!(!plan.send);
    assert!(plan.recipients.is_empty());
}
