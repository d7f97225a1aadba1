//! Registration, signing in with an API key, and what an anonymous visitor
//! may reach.
use websubmit_boxed::config::Config;
use websubmit_boxed::guards::apikey::{check_api_key, context_user, ApiKeyError};
use websubmit_boxed::routes::apikey::check::{check, index, logout};
use websubmit_boxed::routes::apikey::generate::{generate, GenerateError, KeyNotice};
use websubmit_boxed::routes::index::login;
use websubmit_boxed::sandboxes::hash;

const ADMIN: &str = "admin@bu.edu";
const ALEX: &str = "alex@brown.edu";
const CLASS: &str = "TEST 101";
const SECRET: &str = "test-secret";

fn config() -> Config {
    Config {
        class: CLASS.to_string(),
        port: 8000,
        db_addr: "127.0.0.1".to_string(),
        db_name: "websubmit_test".to_string(),
        db_user: "root".to_string(),
        db_password: "password".to_string(),
        admins: vec![ADMIN.to_string()],
        staff: vec![ADMIN.to_string()],
        email_domain: None,
        template_dir: "templates".to_string(),
        resource_dir: "resources".to_string(),
        secret: SECRET.to_string(),
        anthropic_api_key: String::new(),
        send_emails: false,
        smtp_server: "localhost".to_string(),
        smtp_port: 25,
        smtp_user: String::new(),
        smtp_password: String::new(),
        smtp_from: "no-reply@test.invalid".to_string(),
        prime: false,
    }
}

#[test]
fn login_page_renders_the_class_name() {
    let page = login(&config());
    assert_eq!(page.class_id, CLASS);
    assert!(format!("Welcome to the {} submission system!", page.class_id)
        .contains("Welcome to the TEST 101 submission system!"));
}

#[test]
fn index_sends_an_anonymous_visitor_to_login() {
    assert_eq!(index(&None), "/login");
}

#[test]
fn index_sends_a_logged_in_user_to_the_lecture_list() {
    let lookup = check_api_key(&vec![ALEX.to_string()]);
    assert_eq!(lookup, Ok(ALEX.to_string()));
    assert_eq!(index(&Some(lookup)), "/leclist");
}

#[test]
fn registering_stores_the_user_and_acknowledges_the_email() {
    let email = "newcomer@brown.edu";
    let reg = generate(email, Some(true), &config()).unwrap();
    // The page confirms where the key went, and never shows the key itself.
    assert_eq!(reg.apikey_email, email);
    assert!(!reg.apikey_email.contains(&reg.user.apikey));
    assert_eq!(reg.user.email, email);
    assert!(reg.user.consent);
    assert!(!reg.user.is_admin);
}

#[test]
fn registering_without_consent_stores_false() {
    // An unchecked box submits no `consent` field at all.
    let email = "declines@brown.edu";
    let reg = generate(email, None, &config()).unwrap();
    assert_eq!(reg.apikey_email, email);
    assert!(!reg.user.consent);
}

#[test]
fn resetting_the_api_key_keeps_identity_but_updates_consent() {
    let email = "resetter@brown.edu";
    let first = generate(email, Some(true), &config()).unwrap();
    let second = generate(email, None, &config()).unwrap();
    assert_eq!(second.user.apikey, first.user.apikey, "resetting must not change the API key");
    assert_eq!(second.user.email, email, "resetting must not change the email");
    assert!(!second.user.consent, "resetting should update consent to the new choice");
}

#[test]
fn registering_twice_yields_the_same_key() {
    let email = "repeat@brown.edu";
    let first = generate(email, Some(true), &config()).unwrap();
    let second = generate(email, Some(true), &config()).unwrap();
    assert_eq!(first.user.apikey, second.user.apikey);
    // Both store the row of the same address, the second replacing the first.
    assert_eq!(first.user.email, second.user.email);
}

#[test]
fn an_unknown_key_does_not_log_anyone_in() {
    // Nobody holds the key "not-a-real-key".
    let lookup = check_api_key(&vec![]);
    assert_eq!(lookup, Err(ApiKeyError::Missing));
    let sign_in = check(&lookup);
    assert_eq!(sign_in.location, "/");
    assert!(!sign_in.set_cookie);
    // ... and the session is still anonymous.
    assert_eq!(context_user(&vec![]), None);
}

#[test]
fn pages_behind_the_api_key_reject_anonymous_visitors() {
    // Without a cookie there is no user for the guarded pages to act for,
    // and the front page sends the visitor to sign in.
    assert_eq!(context_user(&vec![]), None);
    assert_eq!(index(&Some(check_api_key(&vec![]))), "/login");
}

#[test]
fn a_known_key_signs_in_and_is_kept() {
    let sign_in = check(&check_api_key(&vec![ALEX.to_string()]));
    assert_eq!(sign_in.location, "/leclist");
    assert!(sign_in.set_cookie);
}

#[test]
fn a_key_held_twice_is_ambiguous() {
    let lookup = check_api_key(&vec![ALEX.to_string(), ADMIN.to_string()]);
    assert_eq!(lookup, Err(ApiKeyError::Ambiguous));
    assert!(!check(&lookup).set_cookie);
}

#[test]
fn logging_out_leads_to_sign_in() {
    assert_eq!(logout(), "/login");
}

#[test]
fn the_key_is_the_hash_of_email_and_secret() {
    let email = "keyed@brown.edu";
    let reg = generate(email, Some(true), &config()).unwrap();
    assert_eq!(reg.user.apikey, hash((email.to_string(), SECRET.to_string())));
    assert_eq!(reg.user.apikey.len(), 64);
    assert!(reg.user.apikey.chars().all(|c| c.is_ascii_hexdigit()));
    assert_ne!(reg.user.apikey, hash(("other@brown.edu".to_string(), SECRET.to_string())));
    assert_ne!(reg.user.apikey, hash((email.to_string(), "another-secret".to_string())));
    match reg.notice {
        KeyNotice::Print(line) => assert_eq!(line, format!("API key: {}", reg.user.apikey)),
        KeyNotice::Email { .. } => panic!("emails are off"),
    }
}

#[test]
fn with_emails_on_the_key_is_mailed_to_the_address() {
    let mut c = config();
    c.send_emails = true;
    let email = "mailed@brown.edu";
    let reg = generate(email, Some(true), &c).unwrap();
    match reg.notice {
        KeyNotice::Email { recipients, subject, text } => {
            assert_eq!(recipients, vec![email.to_string()]);
            assert_eq!(subject, "TEST 101 API key");
            assert_eq!(text, format!("Your TEST 101 API key is: {}\n", reg.user.apikey));
        }
        KeyNotice::Print(_) => panic!("emails are on"),
    }
}

#[test]
fn the_admin_registers_as_an_admin() {
    let reg = generate(ADMIN, None, &config()).unwrap();
    assert!(reg.user.is_admin);
}

#[test]
fn long_or_foreign_addresses_are_refused() {
    let long = format!("{}@brown.edu", "a".repeat(41));
    assert_eq!(long.chars().count(), 51);
    assert_eq!(generate(&long, Some(true), &config()).err(), Some(GenerateError::UnprocessableEntity));
    let fifty = format!("{}@brown.edu", "a".repeat(40));
    assert!(generate(&fifty, Some(true), &config()).is_ok());

    let mut c = config();
    c.email_domain = Some("bu.edu".to_string());
    assert_eq!(generate("someone@brown.edu", None, &c).err(), Some(GenerateError::UnprocessableEntity));
    assert!(generate("someone@bu.edu", None, &c).is_ok());
    assert!(generate("  SomeOne@BU.EDU ", None, &c).is_ok());
    // The admin is let in whatever the domain.
    let mut d = config();
    d.email_domain = Some("@example.org".to_string());
    d.admins = vec!["boss@elsewhere.net".to_string()];
    assert!(generate("boss@elsewhere.net", None, &d).is_ok());
    assert!(generate("Boss@Elsewhere.net", None, &d).is_ok());
}
