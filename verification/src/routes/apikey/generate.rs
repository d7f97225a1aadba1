//! Registering an email address and issuing its API key.
use vstd::prelude::*;

use crate::config::{domain_suffix, Config, ConfigView};
use crate::policies::context::{is_listed, listed};
use crate::sandboxes::{hash, is_lower_hex, sha256_hex};
use crate::text::{ends_with, is_suffix, lowercased, str_eq, to_lowercase, trim, trimmed, views};

verus! {

/// Longest email address accepted at registration, in characters.
pub const MAX_EMAIL_LENGTH: usize = 50;

/// An address as it is compared: trimmed and lowercased.
pub open spec fn normalized(email: Seq<char>) -> Seq<char> {
    lowercased(trimmed(email))
}

/// `email`, normalized, is the normalized form of one of `list`.
pub open spec fn listed_normalized(list: Seq<Seq<char>>, email: Seq<char>) -> bool {
    exists|i: int| 0 <= i < list.len() && normalized(list[i]) == email
}

/// An address may register when no domain is configured, when it ends with
/// the configured suffix, or when it belongs to an admin or to staff.
pub open spec fn email_allowed_by(config: ConfigView, email: Seq<char>) -> bool {
    match domain_suffix(config.email_domain) {
        None => true,
        Some(suffix) => {
            let e = normalized(email);
            is_suffix(suffix, e) || listed_normalized(config.admins, e) || listed_normalized(
                config.staff,
                e,
            )
        },
    }
}

fn any_normalized_equal(list: &Vec<String>, email: &String) -> (r: bool)
    ensures
        r == listed_normalized(views(list@), email@),
{
    let mut i: usize = 0;
    while i < list.len()
        invariant
            i <= list@.len(),
            forall|j: int| 0 <= j < i ==> normalized(list@[j]@) != email@,
        decreases list@.len() - i,
    {
        let t = trim(list[i].as_str());
        let l = to_lowercase(t.as_str());
        if str_eq(l.as_str(), email.as_str()) {
            assert(normalized(views(list@)[i as int]) == email@);
            return true;
        }
        i = i + 1;
    }
    assert forall|j: int| 0 <= j < views(list@).len() implies normalized(views(list@)[j]) != email@ by {
        assert(views(list@)[j] == list@[j]@);
    }
    false
}

/// Email ends with the configured domain (if any), or is an admin's or a
/// staff member's.
pub fn email_allowed(config: &Config, email: &str) -> (r: bool)
    ensures
        r == email_allowed_by(config@, email@),
{
    let suffix = match config.email_domain_suffix() {
        None => return true,
        Some(suffix) => suffix,
    };
    let t = trim(email);
    let email = to_lowercase(t.as_str());
    ends_with(email.as_str(), suffix.as_str()) || any_normalized_equal(&config.admins, &email)
        || any_normalized_equal(&config.staff, &email)
}

/// The row stored for a registered user.
pub struct NewUser {
    pub email: String,
    pub apikey: String,
    pub is_admin: bool,
    pub consent: bool,
}

/// How the new key reaches the user.
pub enum KeyNotice {
    /// Emailed to these recipients.
    Email { recipients: Vec<String>, subject: String, text: String },
    /// Printed on the server's console (when emails are off).
    Print(String),
}

/// What registering does: the row to store (replacing any earlier one for the
/// same address), how the key is delivered, and the address the page
/// confirms.
pub struct Registration {
    pub user: NewUser,
    pub notice: KeyNotice,
    pub apikey_email: String,
}

/// Why a registration is refused.
#[derive(Debug, Clone, Copy, PartialEq, Eq)]
pub enum GenerateError {
    /// The address is too long or not in an accepted domain.
    UnprocessableEntity,
}

/// An address is accepted for registration.
pub open spec fn registration_accepted(config: ConfigView, email: Seq<char>) -> bool {
    email.len() <= MAX_EMAIL_LENGTH && email_allowed_by(config, email)
}

/// The key of an address: it depends on the address and the secret only, so
/// registering again yields the same key.
pub open spec fn api_key_of(config: ConfigView, email: Seq<char>) -> Seq<char> {
    sha256_hex(email, config.secret)
}

pub open spec fn key_subject(class: Seq<char>) -> Seq<char> {
    class + " API key"@
}

pub open spec fn key_text(class: Seq<char>, key: Seq<char>) -> Seq<char> {
    "Your "@ + class + " API key is: "@ + key + "\n"@
}

/// Registers `email`. The address must be at most `MAX_EMAIL_LENGTH`
/// characters and allowed by the configured domain; its key is the hash of
/// the address and the secret; it is an admin if listed as one; consent is
/// what the form says, and no answer (an unchecked box) means no.
pub fn generate(email: &str, consent: Option<bool>, config: &Config) -> (r: Result<
    Registration,
    GenerateError,
>)
    ensures
        r is Err <==> !registration_accepted(config@, email@),
        r matches Ok(reg) ==> {
            &&& reg.user.email@ == email@
            &&& reg.user.apikey@ == api_key_of(config@, email@)
            &&& reg.user.apikey@.len() == 64
            &&& forall|i: int| 0 <= i < reg.user.apikey@.len() ==> is_lower_hex(#[trigger] reg.user.apikey@[i])
            &&& reg.user.is_admin == listed(config@.admins, email@)
            &&& reg.user.consent == (consent == Some(true))
            &&& reg.apikey_email@ == email@
            &&& if config@.send_emails {
                reg.notice matches KeyNotice::Email { recipients, subject, text } && views(
                    recipients@,
                ) == seq![email@] && subject@ == key_subject(config@.class) && text@ == key_text(
                    config@.class,
                    api_key_of(config@, email@),
                )
            } else {
                reg.notice matches KeyNotice::Print(line) && line@ == "API key: "@ + api_key_of(
                    config@,
                    email@,
                )
            }
        },
{
    if email.unicode_len() > MAX_EMAIL_LENGTH || !email_allowed(config, email) {
        return Err(GenerateError::UnprocessableEntity);
    }
    let key = hash((email.to_owned(), config.secret.clone()));
    let e = email.to_owned();
    let is_admin = is_listed(&config.admins, &e);
    let consent = match consent {
        Some(c) => c,
        None => false,
    };
    let notice = if config.send_emails {
        let mut recipients: Vec<String> = Vec::new();
        recipients.push(email.to_owned());
        assert(views(recipients@) =~= seq![email@]);
        let mut subject = config.class.clone();
        subject.append(" API key");
        let mut text = String::new();
        text.append("Your ");
        text.append(config.class.as_str());
        text.append(" API key is: ");
        text.append(key.as_str());
        text.append("\n");
        KeyNotice::Email { recipients, subject, text }
    } else {
        let mut line = String::new();
        line.append("API key: ");
        line.append(key.as_str());
        KeyNotice::Print(line)
    };
    Ok(Registration {
        user: NewUser { email: e, apikey: key, is_admin, consent },
        notice,
        apikey_email: email.to_owned(),
    })
}

/// An address matches one of `list` when both, trimmed and lowercased, are
/// the same.
pub open spec fn matches_one_of(list: Seq<Seq<char>>, email: Seq<char>) -> bool {
    exists|i: int| 0 <= i < list.len() && lowercased(trimmed(#[trigger] list[i])) == lowercased(trimmed(email))
}

/// Who may register. With no domain configured, or a blank one, anyone. With
/// a domain, exactly the addresses that (trimmed and lowercased) end with the
/// domain (trimmed and lowercased), or that match an admin or a staff member,
/// whatever their domain. Registration accepts exactly the addresses allowed
/// that are at most 50 characters long.
pub proof fn lemma_who_may_register(config: ConfigView, email: Seq<char>)
    ensures
        config.email_domain is None ==> email_allowed_by(config, email),
        (config.email_domain is Some && forall|i: int| 0 <= i < config.email_domain->0.len()
            ==> crate::text::is_white_space(#[trigger] config.email_domain->0[i])) ==> email_allowed_by(config, email),
        matches_one_of(config.staff, email) ==> email_allowed_by(config, email),
        matches_one_of(config.admins, email) ==> email_allowed_by(config, email),
        (config.email_domain is Some && is_suffix(
            lowercased(trimmed(config.email_domain->0)),
            lowercased(trimmed(email)),
        )) ==> email_allowed_by(config, email),
        (config.email_domain is Some && trimmed(config.email_domain->0).len() > 0 && email_allowed_by(config, email))
            ==> (is_suffix(lowercased(trimmed(config.email_domain->0)), lowercased(trimmed(email)))
            || matches_one_of(config.staff, email) || matches_one_of(config.admins, email)),
        email.len() <= 50 && matches_one_of(config.staff, email) ==> registration_accepted(config, email),
        email.len() <= 50 && matches_one_of(config.admins, email) ==> registration_accepted(config, email),
        email.len() > 50 ==> !registration_accepted(config, email),
        registration_accepted(config, email) ==> email.len() <= 50 && email_allowed_by(config, email),
{
    let e = lowercased(trimmed(email));
    if let Some(d) = config.email_domain {
        if forall|i: int| 0 <= i < d.len() ==> crate::text::is_white_space(#[trigger] d[i]) {
            crate::config::lemma_blank_domain_is_unrestricted(d);
        }
    }
    if matches_one_of(config.staff, email) {
        let i = choose|i: int| 0 <= i < config.staff.len() && lowercased(trimmed(#[trigger] config.staff[i])) == e;
        assert(normalized(config.staff[i]) == e);
    }
    if matches_one_of(config.admins, email) {
        let i = choose|i: int| 0 <= i < config.admins.len() && lowercased(trimmed(#[trigger] config.admins[i])) == e;
        assert(normalized(config.admins[i]) == e);
    }
    if listed_normalized(config.staff, e) {
        let i = choose|i: int| 0 <= i < config.staff.len() && normalized(config.staff[i]) == e;
        assert(lowercased(trimmed(config.staff[i])) == e);
    }
    if listed_normalized(config.admins, e) {
        let i = choose|i: int| 0 <= i < config.admins.len() && normalized(config.admins[i]) == e;
        assert(lowercased(trimmed(config.admins[i])) == e);
    }
}

} // verus!
