//! How mail is sent: the transport chosen for the SMTP port, and whether to
//! authenticate.
use vstd::prelude::*;

use crate::config::opt_string_view;
use crate::text::views;

verus! {

/// How the connection to the SMTP server is secured.
#[derive(Debug, Clone, Copy, PartialEq, Eq)]
pub enum SmtpSecurity {
    /// Encrypted from the first byte (port 465).
    ImplicitTls,
    /// A plaintext relay, no TLS (port 25).
    Plaintext,
    /// Upgraded with STARTTLS (any other port, e.g. 587 submission).
    StartTls,
}

/// The transport for a port: speaking implicit TLS to a STARTTLS port (or the
/// reverse) fails in the handshake, so the port decides.
pub fn transport_for_port(port: u16) -> (r: SmtpSecurity)
    ensures
        r == (if port == 465 {
            SmtpSecurity::ImplicitTls
        } else if port == 25 {
            SmtpSecurity::Plaintext
        } else {
            SmtpSecurity::StartTls
        }),
{
    if port == 465 {
        SmtpSecurity::ImplicitTls
    } else if port == 25 {
        SmtpSecurity::Plaintext
    } else {
        SmtpSecurity::StartTls
    }
}

/// Credentials are sent only when an SMTP user is configured, so that an
/// unauthenticated relay can be used.
pub fn uses_credentials(smtp_user: &str) -> (r: bool)
    ensures
        r == (smtp_user@.len() > 0),
{
    !smtp_user.is_empty()
}

/// Whether `s.parse::<lettre::message::Mailbox>()` succeeds: `s` is a mailbox
/// (an address, with or without a display name) by lettre's grammar.
pub uninterp spec fn is_mailbox(s: Seq<char>) -> bool;

/// `s.parse::<lettre::message::Mailbox>()`, only whether it succeeds. The
/// grammar is named, not restated.
#[verifier::external_body]
fn parses_as_mailbox(s: &str) -> (r: bool)
    ensures
        r == is_mailbox(s@),
{
    s.parse::<lettre::message::Mailbox>().is_ok()
}

/// The predicate that keeps mailboxes.
pub open spec fn mailbox_pred() -> spec_fn(Seq<char>) -> bool {
    |s: Seq<char>| is_mailbox(s)
}

/// Who a message goes to, once the addresses are read.
pub struct MailPlan {
    /// Whether anything is sent: not when the sender address is no mailbox.
    pub send: bool,
    /// The reply-to address, kept only when it is a mailbox.
    pub reply_to: Option<String>,
    /// The recipients that are mailboxes, in order; the others are skipped.
    pub recipients: Vec<String>,
}

/// Reads the addresses of a message: nothing is sent when `smtp_from` is no
/// mailbox; otherwise each recipient that is no mailbox is skipped, and a
/// reply-to address that is no mailbox is left off.
pub fn mail_plan(smtp_from: &str, reply_to: &Option<String>, recipients: &Vec<String>) -> (r: MailPlan)
    ensures
        r.send == is_mailbox(smtp_from@),
        !r.send ==> r.reply_to is None && r.recipients@.len() == 0,
        r.send ==> views(r.recipients@) == views(recipients@).filter(mailbox_pred()),
        r.send ==> opt_string_view(r.reply_to) == match reply_to {
            Some(t) => if is_mailbox(t@) {
                Some(t@)
            } else {
                None
            },
            None => None,
        },
{
    if !parses_as_mailbox(smtp_from) {
        return MailPlan { send: false, reply_to: None, recipients: Vec::new() };
    }
    let kept_reply = match reply_to {
        Some(t) => if parses_as_mailbox(t.as_str()) {
            Some(t.clone())
        } else {
            None
        },
        None => None,
    };
    let ghost rv = views(recipients@);
    let mut out: Vec<String> = Vec::new();
    let mut i: usize = 0;
    while i < recipients.len()
        invariant
            i <= recipients@.len(),
            rv == views(recipients@),
            views(out@) == rv.take(i as int).filter(mailbox_pred()),
        decreases recipients@.len() - i,
    {
        let ghost before = views(out@);
        proof {
            assert(rv.take(i + 1) =~= rv.take(i as int).push(rv[i as int]));
            rv.take(i as int).lemma_filter_push(rv[i as int], mailbox_pred());
        }
        if parses_as_mailbox(recipients[i].as_str()) {
            out.push(recipients[i].clone());
            assert(views(out@) =~= before.push(rv[i as int]));
        }
        i = i + 1;
    }
    assert(rv.take(recipients@.len() as int) =~= rv);
    MailPlan { send: true, reply_to: kept_reply, recipients: out }
}

} // verus!
