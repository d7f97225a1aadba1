//! The automated-analysis rule on the answers of consenting students.
use vstd::prelude::*;

use crate::policies::context::{is_listed, listed, AccessReason, AccessReasonView, PolicyContext, PolicyContextView};
use crate::row::{sql_bool, sql_bool_of, SqlValue};
use crate::text::str_eq;

verus! {

/// The reason that the automated-analysis region gives, so that this policy's
/// check can tell it apart from any other region that reads an answer.
pub const AUTOMATED_ANALYSIS_REASON: &'static str = "automated analysis";

/// The analysis rule: the author consented, the value is being released for
/// the automated analysis, and the requester is an admin.
pub open spec fn analysis_allowed(consent: bool, ctx: PolicyContextView, reason: AccessReasonView) -> bool {
    &&& consent
    &&& reason == AccessReasonView::Custom(Some(AUTOMATED_ANALYSIS_REASON@))
    &&& ctx.user matches Some(u) && listed(ctx.admins, u)
}

/// Guards the `answer` column of the `consented_answers` view.
#[derive(Clone)]
pub struct AutomatedAnalysisPolicy {
    consent: bool,
}

impl View for AutomatedAnalysisPolicy {
    type V = bool;

    closed spec fn view(&self) -> bool {
        self.consent
    }
}

impl AutomatedAnalysisPolicy {
    /// A policy for an answer whose author did (or did not) consent.
    pub fn new(consent: bool) -> (r: AutomatedAnalysisPolicy)
        ensures
            r@ == consent,
    {
        AutomatedAnalysisPolicy { consent }
    }

    pub fn simple_name(&self) -> (r: String)
        ensures
            r@ == "AutomatedAnalysisPolicy"@,
    {
        "AutomatedAnalysisPolicy".to_string()
    }

    /// Only an admin, only for the automated analysis, and only for a student
    /// who consented.
    pub fn simple_check(&self, context: &PolicyContext, reason: &AccessReason) -> (r: bool)
        ensures
            r == analysis_allowed(self@, context@, reason@),
    {
        if !self.consent {
            return false;
        }
        let is_automated_analysis = match reason {
            AccessReason::Custom(Some(r)) => str_eq(r.as_str(), AUTOMATED_ANALYSIS_REASON),
            _ => false,
        };
        if !is_automated_analysis {
            return false;
        }
        match &context.user {
            Some(user) => is_listed(&context.admins, user),
            None => false,
        }
    }

    /// The joined value may be released only if both authors consented.
    pub fn simple_join_direct(&mut self, other: &mut Self)
        ensures
            final(self)@ == (old(self)@ && old(other)@),
            *final(other) == *old(other),
    {
        self.consent = self.consent && other.consent;
    }

    /// The policy of a `consented_answers` row `(answer, consent, lec,
    /// question_id)`.
    pub fn from_row(_table: &str, row: &Vec<SqlValue>) -> (r: Self)
        requires
            1 < row@.len(),
            sql_bool(row@[1]@) is Some,
        ensures
            Some(r@) == sql_bool(row@[1]@),
    {
        AutomatedAnalysisPolicy::new(sql_bool_of(&row[1]))
    }

    /// Joining never widens access.
    pub proof fn lemma_join_never_widens(
        a: Self,
        b: Self,
        context: PolicyContextView,
        reason: AccessReasonView,
    )
        ensures
            analysis_allowed(a@ && b@, context, reason) ==> analysis_allowed(a@, context, reason)
                && analysis_allowed(b@, context, reason),
    {
    }

    /// A student who did not consent is never analysed, whoever asks and why.
    pub proof fn lemma_no_consent_no_release(context: PolicyContextView, reason: AccessReasonView)
        ensures
            !analysis_allowed(false, context, reason),
    {
    }
}

} // verus!
