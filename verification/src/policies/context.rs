//! What a policy check may look at: who is asking, the course's roles, and why
//! the value is being released.
use vstd::prelude::*;

use crate::config::opt_string_view;
use crate::text::{contains_string, str_eq};

verus! {

/// The requester and the facts the policies consult about them.
pub struct PolicyContext {
    /// The signed-in user's email, if any.
    pub user: Option<String>,
    /// The course admins.
    pub admins: Vec<String>,
    /// The managers (the reporting role of the aggregate and release
    /// policies).
    pub managers: Vec<String>,
    /// Rows `(lecture_id, email)` of the `presenters` table.
    pub presenters: Vec<(u64, String)>,
}

pub struct PolicyContextView {
    pub user: Option<Seq<char>>,
    pub admins: Seq<Seq<char>>,
    pub managers: Seq<Seq<char>>,
    pub presenters: Seq<(u64, Seq<char>)>,
}

impl View for PolicyContext {
    type V = PolicyContextView;

    open spec fn view(&self) -> PolicyContextView {
        PolicyContextView {
            user: opt_string_view(self.user),
            admins: self.admins@.map_values(|s: String| s@),
            managers: self.managers@.map_values(|s: String| s@),
            presenters: self.presenters@.map_values(|p: (u64, String)| (p.0, p.1@)),
        }
    }
}

/// Why a protected value is about to leave its container.
pub enum AccessReason {
    /// It is bound as a parameter of this database query.
    Db(String),
    /// It is stored in the cookie of this name.
    Cookie(String),
    /// A custom region asked, with this reason (`None` when the reason is not
    /// a string).
    Custom(Option<String>),
    /// It is rendered into a page or any other output.
    Other,
}

pub enum AccessReasonView {
    Db(Seq<char>),
    Cookie(Seq<char>),
    Custom(Option<Seq<char>>),
    Other,
}

impl View for AccessReason {
    type V = AccessReasonView;

    open spec fn view(&self) -> AccessReasonView {
        match self {
            AccessReason::Db(q) => AccessReasonView::Db(q@),
            AccessReason::Cookie(n) => AccessReasonView::Cookie(n@),
            AccessReason::Custom(r) => AccessReasonView::Custom(opt_string_view(*r)),
            AccessReason::Other => AccessReasonView::Other,
        }
    }
}

/// `s` is one of `list`.
pub open spec fn listed(list: Seq<Seq<char>>, s: Seq<char>) -> bool {
    exists|i: int| 0 <= i < list.len() && list[i] == s
}

/// `email` presents lecture `lec`.
pub open spec fn presents(presenters: Seq<(u64, Seq<char>)>, lec: u64, email: Seq<char>) -> bool {
    exists|i: int| 0 <= i < presenters.len() && presenters[i] == (lec, email)
}

pub fn is_listed(list: &Vec<String>, s: &String) -> (r: bool)
    ensures
        r == listed(list@.map_values(|x: String| x@), s@),
{
    let r = contains_string(list, s.as_str());
    proof {
        let lv = list@.map_values(|x: String| x@);
        if r {
            let i = choose|i: int| 0 <= i < list@.len() && list@[i]@ == s@;
            assert(lv[i] == s@);
        } else {
            assert forall|i: int| 0 <= i < lv.len() implies lv[i] != s@ by {
                assert(list@[i]@ != s@);
            }
        }
    }
    r
}

pub fn is_presenter(presenters: &Vec<(u64, String)>, lec: u64, email: &String) -> (r: bool)
    ensures
        r == presents(presenters@.map_values(|p: (u64, String)| (p.0, p.1@)), lec, email@),
{
    let ghost pv = presenters@.map_values(|p: (u64, String)| (p.0, p.1@));
    let mut i: usize = 0;
    while i < presenters.len()
        invariant
            i <= presenters@.len(),
            pv == presenters@.map_values(|p: (u64, String)| (p.0, p.1@)),
            forall|j: int| 0 <= j < i ==> pv[j] != (lec, email@),
        decreases presenters@.len() - i,
    {
        if presenters[i].0 == lec && str_eq(presenters[i].1.as_str(), email.as_str()) {
            assert(pv[i as int] == (lec, email@));
            return true;
        }
        i = i + 1;
    }
    false
}

/// Two optional strings are equal.
pub fn opt_string_eq(a: &Option<String>, b: &Option<String>) -> (r: bool)
    ensures
        r == (opt_string_view(*a) == opt_string_view(*b)),
{
    match (a, b) {
        (None, None) => true,
        (Some(x), Some(y)) => str_eq(x.as_str(), y.as_str()),
        _ => false,
    }
}

} // verus!
