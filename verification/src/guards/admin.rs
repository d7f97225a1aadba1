//! Admin-only pages.
use vstd::prelude::*;

use crate::policies::context::{is_listed, listed};
use crate::text::views;

verus! {

#[derive(Debug, Clone, Copy, PartialEq, Eq)]
pub enum AdminError {
    Unauthorized,
}

/// A signed-in admin.
pub struct Admin {
    pub user: String,
}

/// Whether a request may reach an admin page: it must come with a valid API
/// key, and the key's user must be an admin. Not signed in and signed in as
/// someone else are both `Unauthorized`.
pub fn admin_guard(user: &Option<String>, admins: &Vec<String>) -> (r: Result<Admin, AdminError>)
    ensures
        match r {
            Ok(a) => user matches Some(u) && a.user@ == u@ && listed(views(admins@), u@),
            Err(_) => !(user matches Some(u) && listed(views(admins@), u@)),
        },
{
    match user {
        Some(u) => if is_listed(admins, u) {
            Ok(Admin { user: u.clone() })
        } else {
            Err(AdminError::Unauthorized)
        },
        None => Err(AdminError::Unauthorized),
    }
}

} // verus!
