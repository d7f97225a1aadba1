//! The sign-in and privacy pages.
use vstd::prelude::*;

use crate::config::Config;

verus! {

/// What the sign-in and privacy pages show: the class name.
pub struct ClassPage {
    pub class_id: String,
}

/// The sign-in page, readable by anyone.
pub fn login(config: &Config) -> (r: ClassPage)
    ensures
        r.class_id@ == config@.class,
{
    ClassPage { class_id: config.class.clone() }
}

/// The privacy page: public, since it is what a visitor reads before deciding
/// whether to consent.
pub fn privacy(config: &Config) -> (r: ClassPage)
    ensures
        r.class_id@ == config@.class,
{
    ClassPage { class_id: config.class.clone() }
}

} // verus!
