//! Pages for admins.
pub mod analysis;
pub mod answers;
pub mod lectures;
pub mod questions;
pub mod users;
