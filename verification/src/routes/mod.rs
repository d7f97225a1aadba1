//! The decisions and page contents of each route.
pub mod access;
pub mod admin;
pub mod answers;
pub mod apikey;
pub mod index;
pub mod leclist;
pub mod students;
