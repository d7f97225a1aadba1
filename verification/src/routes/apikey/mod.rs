//! Registering, signing in and signing out.
pub mod check;
pub mod generate;
