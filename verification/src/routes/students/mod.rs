//! Pages for students.
pub mod questions;
