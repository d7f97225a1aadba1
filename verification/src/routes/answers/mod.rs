//! Reading a lecture's answers.
pub mod presenters;
