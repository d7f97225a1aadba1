//! The statements the application sends to the database.
pub mod backend;
pub mod gdpr;
pub mod query;
pub mod write;

pub use query::ColumnNames;
