//! Course submission system: the rules of registration, sign-in, data access
//! and the pages built from the course database.
pub mod cli;
pub mod config;
pub mod csv;
pub mod db;
pub mod email;
pub mod guards;
pub mod models;
pub mod policies;
pub mod routes;
pub mod row;
pub mod sandboxes;
pub mod sort;
pub mod text;
