//! Storage lifecycle and session authority of a desktop business-management
//! backend: the schema and seed data of its embedded store, the statements that
//! each operation issues, and the decisions taken on what the store answers.

pub mod error;
pub mod sql;
pub mod schema;
pub mod crypto;
pub mod clock;
pub mod json;
pub mod models;
pub mod database;
pub mod timestamp;
pub mod auth;
pub mod sessions;
