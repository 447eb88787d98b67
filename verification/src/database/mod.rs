//! SQL query construction, the statements that change the database, and migration
//! records.

pub mod migration;
pub mod search;
pub mod statements;
