//! Find-and-replace of a substring in one text column of one table of a
//! SQLite database: command-line parsing, the statements that count and
//! rewrite the matching rows, and the confirmation that gates the rewrite.

pub mod config;
pub mod flow;
pub mod laws;
pub mod sql;
mod text;
