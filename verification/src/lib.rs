//! Verified core of a small service that keeps a table of persons, each with a unique integer
//! identifier and a name.
//!
//! - `models`: the person record and the two request payloads.
//! - `table`: the table as a sequence of rows, and what each statement means on it.
//! - `store`: the table held in memory.
//! - `actions`: the data access layer, five operations and the rule for new identifiers.
//! - `replies`: the reply of the service for each outcome of a data access call.
//! - `handlers`: the five request handlers.
//! - `text`: integers in decimal, for the plain-text replies.
//! - `theorems`: what holds across several operations.

pub mod actions;
pub mod handlers;
pub mod models;
pub mod replies;
pub mod store;
pub mod table;
pub mod text;
pub mod theorems;
