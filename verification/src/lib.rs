//! A small article store: the data model, the parameterized SQL statements,
//! an in-memory model of the article table, and the request handlers that
//! map each operation's outcome to an HTTP response.

pub mod handlers;
pub mod laws;
pub mod models;
pub mod sql;
pub mod store;
