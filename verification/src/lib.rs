//! A minimal task-list library: todo records kept in a keyed in-memory table
//! behind a reader/writer lock, exposed through a repository interface whose
//! operations are atomic with respect to concurrent callers.

pub mod repository;
pub mod store;
pub mod todo;
pub mod user;
