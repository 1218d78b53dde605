//! Access to SQLite databases.

pub mod connection;
pub mod result_code;
