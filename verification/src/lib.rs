//! Verified core of the PowerSync client.
//!
//! The library decides; it performs no I/O. Each operation that talks to a database or to the
//! network is a value that names the next call to make and is told how that call went. A runtime
//! around the library makes the calls.

pub mod cstring;
pub mod db;
pub mod error;
pub mod json;
pub mod schema;
pub mod sync;
