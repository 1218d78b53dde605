//! Synchronisation with the PowerSync service.

pub mod download;
pub mod instruction;
pub mod streams;
