//! Downloading data from the PowerSync service.

pub mod client;
pub mod client_laws;
pub mod control;
pub mod control_laws;
pub mod instruction_laws;
pub mod sync_iteration;
