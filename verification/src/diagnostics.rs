//! What is left behind for a diagnosis: crash records and the registry of
//! running processes; and whether a newer version is there.

pub mod crash;
pub mod laws;
pub mod registry;
pub mod upgrade;
