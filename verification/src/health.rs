//! Health of the installation: facts, findings and the report on them.
//!
//! Collectors turn what was read from the host into facts and findings. They do
//! not depend on each other, and none of them fails.

pub mod collect;
pub mod doctor;
pub mod environment;
pub mod kernel;
pub mod laws;
pub mod logs;
pub mod model;
pub mod provider;
pub mod runtime;
