//! The managed shell: how it is launched, what its login may have started, and
//! how its prompt is shown.

pub mod capability;
pub mod effects;
pub mod failopen;
pub mod launch;
pub mod laws;
pub mod prompt;
