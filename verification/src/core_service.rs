//! The long-lived core process that agent turns and registry requests share.

pub mod course;
pub mod event;
pub mod laws;
pub mod service;
pub mod turn;
pub mod wire;
pub mod writer;
