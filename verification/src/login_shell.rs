//! Login-shell registration and explicit account selection.
//!
//! Changes need root. The expected-shell guard detects earlier edits of an
//! administrator, but it is no atomic exchange against other tools.

pub mod accounts;
pub mod cli;
pub mod error;
pub mod laws;
pub mod manage;
pub mod manager;
pub mod path;
pub mod storage;
pub mod table;
