//! Verified decision logic of a login-capable assistant shell.

pub mod auth;
pub mod clock;
pub mod core_service;
pub mod diagnostics;
pub mod ecs_metadata;
pub mod gateway;
pub mod health;
pub mod i18n;
pub mod login_shell;
pub mod order;
pub mod record;
pub mod shell_host;
pub mod text;
pub mod tree;
pub mod values;
