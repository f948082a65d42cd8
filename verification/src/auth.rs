//! Provider authentication: the form, its navigation and the ECS role flow.

pub mod ecs_flow;
pub mod ecs_probe;
pub mod form;
pub mod form_laws;
pub mod laws;
pub mod navigation;
pub mod registry;
