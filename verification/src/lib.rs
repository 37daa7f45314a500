//! A small entity-component-system core and the decisions of a Vulkan renderer.

pub mod ecs;
pub mod engine;
pub mod render;

pub use ecs::{Component, ComponentStorage, Storage, ECS, EID};
