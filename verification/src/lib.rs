//! A small verified game-engine core: an entity-component world, shared
//! transform cells, a Lua script sandbox with a minimal capability surface,
//! and the planning/picking logic of a dual-pass (color + identity) renderer.
//!
//! GPU, windowing and file plumbing are external collaborators; this crate
//! holds the engine's own rules and proves them.

pub mod camera;
pub mod engine;
pub mod label;
pub mod lua_api;
pub mod picking;
pub mod render;
pub mod script;
pub mod sprite;
pub mod texture_manager;
pub mod transform;
pub mod world;
