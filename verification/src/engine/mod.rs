//! The engine: the physics world, the component store, the camera, the
//! per-tick resources and the scene stack.

pub mod camera;
pub mod game;
pub mod physics;
pub mod resource_manager;
pub mod resources;
pub mod scene_manager;
pub mod storage;
pub mod world;
