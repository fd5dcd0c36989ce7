//! The systems of the frame pipeline, each a pass over the entities that
//! have the components it needs.

pub mod animation;
pub mod camera_follow;
pub mod enemy;
pub mod physics_sync;
pub mod player_control;
pub mod rendering;

pub use animation::AnimationSystem;
pub use camera_follow::CameraSystem;
pub use enemy::EnemySystem;
pub use physics_sync::PhysicsSystem;
pub use player_control::PlayerControlSystem;
pub use rendering::RenderingSystem;
