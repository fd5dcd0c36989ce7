//! The game: its tick rate and its first scene.

use vstd::prelude::*;
use crate::components::{
    Animation, BasicAI, Body, CameraTarget, FeetSensor, Jumper, Player, Sprite, TileCount,
    Transform,
};
use crate::engine::camera::Camera;
use crate::engine::physics::{BodyHandle, ColliderHandle, PhysicsWorld};
use crate::engine::scene_manager::{Scene, SceneManager};
use crate::engine::world::World;
use crate::entities::{Brick, KoopaTroopa, Mario};
use crate::util::vector::Vector2;

verus! {

/// Simulation ticks per second.
pub const TARGET_FPS: u32 = 60;

/// Animation clock steps in one whole frame: a clock advances by the
/// animation speed (thousandths of a frame per second) once per tick, so a
/// frame is `1000 * TARGET_FPS` steps long and no fraction is ever rounded.
pub const FRAME_TICKS: i64 = 60_000;

/// How high the floor of the first scene lies: 32 units below the origin.
pub const FLOOR_Y: i64 = -32_000;

/// The game: whether it runs, and its scenes.
pub struct SuperMario {
    pub is_running: bool,
    pub scene_manager: SceneManager,
}

impl SuperMario {
    /// The transform of an entity added at (`x`, `y`).
    pub open spec fn placed(x: i64, y: i64) -> Transform {
        Transform { position: Vector2 { x, y }, rotation: 0, scale: Vector2 { x: 1000, y: 1000 } }
    }

    /// The binding of an entity to the body and the collider with the
    /// indices given.
    pub open spec fn bound(body: usize, collider: usize) -> Body {
        Body {
            rigid_body_handle: BodyHandle { index: body },
            collider_handle: ColliderHandle { index: collider },
        }
    }

    /// A game that does not run yet, with one scene: the player at the
    /// origin, an enemy 32 units to its right, and a floor of 30 by 2 brick
    /// tiles 32 units below. Bodies are made in entity order; the player and
    /// the enemy have two colliders each, the floor has one.
    pub fn new() -> (game: SuperMario)
        ensures
            !game.is_running,
            game.scene_manager.wf(),
            game.scene_manager.scenes@.len() == 1,
            game.scene_manager.scenes@[0].linked(),
            ({
                let scene = game.scene_manager.scenes@[0];
                let world = scene.world;
                &&& scene.camera == Camera::default_spec()
                &&& scene.renderables.0@.len() == 0
                &&& scene.physics_world.bodies@.len() == 3
                &&& scene.physics_world.colliders@.len() == 5
                &&& scene.physics_world.contacts@.len() == 0
                &&& scene.physics_world.commands@.len() == 0
                &&& scene.physics_world.bodies@[0].desc == Mario::rigid_body(Vector2 { x: 0, y: 0 })
                &&& scene.physics_world.bodies@[1].desc == KoopaTroopa::rigid_body(
                    Vector2 { x: 32_000, y: 0 },
                )
                &&& scene.physics_world.bodies@[2].desc == Brick::rigid_body(
                    Vector2 { x: 0, y: FLOOR_Y },
                )
                &&& scene.physics_world.colliders@[4].desc == Brick::collider(
                    TileCount { x: 30, y: 2 },
                )
                &&& world.entities == 3
                &&& world.transforms@ == Map::<int, Transform>::empty().insert(
                    0,
                    Self::placed(0, 0),
                ).insert(1, Self::placed(32_000, 0)).insert(2, Self::placed(0, FLOOR_Y))
                &&& world.sprites@ == Map::<int, Sprite>::empty().insert(0, Mario::sprite()).insert(
                    1,
                    KoopaTroopa::sprite(),
                ).insert(2, Brick::sprite(TileCount { x: 30, y: 2 }))
                &&& world.bodies@ == Map::<int, Body>::empty().insert(0, Self::bound(0, 0)).insert(
                    1,
                    Self::bound(1, 2),
                ).insert(2, Self::bound(2, 4))
                &&& world.feet_sensors@ == Map::<int, FeetSensor>::empty().insert(
                    0,
                    FeetSensor { collider_handle: ColliderHandle { index: 1 }, on_floor: false },
                ).insert(
                    1,
                    FeetSensor { collider_handle: ColliderHandle { index: 3 }, on_floor: false },
                )
                &&& world.animations@ == Map::<int, Animation>::empty().insert(
                    0,
                    Mario::animation(),
                ).insert(1, KoopaTroopa::animation())
                &&& world.jumpers@ == Map::<int, Jumper>::empty().insert(
                    0,
                    Jumper { jump_active: false },
                )
                &&& world.players@ == Map::<int, Player>::empty().insert(0, Player)
                &&& world.camera_targets@ == Map::<int, CameraTarget>::empty().insert(
                    0,
                    CameraTarget,
                )
                &&& world.basic_ais@ == Map::<int, BasicAI>::empty().insert(1, BasicAI)
            }),
    {
        let mut physics_world = PhysicsWorld::default();
        let mut world = World::new();

        Mario::add(&mut world, Vector2::new(0, 0), &mut physics_world);
        KoopaTroopa::add(&mut world, Vector2::new(32_000, 0), &mut physics_world);
        Brick::add(
            &mut world,
            Vector2::new(0, FLOOR_Y),
            TileCount { x: 30, y: 2 },
            &mut physics_world,
        );

        let first_scene = Scene::new(world, physics_world);
        SuperMario { is_running: false, scene_manager: SceneManager::new(first_scene) }
    }
}

} // verus!
