use super_mario::components::{
    Animation, AnimationParams, AnimationStates, AnimationTable, Jumper, Rect, Sprite, TileCount,
    Transform, MAX_FRAME, MAX_SPEED, MAX_SPEED_FACTOR,
};
use super_mario::engine::camera::{Camera, MAX_ZOOM};
use super_mario::engine::game::SuperMario;
use super_mario::engine::physics::{BodyState, PhysicsWorld, StepReport};
use super_mario::engine::scene_manager::{Scene, SceneManager};
use super_mario::engine::storage::{Entity, Storage};
use super_mario::engine::world::World;
use super_mario::systems::RenderingSystem;
use super_mario::util::fixed::{MAX_COORD, MAX_EXTENT};
use super_mario::util::vector::Vector2;

fn sprite() -> Sprite {
    Sprite {
        src: Rect::new(0, 0, 167, 330),
        width: 32_000,
        height: 16_000,
        repeat: TileCount { x: 1, y: 1 },
    }
}

#[test]
fn transform_validity() {
    assert!(Transform::at(Vector2::new(MAX_COORD, -MAX_COORD)).is_valid());
    assert!(!Transform::at(Vector2::new(MAX_COORD + 1, 0)).is_valid());
    let mut t = Transform::at(Vector2::new(0, 0));
    t.rotation = i64::MAX;
    assert!(t.is_valid());
    t.scale = Vector2::new(0, i64::MIN);
    assert!(!t.is_valid());
}

#[test]
fn sprite_validity() {
    assert!(sprite().is_valid());
    let mut s = sprite();
    s.src = Rect::new(i64::MAX, i64::MIN, -MAX_EXTENT, i64::MAX);
    s.width = MAX_EXTENT;
    s.height = -MAX_EXTENT;
    s.repeat = TileCount { x: u32::MAX, y: u32::MAX };
    assert!(s.is_valid());
    s.width = MAX_EXTENT + 1;
    assert!(!s.is_valid());
    s.width = 0;
    s.height = -MAX_EXTENT - 1;
    assert!(!s.is_valid());
    s.height = 0;
    s.src.w = MAX_EXTENT + 1;
    assert!(!s.is_valid());
}

#[test]
fn animation_validity() {
    assert!(Animation::default().is_valid());
    assert!(AnimationTable::new().is_valid());
    assert!(AnimationParams::new(u32::MAX, u32::MAX, u32::MAX).is_valid());
    assert!(AnimationParams { frame: MAX_FRAME, start_frame: 0, frame_count: 0 }.is_valid());
    assert!(!AnimationParams { frame: MAX_FRAME + 1, start_frame: 0, frame_count: 0 }.is_valid());
    assert!(!AnimationParams { frame: -1, start_frame: 0, frame_count: 0 }.is_valid());
    let mut a = Animation::default();
    a.speed = MAX_SPEED;
    a.speed_factor = MAX_SPEED_FACTOR;
    assert!(a.is_valid());
    a.speed = MAX_SPEED + 1;
    assert!(!a.is_valid());
    a.speed = -1;
    assert!(!a.is_valid());
    a.speed = 0;
    a.speed_factor = MAX_SPEED_FACTOR + 1;
    assert!(!a.is_valid());
    a.speed_factor = -1;
    assert!(!a.is_valid());
    a.speed_factor = 0;
    for state in [
        AnimationStates::Idle,
        AnimationStates::Moving,
        AnimationStates::Jumping,
        AnimationStates::Drag,
    ] {
        let mut broken = a;
        broken.animations.insert(state, AnimationParams { frame: -1, start_frame: 0, frame_count: 1 });
        assert!(!broken.is_valid());
        assert!(!broken.animations.is_valid());
        let mut sound = a;
        sound.animations.insert(state, AnimationParams::new(1, 0, 2));
        assert!(sound.is_valid());
    }
}

#[test]
fn camera_validity() {
    assert!(Camera::default().is_valid());
    let mut c = Camera::default();
    c.set_zoom(0);
    assert!(!c.is_valid());
    c.set_zoom(1);
    assert!(c.is_valid());
    c.set_zoom(MAX_ZOOM + 1);
    assert!(!c.is_valid());
    c.set_zoom(MAX_ZOOM);
    c.target_zoom = 0;
    assert!(!c.is_valid());
    c.target_zoom = 1;
    c.set_target(&Vector2::new(0, MAX_COORD + 1));
    assert!(!c.is_valid());
    c.set_target(&Vector2::new(0, MAX_COORD));
    assert!(c.is_valid());
    c.position = Vector2::new(-MAX_COORD - 1, 0);
    assert!(!c.is_valid());
}

#[test]
fn rendering_system_validity() {
    assert!(RenderingSystem::new(0, 0).is_valid());
    assert!(RenderingSystem::new(MAX_COORD, MAX_COORD).is_valid());
    assert!(!RenderingSystem::new(-1, 0).is_valid());
    assert!(!RenderingSystem::new(0, -1).is_valid());
    assert!(!RenderingSystem::new(MAX_COORD + 1, 0).is_valid());
    assert!(!RenderingSystem::new(0, MAX_COORD + 1).is_valid());
}

#[test]
fn storage_is_below() {
    let mut storage: Storage<Jumper> = Storage::new();
    assert!(storage.is_below(0));
    storage.insert(Entity { id: 2 }, Jumper::default());
    assert!(!storage.is_below(0));
    assert!(!storage.is_below(2));
    assert!(storage.is_below(3));
    assert!(storage.is_below(100));
    storage.insert(Entity { id: 5 }, Jumper::default());
    assert!(!storage.is_below(3));
    storage.remove(Entity { id: 5 });
    assert!(storage.is_below(3));
}

#[test]
fn world_validity() {
    let mut world = World::new();
    assert!(world.is_valid());
    let e = world.create_entity();
    world.transforms.insert(e, Transform::at(Vector2::new(0, 0)));
    world.sprites.insert(e, sprite());
    world.animations.insert(e, Animation::default());
    assert!(world.is_valid());

    // A component of an entity that was never made.
    world.jumpers.insert(Entity { id: 1 }, Jumper::default());
    assert!(!world.is_valid());
    world.create_entity();
    assert!(world.is_valid());

    world.transforms.insert(e, Transform::at(Vector2::new(MAX_COORD + 1, 0)));
    assert!(!world.is_valid());
    world.transforms.insert(e, Transform::at(Vector2::new(0, 0)));
    let mut wide = sprite();
    wide.width = MAX_EXTENT + 1;
    world.sprites.insert(Entity { id: 1 }, wide);
    assert!(!world.is_valid());
    world.sprites.remove(Entity { id: 1 });
    let mut fast = Animation::default();
    fast.speed = -1;
    world.animations.insert(Entity { id: 1 }, fast);
    assert!(!world.is_valid());
    world.animations.remove(Entity { id: 1 });
    assert!(world.is_valid());
}

#[test]
fn physics_world_validity() {
    let mut physics = PhysicsWorld::default();
    assert!(physics.is_valid());
    physics.insert_body(
        super_mario::engine::physics::RigidBodyDesc::new(Vector2::new(0, 0)),
        super_mario::engine::physics::ColliderDesc::new(super_mario::engine::physics::Shape::Ball {
            radius: 1,
        }),
    );
    assert!(physics.is_valid());
    physics.bodies[0].state.velocity = Vector2::new(0, MAX_COORD + 1);
    assert!(!physics.is_valid());
    physics.bodies[0].state = BodyState::at_rest(Vector2::new(MAX_COORD, 0), 0);
    assert!(physics.is_valid());
}

#[test]
fn scene_validity() {
    let mut game = SuperMario::new();
    assert!(game.scene_manager.is_valid());
    assert!(game.scene_manager.current_scene().is_valid());
    game.scene_manager.step(StepReport { bodies: vec![], contacts: vec![] });
    game.scene_manager.update(&vec![], super_mario::engine::resources::KeyMods::none(), 0, 0);
    assert!(game.scene_manager.is_valid());

    game.scene_manager.push_scene(Scene::new(World::new(), PhysicsWorld::default()));
    assert!(game.scene_manager.is_valid());
    game.scene_manager.scenes[1].camera.zoom = 0;
    assert!(!game.scene_manager.is_valid());
    assert!(!game.scene_manager.scenes[1].is_valid());
    assert!(game.scene_manager.scenes[0].is_valid());
    game.scene_manager.pop_scene();
    assert!(game.scene_manager.is_valid());

    game.scene_manager.current_scene().world.entities = 0;
    assert!(!game.scene_manager.is_valid());
    let empty = SceneManager { scenes: vec![] };
    assert!(empty.is_valid());
}
