use super_mario::components::{
    BasicAI, CameraTarget, Jumper, Player, Transform,
};
use super_mario::engine::resource_manager::FontDetails;
use super_mario::engine::storage::{Entity, Storage};
use super_mario::engine::world::World;
use super_mario::util::vector::Vector2;

#[test]
fn storage_starts_empty() {
    let storage: Storage<Jumper> = Storage::new();
    assert_eq!(storage.len(), 0);
    assert_eq!(storage.get(Entity { id: 0 }), None);
    assert!(!storage.contains(Entity { id: 0 }));
}

#[test]
fn storage_insert_and_get() {
    let mut storage: Storage<Jumper> = Storage::new();
    assert_eq!(storage.insert(Entity { id: 3 }, Jumper { jump_active: true }), None);
    assert_eq!(storage.get(Entity { id: 3 }), Some(Jumper { jump_active: true }));
    assert!(storage.contains(Entity { id: 3 }));
    for id in [0usize, 1, 2, 4, 100] {
        assert_eq!(storage.get(Entity { id }), None);
        assert!(!storage.contains(Entity { id }));
    }
    assert_eq!(storage.len(), 4);
    assert_eq!(
        storage.insert(Entity { id: 3 }, Jumper { jump_active: false }),
        Some(Jumper { jump_active: true })
    );
    assert_eq!(storage.get(Entity { id: 3 }), Some(Jumper { jump_active: false }));
    assert_eq!(storage.insert(Entity { id: 1 }, Jumper { jump_active: true }), None);
    assert_eq!(storage.len(), 4);
    assert_eq!(storage.get(Entity { id: 1 }), Some(Jumper { jump_active: true }));
    assert_eq!(storage.get(Entity { id: 3 }), Some(Jumper { jump_active: false }));
}

#[test]
fn storage_remove() {
    let mut storage: Storage<Transform> = Storage::new();
    let t = Transform::at(Vector2::new(1, 2));
    storage.insert(Entity { id: 0 }, t);
    storage.insert(Entity { id: 1 }, t);
    assert_eq!(storage.remove(Entity { id: 0 }), Some(t));
    assert_eq!(storage.remove(Entity { id: 0 }), None);
    assert_eq!(storage.remove(Entity { id: 7 }), None);
    assert_eq!(storage.get(Entity { id: 0 }), None);
    assert_eq!(storage.get(Entity { id: 1 }), Some(t));
    assert_eq!(storage.len(), 2);
}

#[test]
fn world_numbers_entities_in_order() {
    let mut world = World::new();
    assert_eq!(world.entities, 0);
    assert_eq!(world.create_entity(), Entity { id: 0 });
    assert_eq!(world.create_entity(), Entity { id: 1 });
    assert_eq!(world.create_entity(), Entity { id: 2 });
    assert_eq!(world.entities, 3);
    assert_eq!(world.transforms.get(Entity { id: 1 }), None);
    assert_eq!(world.sprites.len(), 0);
}

#[test]
fn a_new_world_has_nothing_in_any_storage() {
    let world = World::new();
    assert_eq!(world.entities, 0);
    assert_eq!(world.transforms.len(), 0);
    assert_eq!(world.sprites.len(), 0);
    assert_eq!(world.bodies.len(), 0);
    assert_eq!(world.feet_sensors.len(), 0);
    assert_eq!(world.jumpers.len(), 0);
    assert_eq!(world.animations.len(), 0);
    assert_eq!(world.players.len(), 0);
    assert_eq!(world.camera_targets.len(), 0);
    assert_eq!(world.basic_ais.len(), 0);
    for id in [0usize, 1, 7] {
        let e = Entity { id };
        assert!(!world.transforms.contains(e));
        assert!(!world.sprites.contains(e));
        assert!(!world.bodies.contains(e));
        assert!(!world.feet_sensors.contains(e));
        assert!(!world.jumpers.contains(e));
        assert!(!world.animations.contains(e));
        assert!(!world.players.contains(e));
        assert!(!world.camera_targets.contains(e));
        assert!(!world.basic_ais.contains(e));
    }
    assert!(world.is_valid());
}

#[test]
fn transform_at_is_unrotated_and_unscaled() {
    assert_eq!(
        Transform::at(Vector2::new(3, 4)),
        Transform { position: Vector2::new(3, 4), rotation: 0, scale: Vector2::new(1_000, 1_000) }
    );
}

#[test]
fn marker_defaults() {
    assert_eq!(Player::default(), Player);
    assert_eq!(CameraTarget::default(), CameraTarget);
    assert_eq!(BasicAI::default(), BasicAI);
    assert_eq!(Jumper::default(), Jumper { jump_active: false });
}

#[test]
fn font_details_from_copies_path_and_size() {
    let details = FontDetails { path: String::from("/fonts/pixel.ttf"), size: 16 };
    let copy = FontDetails::from(&details);
    assert_eq!(copy.path, "/fonts/pixel.ttf");
    assert_eq!(copy.size, 16);
    assert!(copy == details);
    let other = FontDetails { path: String::from("/fonts/pixel.ttf"), size: 17 };
    assert!(FontDetails::from(&other) != details);
}
