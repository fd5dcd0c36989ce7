use super_mario::components::Body;
use super_mario::engine::physics::{
    BasicMaterial, BodyHandle, BodyState, BodyStatus, Collider, ColliderDesc, ColliderHandle,
    ColliderTag, Command, ContactPair, ForceType, PhysicsWorld, RigidBody, RigidBodyDesc, Shape,
    StepReport, GRAVITY,
};
use super_mario::util::fixed::MAX_COORD;
use super_mario::util::vector::Vector2;

fn ball() -> ColliderDesc {
    ColliderDesc::new(Shape::Ball { radius: 8_000 })
}

fn state(x: i64, y: i64, vx: i64, vy: i64) -> BodyState {
    BodyState { position: Vector2::new(x, y), rotation: 0, velocity: Vector2::new(vx, vy) }
}

fn two_bodies() -> PhysicsWorld {
    let mut world = PhysicsWorld::default();
    world.insert_body(RigidBodyDesc::new(Vector2::new(1_000, 2_000)), ball());
    world.insert_body(RigidBodyDesc::new(Vector2::new(-1_000, 0)), ball());
    world
}

fn pair(first: usize, second: usize) -> ContactPair {
    ContactPair {
        first: ColliderHandle { index: first },
        second: ColliderHandle { index: second },
    }
}

#[test]
fn physics_world_default_is_empty_under_gravity() {
    let world = PhysicsWorld::default();
    assert_eq!(GRAVITY, -300_000);
    assert_eq!(world.gravity, Vector2::new(0, -300_000));
    assert!(world.bodies.is_empty());
    assert!(world.colliders.is_empty());
    assert!(world.contacts.is_empty());
    assert!(world.commands.is_empty());
}

#[test]
fn descriptors_start_from_defaults() {
    assert_eq!(
        RigidBodyDesc::new(Vector2::new(1, 2)),
        RigidBodyDesc {
            position: Vector2::new(1, 2),
            rotation: 0,
            mass: 0,
            max_linear_velocity: None,
            kinematic_rotations: false,
            status: BodyStatus::Dynamic,
        }
    );
    assert_eq!(
        ball(),
        ColliderDesc {
            shape: Shape::Ball { radius: 8_000 },
            translation: Vector2::zero(),
            density: 0,
            material: None,
            user_data: None,
            sensor: false,
        }
    );
}

#[test]
fn insert_body_hands_out_handles_in_order() {
    let mut world = PhysicsWorld::default();
    let mut desc = RigidBodyDesc::new(Vector2::new(1_000, 2_000));
    desc.rotation = 500;
    desc.mass = 1_000;
    let first = world.insert_body(desc, ball());
    let second = world.insert_body(RigidBodyDesc::new(Vector2::new(0, 0)), ball());
    assert_eq!(
        first,
        Body {
            rigid_body_handle: BodyHandle { index: 0 },
            collider_handle: ColliderHandle { index: 0 },
        }
    );
    assert_eq!(
        second,
        Body {
            rigid_body_handle: BodyHandle { index: 1 },
            collider_handle: ColliderHandle { index: 1 },
        }
    );
    assert_eq!(
        world.rigid_body(first.rigid_body_handle),
        Some(RigidBody {
            desc,
            state: BodyState {
                position: Vector2::new(1_000, 2_000),
                rotation: 500,
                velocity: Vector2::zero(),
            },
        })
    );
    assert_eq!(
        world.get_collider(first.collider_handle),
        Some(Collider { parent: BodyHandle { index: 0 }, desc: ball() })
    );
    assert!(world.commands.is_empty());
}

#[test]
fn insert_sensor_makes_the_collider_a_sensor() {
    let mut world = PhysicsWorld::default();
    let body = world.insert_body(RigidBodyDesc::new(Vector2::new(0, 0)), ball());
    let mut desc = ColliderDesc::new(Shape::Cuboid { half_extents: Vector2::new(7_000, 1_000) });
    desc.translation = Vector2::new(0, -10_000);
    desc.user_data = Some(ColliderTag::Feet);
    desc.material = Some(BasicMaterial { restitution: 0, friction: 0 });
    let handle = world.insert_sensor(&body.rigid_body_handle, desc);
    assert_eq!(handle, ColliderHandle { index: 1 });
    let mut expected = desc;
    expected.sensor = true;
    assert_eq!(
        world.get_collider(handle),
        Some(Collider { parent: body.rigid_body_handle, desc: expected })
    );
    assert_eq!(world.bodies.len(), 1);
    // The primary collider stays solid.
    assert_eq!(world.get_collider(body.collider_handle).map(|c| c.desc.sensor), Some(false));
}

#[test]
fn lookups_with_stale_handles_find_nothing() {
    let world = two_bodies();
    assert_eq!(world.rigid_body(BodyHandle { index: 2 }), None);
    assert_eq!(world.get_collider(ColliderHandle { index: 2 }), None);
    assert_eq!(world.rigid_body(BodyHandle { index: usize::MAX }), None);
}

#[test]
fn step_installs_the_reported_states() {
    let mut world = two_bodies();
    let report = StepReport {
        bodies: vec![state(1_000, 1_500, 0, -5_000), state(-900, 0, 100, 0)],
        contacts: vec![pair(0, 1)],
    };
    assert!(report.is_valid());
    world.step(report);
    assert_eq!(
        world.rigid_body(BodyHandle { index: 0 }).map(|b| b.state),
        Some(state(1_000, 1_500, 0, -5_000))
    );
    assert_eq!(
        world.rigid_body(BodyHandle { index: 1 }).map(|b| b.state),
        Some(state(-900, 0, 100, 0))
    );
    // The descriptors stay.
    assert_eq!(
        world.rigid_body(BodyHandle { index: 0 }).map(|b| b.desc.position),
        Some(Vector2::new(1_000, 2_000))
    );
    assert_eq!(world.contacts, vec![pair(0, 1)]);
    assert_eq!(world.colliders.len(), 2);
}

#[test]
fn step_with_a_short_report_freezes_the_rest() {
    let mut world = two_bodies();
    world.step(StepReport { bodies: vec![state(5, 6, 7, 8)], contacts: vec![] });
    assert_eq!(world.rigid_body(BodyHandle { index: 0 }).map(|b| b.state), Some(state(5, 6, 7, 8)));
    assert_eq!(
        world.rigid_body(BodyHandle { index: 1 }).map(|b| b.state),
        Some(state(-1_000, 0, 0, 0))
    );
}

#[test]
fn step_with_a_long_report_ignores_the_surplus() {
    let mut world = two_bodies();
    world.step(StepReport {
        bodies: vec![state(1, 1, 1, 1), state(2, 2, 2, 2), state(3, 3, 3, 3)],
        contacts: vec![],
    });
    assert_eq!(world.bodies.len(), 2);
    assert_eq!(world.rigid_body(BodyHandle { index: 1 }).map(|b| b.state), Some(state(2, 2, 2, 2)));
}

#[test]
fn step_replaces_the_contacts_and_keeps_the_commands() {
    let mut world = two_bodies();
    world.apply_force(BodyHandle { index: 0 }, Vector2::new(1, 0), ForceType::Impulse);
    world.step(StepReport { bodies: vec![], contacts: vec![pair(0, 1)] });
    world.step(StepReport { bodies: vec![], contacts: vec![] });
    assert!(world.contacts.is_empty());
    assert_eq!(world.commands.len(), 1);
}

#[test]
fn report_validity() {
    assert!(StepReport { bodies: vec![], contacts: vec![pair(9, 9)] }.is_valid());
    assert!(state(MAX_COORD, -MAX_COORD, MAX_COORD, -MAX_COORD).is_valid());
    assert!(!state(MAX_COORD + 1, 0, 0, 0).is_valid());
    assert!(!state(0, -MAX_COORD - 1, 0, 0).is_valid());
    assert!(!state(0, 0, MAX_COORD + 1, 0).is_valid());
    assert!(!state(0, 0, 0, i64::MIN).is_valid());
    assert!(!StepReport { bodies: vec![state(0, 0, 0, 0), state(0, 0, 0, i64::MAX)], contacts: vec![] }
        .is_valid());
    assert_eq!(BodyState::at_rest(Vector2::new(1, 2), 3), BodyState {
        position: Vector2::new(1, 2),
        rotation: 3,
        velocity: Vector2::zero(),
    });
}

#[test]
fn apply_force_queues_a_command() {
    let mut world = two_bodies();
    assert!(world.apply_force(BodyHandle { index: 1 }, Vector2::new(5, -5), ForceType::Force));
    assert!(world.apply_force(BodyHandle { index: 0 }, Vector2::new(1, 2), ForceType::Impulse));
    assert_eq!(
        world.commands,
        vec![
            Command::ApplyForce {
                body: BodyHandle { index: 1 },
                force: Vector2::new(5, -5),
                force_type: ForceType::Force,
            },
            Command::ApplyForce {
                body: BodyHandle { index: 0 },
                force: Vector2::new(1, 2),
                force_type: ForceType::Impulse,
            },
        ]
    );
}

#[test]
fn apply_force_on_a_stale_handle_does_nothing() {
    let mut world = two_bodies();
    assert!(!world.apply_force(BodyHandle { index: 2 }, Vector2::new(5, -5), ForceType::Impulse));
    assert!(world.commands.is_empty());
}

#[test]
fn set_friction_queues_a_command() {
    let mut world = two_bodies();
    assert!(world.set_friction(ColliderHandle { index: 1 }, 500));
    assert!(!world.set_friction(ColliderHandle { index: 2 }, 500));
    assert_eq!(
        world.commands,
        vec![Command::SetFriction { collider: ColliderHandle { index: 1 }, friction: 500 }]
    );
}

#[test]
fn take_commands_drains_the_queue() {
    let mut world = two_bodies();
    world.set_friction(ColliderHandle { index: 0 }, 1);
    world.set_friction(ColliderHandle { index: 1 }, 2);
    let taken = world.take_commands();
    assert_eq!(
        taken,
        vec![
            Command::SetFriction { collider: ColliderHandle { index: 0 }, friction: 1 },
            Command::SetFriction { collider: ColliderHandle { index: 1 }, friction: 2 },
        ]
    );
    assert!(world.commands.is_empty());
    assert!(world.take_commands().is_empty());
    assert_eq!(world.bodies.len(), 2);
}

#[test]
fn contact_query_finds_both_ends() {
    let mut world = two_bodies();
    world.insert_body(RigidBodyDesc::new(Vector2::new(0, 0)), ball());
    world.step(StepReport { bodies: vec![], contacts: vec![pair(0, 1), pair(2, 0), pair(1, 2)] });
    let mut touching = world.colliders_interacting_with(ColliderHandle { index: 0 }).unwrap();
    touching.sort_by_key(|h| h.index);
    assert_eq!(touching, vec![ColliderHandle { index: 1 }, ColliderHandle { index: 2 }]);
    let mut touching = world.colliders_interacting_with(ColliderHandle { index: 2 }).unwrap();
    touching.sort_by_key(|h| h.index);
    assert_eq!(touching, vec![ColliderHandle { index: 0 }, ColliderHandle { index: 1 }]);
}

#[test]
fn contact_query_without_contacts_is_empty() {
    let world = two_bodies();
    assert_eq!(world.colliders_interacting_with(ColliderHandle { index: 0 }), Some(vec![]));
}

#[test]
fn contact_query_on_a_stale_handle_is_none() {
    let mut world = two_bodies();
    world.step(StepReport { bodies: vec![], contacts: vec![pair(5, 0)] });
    assert_eq!(world.colliders_interacting_with(ColliderHandle { index: 5 }), None);
    // The live end still sees the pair.
    assert_eq!(
        world.colliders_interacting_with(ColliderHandle { index: 0 }),
        Some(vec![ColliderHandle { index: 5 }])
    );
}
