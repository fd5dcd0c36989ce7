use super_mario::components::{
    Animation, AnimationParams, AnimationStates, Body, FeetSensor, Jumper, Player, Transform,
};
use super_mario::engine::physics::{
    BodyHandle, BodyState, ColliderDesc, ColliderHandle, Command, ForceType, PhysicsWorld,
    RigidBodyDesc, Shape, StepReport,
};
use super_mario::engine::resources::{InputEvents, KeyCode, KeyMods};
use super_mario::engine::storage::{Entity, Storage};
use super_mario::systems::player_control::{
    Controlled, ACCELERATION, FRICTION, JUMP_FORCE, JUMP_WINDOW, SPRINT_JUMP_WINDOW, SPRINT_SPEED,
    TOP_SPEED,
};
use super_mario::systems::PlayerControlSystem;
use super_mario::util::vector::Vector2;

fn keys(held: &[KeyCode], mods: KeyMods, pressed_at: u64, now: u64) -> InputEvents {
    let mut input = InputEvents::default();
    input.refresh(&held.to_vec(), mods, pressed_at);
    input.refresh(&held.to_vec(), mods, now);
    input
}

fn feet(on_floor: bool) -> Option<FeetSensor> {
    Some(FeetSensor { collider_handle: ColliderHandle { index: 1 }, on_floor })
}

fn transform() -> Transform {
    Transform::at(Vector2::new(0, 0))
}

fn animation() -> Animation {
    let mut a = Animation::default();
    a.animations.insert(AnimationStates::Idle, AnimationParams::new(0, 0, 1));
    a.animations.insert(AnimationStates::Jumping, AnimationParams::new(0, 5, 1));
    a
}

fn still() -> Option<Vector2> {
    Some(Vector2::new(0, 0))
}

#[test]
fn control_constants() {
    assert_eq!(ACCELERATION, 6_667);
    assert_eq!(TOP_SPEED, 100_000);
    assert_eq!(SPRINT_SPEED, 240_000);
    assert_eq!(FRICTION, 500);
    assert_eq!(JUMP_WINDOW, 200_000);
    assert_eq!(SPRINT_JUMP_WINDOW, 240_000);
    assert_eq!(JUMP_FORCE, 40_000);
}

#[test]
fn no_key_means_resting_friction() {
    let input = InputEvents::default();
    let r = PlayerControlSystem::control(&input, still(), feet(true), transform(), None, None);
    assert_eq!(
        r,
        Controlled {
            transform: transform(),
            jumper: None,
            animation: None,
            force: Vector2::zero(),
            friction: 500,
        }
    );
}

#[test]
fn right_key_pushes_right() {
    for key in [KeyCode::D, KeyCode::Right] {
        let input = keys(&[key], KeyMods::none(), 0, 0);
        let r = PlayerControlSystem::control(&input, still(), feet(true), transform(), None, None);
        assert_eq!(r.force, Vector2::new(6_667, 0));
        assert_eq!(r.friction, 0);
        assert_eq!(r.transform, transform());
    }
}

#[test]
fn left_key_pushes_left_and_flips_the_facing() {
    for key in [KeyCode::A, KeyCode::Left] {
        let input = keys(&[key], KeyMods::none(), 0, 0);
        let r = PlayerControlSystem::control(&input, still(), feet(true), transform(), None, None);
        assert_eq!(r.force, Vector2::new(-6_667, 0));
        assert_eq!(r.friction, 0);
        assert_eq!(r.transform.scale, Vector2::new(-1_000, 1_000));
        assert_eq!(r.transform.position, transform().position);
    }
}

#[test]
fn right_key_turns_a_left_facing_player() {
    let input = keys(&[KeyCode::D], KeyMods::none(), 0, 0);
    let mut t = transform();
    t.scale = Vector2::new(-2_000, 1_000);
    let r = PlayerControlSystem::control(&input, still(), feet(false), t, None, None);
    assert_eq!(r.transform.scale, Vector2::new(2_000, 1_000));
}

#[test]
fn right_wins_over_left() {
    let input = keys(&[KeyCode::A, KeyCode::D], KeyMods::none(), 0, 0);
    let r = PlayerControlSystem::control(&input, still(), feet(true), transform(), None, None);
    assert_eq!(r.force, Vector2::new(6_667, 0));
    assert_eq!(r.transform.scale, Vector2::new(1_000, 1_000));
}

#[test]
fn no_push_at_top_speed() {
    let input = keys(&[KeyCode::D], KeyMods::none(), 0, 0);
    let below = Some(Vector2::new(99_999, 0));
    let at = Some(Vector2::new(100_000, 0));
    let r = PlayerControlSystem::control(&input, below, feet(true), transform(), None, None);
    assert_eq!(r.force.x, 6_667);
    let r = PlayerControlSystem::control(&input, at, feet(true), transform(), None, None);
    assert_eq!(r.force, Vector2::zero());
    // Still facing right and still without friction.
    assert_eq!(r.friction, 0);

    let input = keys(&[KeyCode::A], KeyMods::none(), 0, 0);
    let below = Some(Vector2::new(-99_999, 0));
    let at = Some(Vector2::new(-100_000, 0));
    let r = PlayerControlSystem::control(&input, below, feet(true), transform(), None, None);
    assert_eq!(r.force.x, -6_667);
    let r = PlayerControlSystem::control(&input, at, feet(true), transform(), None, None);
    assert_eq!(r.force, Vector2::zero());
}

#[test]
fn shift_raises_the_top_speed() {
    let input = keys(&[KeyCode::D], KeyMods::shift(), 0, 0);
    let r = PlayerControlSystem::control(
        &input,
        Some(Vector2::new(239_999, 0)),
        feet(true),
        transform(),
        None,
        None,
    );
    assert_eq!(r.force.x, 6_667);
    let r = PlayerControlSystem::control(
        &input,
        Some(Vector2::new(240_000, 0)),
        feet(true),
        transform(),
        None,
        None,
    );
    assert_eq!(r.force.x, 0);
}

#[test]
fn jump_starts_at_full_force() {
    let input = keys(&[KeyCode::Space], KeyMods::none(), 1_000_000, 1_000_000);
    let r = PlayerControlSystem::control(
        &input,
        still(),
        feet(true),
        transform(),
        Some(Jumper::default()),
        Some(animation()),
    );
    assert_eq!(r.force, Vector2::new(0, 40_000));
    assert_eq!(r.friction, 0);
    assert_eq!(r.jumper, Some(Jumper { jump_active: true }));
    let mut jumping = animation();
    jumping.current_state = AnimationStates::Jumping;
    assert_eq!(r.animation, Some(jumping));
}

#[test]
fn jump_force_decays_in_a_straight_line() {
    let held = |micros: u64| {
        let input = keys(&[KeyCode::Space], KeyMods::none(), 1_000_000, 1_000_000 + micros);
        PlayerControlSystem::control(
            &input,
            still(),
            feet(false),
            transform(),
            Some(Jumper { jump_active: true }),
            None,
        )
    };
    assert_eq!(held(0).force.y, 40_000);
    assert_eq!(held(50_000).force.y, 30_000);
    assert_eq!(held(100_000).force.y, 20_000);
    assert_eq!(held(150_000).force.y, 10_000);
    assert_eq!(held(199_999).force.y, 0);
    assert_eq!(held(199_000).force.y, 200);
    assert_eq!(held(1).force.y, 39_999);
}

#[test]
fn jump_beyond_the_window_lifts_no_more() {
    for micros in [200_000u64, 200_001, 240_000, 1_000_000] {
        let input = keys(&[KeyCode::Space], KeyMods::none(), 1_000_000, 1_000_000 + micros);
        let r = PlayerControlSystem::control(
            &input,
            still(),
            feet(false),
            transform(),
            Some(Jumper { jump_active: true }),
            Some(animation()),
        );
        assert_eq!(r.force, Vector2::zero());
        assert_eq!(r.friction, 500);
        // In the air the latch is clear once the window has run out.
        assert_eq!(r.jumper, Some(Jumper { jump_active: false }));
        assert_eq!(r.animation, Some(animation()));
    }
}

#[test]
fn the_latch_holds_in_the_air_within_the_window() {
    for micros in [0u64, 1, 100_000, 199_999] {
        let input = keys(&[KeyCode::Space], KeyMods::none(), 1_000_000, 1_000_000 + micros);
        let r = PlayerControlSystem::control(
            &input,
            still(),
            feet(false),
            transform(),
            Some(Jumper { jump_active: true }),
            None,
        );
        assert_eq!(r.jumper, Some(Jumper { jump_active: true }));
    }
    // Under shift the window is longer.
    let input = keys(&[KeyCode::Space], KeyMods::shift(), 1_000_000, 1_239_999);
    let r = PlayerControlSystem::control(
        &input,
        still(),
        feet(false),
        transform(),
        Some(Jumper { jump_active: true }),
        None,
    );
    assert_eq!(r.jumper, Some(Jumper { jump_active: true }));
    let input = keys(&[KeyCode::Space], KeyMods::shift(), 1_000_000, 1_240_000);
    let r = PlayerControlSystem::control(
        &input,
        still(),
        feet(false),
        transform(),
        Some(Jumper { jump_active: true }),
        None,
    );
    assert_eq!(r.jumper, Some(Jumper { jump_active: false }));
}

#[test]
fn on_the_floor_the_key_catches_the_latch_even_past_the_window() {
    for before in [false, true] {
        let input = keys(&[KeyCode::Space], KeyMods::none(), 1_000_000, 1_500_000);
        let r = PlayerControlSystem::control(
            &input,
            still(),
            feet(true),
            transform(),
            Some(Jumper { jump_active: before }),
            Some(animation()),
        );
        assert_eq!(r.jumper, Some(Jumper { jump_active: true }));
        // But a key held for so long lifts no more.
        assert_eq!(r.force, Vector2::zero());
        assert_eq!(r.friction, 500);
        assert_eq!(r.animation, Some(animation()));
    }
}

#[test]
fn shift_lengthens_the_jump() {
    let input = keys(&[KeyCode::Space], KeyMods::shift(), 1_000_000, 1_200_000);
    let r = PlayerControlSystem::control(
        &input,
        still(),
        feet(false),
        transform(),
        Some(Jumper { jump_active: true }),
        None,
    );
    // 40 * (0.24 - 0.2) / 0.24
    assert_eq!(r.force.y, 6_666);
    let input = keys(&[KeyCode::Space], KeyMods::shift(), 1_000_000, 1_240_000);
    let r = PlayerControlSystem::control(
        &input,
        still(),
        feet(false),
        transform(),
        Some(Jumper { jump_active: true }),
        None,
    );
    assert_eq!(r.force.y, 0);
}

#[test]
fn jump_latch_is_false_while_airborne() {
    // In the air without the latch, the jump key does nothing.
    let input = keys(&[KeyCode::Space], KeyMods::none(), 1_000_000, 1_000_000);
    let r = PlayerControlSystem::control(
        &input,
        still(),
        feet(false),
        transform(),
        Some(Jumper { jump_active: false }),
        Some(animation()),
    );
    assert_eq!(r.jumper, Some(Jumper { jump_active: false }));
    assert_eq!(r.force, Vector2::zero());
    assert_eq!(r.animation, Some(animation()));
    assert_eq!(r.friction, 500);
}

#[test]
fn jump_latch_catches_on_landing() {
    let input = keys(&[KeyCode::Space], KeyMods::none(), 1_000_000, 1_050_000);
    let r = PlayerControlSystem::control(
        &input,
        still(),
        feet(true),
        transform(),
        Some(Jumper { jump_active: false }),
        None,
    );
    assert_eq!(r.jumper, Some(Jumper { jump_active: true }));
    assert_eq!(r.force.y, 30_000);
}

#[test]
fn releasing_the_key_clears_the_latch() {
    let input = InputEvents::default();
    for on_floor in [true, false] {
        let r = PlayerControlSystem::control(
            &input,
            still(),
            feet(on_floor),
            transform(),
            Some(Jumper { jump_active: true }),
            None,
        );
        assert_eq!(r.jumper, Some(Jumper { jump_active: false }));
        assert_eq!(r.force, Vector2::zero());
    }
}

#[test]
fn running_jump_combines_both_forces() {
    let input = keys(&[KeyCode::Left, KeyCode::Space], KeyMods::none(), 1_000_000, 1_100_000);
    let r = PlayerControlSystem::control(
        &input,
        Some(Vector2::new(-50_000, 0)),
        feet(true),
        transform(),
        Some(Jumper::default()),
        None,
    );
    assert_eq!(r.force, Vector2::new(-6_667, 20_000));
    assert_eq!(r.friction, 0);
}

#[test]
fn a_player_without_feet_sensor_is_not_steered() {
    let input = keys(&[KeyCode::D, KeyCode::Space], KeyMods::none(), 0, 0);
    let r = PlayerControlSystem::control(
        &input,
        still(),
        None,
        transform(),
        Some(Jumper { jump_active: true }),
        Some(animation()),
    );
    assert_eq!(
        r,
        Controlled {
            transform: transform(),
            jumper: Some(Jumper { jump_active: true }),
            animation: Some(animation()),
            force: Vector2::zero(),
            friction: 500,
        }
    );
}

#[test]
fn a_player_without_a_live_body_is_not_steered() {
    let input = keys(&[KeyCode::A, KeyCode::Space], KeyMods::none(), 0, 0);
    let r = PlayerControlSystem::control(
        &input,
        None,
        feet(true),
        transform(),
        Some(Jumper { jump_active: false }),
        None,
    );
    assert_eq!(r.transform, transform());
    assert_eq!(r.jumper, Some(Jumper { jump_active: false }));
    assert_eq!(r.force, Vector2::zero());
    assert_eq!(r.friction, 500);
}

struct Stage {
    transforms: Storage<Transform>,
    players: Storage<Player>,
    bodies: Storage<Body>,
    feet: Storage<FeetSensor>,
    jumpers: Storage<Jumper>,
    animations: Storage<Animation>,
    physics: PhysicsWorld,
}

fn stage() -> Stage {
    let mut physics = PhysicsWorld::default();
    let body = physics.insert_body(
        RigidBodyDesc::new(Vector2::new(0, 0)),
        ColliderDesc::new(Shape::Ball { radius: 8_000 }),
    );
    let sensor = physics.insert_sensor(
        &body.rigid_body_handle,
        ColliderDesc::new(Shape::Ball { radius: 1_000 }),
    );
    let mut s = Stage {
        transforms: Storage::new(),
        players: Storage::new(),
        bodies: Storage::new(),
        feet: Storage::new(),
        jumpers: Storage::new(),
        animations: Storage::new(),
        physics,
    };
    let e = Entity { id: 0 };
    s.transforms.insert(e, transform());
    s.players.insert(e, Player);
    s.bodies.insert(e, body);
    s.feet.insert(e, FeetSensor { collider_handle: sensor, on_floor: true });
    s.jumpers.insert(e, Jumper::default());
    s.animations.insert(e, animation());
    s
}

fn run(s: &mut Stage, input: &InputEvents) {
    let mut system = PlayerControlSystem;
    system.run(
        &mut s.transforms,
        input,
        &s.players,
        &s.bodies,
        &mut s.physics,
        &s.feet,
        &mut s.jumpers,
        &mut s.animations,
    );
}

#[test]
fn system_steers_the_player_and_queues_commands() {
    let mut s = stage();
    let input = keys(&[KeyCode::Left, KeyCode::Space], KeyMods::none(), 0, 100_000);
    run(&mut s, &input);
    let e = Entity { id: 0 };
    assert_eq!(s.transforms.get(e).map(|t| t.scale), Some(Vector2::new(-1_000, 1_000)));
    assert_eq!(s.jumpers.get(e), Some(Jumper { jump_active: true }));
    assert_eq!(s.animations.get(e).map(|a| a.current_state), Some(AnimationStates::Jumping));
    assert_eq!(
        s.physics.take_commands(),
        vec![
            Command::ApplyForce {
                body: BodyHandle { index: 0 },
                force: Vector2::new(-6_667, 20_000),
                force_type: ForceType::Impulse,
            },
            Command::SetFriction { collider: ColliderHandle { index: 0 }, friction: 0 },
        ]
    );
}

#[test]
fn system_without_keys_only_sets_the_friction() {
    let mut s = stage();
    run(&mut s, &InputEvents::default());
    let e = Entity { id: 0 };
    assert_eq!(s.transforms.get(e), Some(transform()));
    assert_eq!(s.jumpers.get(e), Some(Jumper { jump_active: false }));
    assert_eq!(s.animations.get(e), Some(animation()));
    assert_eq!(
        s.physics.take_commands(),
        vec![Command::SetFriction { collider: ColliderHandle { index: 0 }, friction: 500 }]
    );
}

#[test]
fn system_reads_the_velocity_of_the_last_step() {
    let mut s = stage();
    s.physics.step(StepReport {
        bodies: vec![BodyState {
            position: Vector2::new(0, 0),
            rotation: 0,
            velocity: Vector2::new(100_000, 0),
        }],
        contacts: vec![],
    });
    let input = keys(&[KeyCode::D], KeyMods::none(), 0, 0);
    run(&mut s, &input);
    assert_eq!(
        s.physics.take_commands(),
        vec![Command::SetFriction { collider: ColliderHandle { index: 0 }, friction: 0 }]
    );
}

#[test]
fn system_leaves_other_entities_alone() {
    let mut s = stage();
    // An entity that is no player, and a player without a body.
    let other = Entity { id: 1 };
    let ghost = Entity { id: 2 };
    let mut t = transform();
    t.scale = Vector2::new(3_000, 1_000);
    s.transforms.insert(other, t);
    s.bodies.insert(other, Body {
        rigid_body_handle: BodyHandle { index: 0 },
        collider_handle: ColliderHandle { index: 0 },
    });
    s.jumpers.insert(other, Jumper { jump_active: true });
    s.transforms.insert(ghost, t);
    s.players.insert(ghost, Player);
    s.jumpers.insert(ghost, Jumper { jump_active: true });
    let input = keys(&[KeyCode::Left], KeyMods::none(), 0, 0);
    run(&mut s, &input);
    assert_eq!(s.transforms.get(other), Some(t));
    assert_eq!(s.jumpers.get(other), Some(Jumper { jump_active: true }));
    assert_eq!(s.transforms.get(ghost), Some(t));
    assert_eq!(s.jumpers.get(ghost), Some(Jumper { jump_active: true }));
    assert_eq!(s.physics.take_commands().len(), 2);
}

#[test]
fn a_player_with_a_stale_body_gets_no_command() {
    let mut s = stage();
    let e = Entity { id: 0 };
    // The body is gone, the collider still resolves.
    s.bodies.insert(e, Body {
        rigid_body_handle: BodyHandle { index: 7 },
        collider_handle: ColliderHandle { index: 0 },
    });
    s.jumpers.insert(e, Jumper { jump_active: true });
    let input = keys(&[KeyCode::Left, KeyCode::Space], KeyMods::none(), 0, 0);
    run(&mut s, &input);
    assert_eq!(s.physics.take_commands(), vec![]);
    assert_eq!(s.transforms.get(e), Some(transform()));
    assert_eq!(s.jumpers.get(e), Some(Jumper { jump_active: true }));
    assert_eq!(s.animations.get(e), Some(animation()));
}

#[test]
fn a_player_with_a_stale_collider_is_still_pushed() {
    let mut s = stage();
    let e = Entity { id: 0 };
    s.bodies.insert(e, Body {
        rigid_body_handle: BodyHandle { index: 0 },
        collider_handle: ColliderHandle { index: 9 },
    });
    let input = keys(&[KeyCode::D], KeyMods::none(), 0, 0);
    run(&mut s, &input);
    assert_eq!(
        s.physics.take_commands(),
        vec![Command::ApplyForce {
            body: BodyHandle { index: 0 },
            force: Vector2::new(6_667, 0),
            force_type: ForceType::Impulse,
        }]
    );
}

#[test]
fn a_stale_player_between_others_leaves_them_steered() {
    let mut s = stage();
    // A second and a third player on the same body; the second loses it.
    for id in [1usize, 2] {
        let e = Entity { id };
        s.transforms.insert(e, transform());
        s.players.insert(e, Player);
        s.feet.insert(e, FeetSensor { collider_handle: ColliderHandle { index: 1 }, on_floor: false });
        s.bodies.insert(e, Body {
            rigid_body_handle: BodyHandle { index: if id == 1 { 5 } else { 0 } },
            collider_handle: ColliderHandle { index: 0 },
        });
    }
    let input = keys(&[KeyCode::Left], KeyMods::none(), 0, 0);
    run(&mut s, &input);
    assert_eq!(s.transforms.get(Entity { id: 0 }).unwrap().scale.x, -1_000);
    assert_eq!(s.transforms.get(Entity { id: 1 }).unwrap().scale.x, 1_000);
    assert_eq!(s.transforms.get(Entity { id: 2 }).unwrap().scale.x, -1_000);
    assert_eq!(s.physics.take_commands().len(), 4);
}

#[test]
fn system_skips_stale_handles() {
    let mut s = stage();
    let e = Entity { id: 0 };
    s.bodies.insert(e, Body {
        rigid_body_handle: BodyHandle { index: 7 },
        collider_handle: ColliderHandle { index: 9 },
    });
    let input = keys(&[KeyCode::Left, KeyCode::Space], KeyMods::none(), 0, 0);
    run(&mut s, &input);
    assert_eq!(s.transforms.get(e), Some(transform()));
    assert_eq!(s.jumpers.get(e), Some(Jumper { jump_active: false }));
    assert_eq!(s.physics.take_commands(), vec![]);
}
