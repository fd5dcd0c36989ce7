use super_mario::components::{
    Animation, AnimationParams, AnimationStates, AnimationTable, Rect, Sprite, TileCount,
};
use super_mario::engine::game::{FRAME_TICKS, TARGET_FPS};
use super_mario::engine::storage::{Entity, Storage};
use super_mario::systems::animation::Advanced;
use super_mario::systems::AnimationSystem;

fn moving_animation(speed: i64) -> Animation {
    let mut animation = Animation::default();
    animation.current_state = AnimationStates::Moving;
    animation.speed = speed;
    animation.animations.insert(AnimationStates::Moving, AnimationParams::new(0, 1, 3));
    animation
}

fn sprite() -> Sprite {
    Sprite {
        src: Rect::new(0, 0, 167, 330),
        width: 32_000,
        height: 16_000,
        repeat: TileCount { x: 1, y: 1 },
    }
}

#[test]
fn frame_ticks_are_a_thousandth_of_a_frame_per_tick() {
    assert_eq!(TARGET_FPS, 60);
    assert_eq!(FRAME_TICKS, 1000 * 60);
}

#[test]
fn animation_params_new_sets_the_clock_to_a_whole_frame() {
    assert_eq!(
        AnimationParams::new(3, 3, 2),
        AnimationParams { frame: 180_000, start_frame: 3, frame_count: 2 }
    );
    assert_eq!(
        AnimationParams::new(0, 1, 3),
        AnimationParams { frame: 0, start_frame: 1, frame_count: 3 }
    );
}

#[test]
fn advance_adds_the_speed_to_the_clock() {
    let p = AnimationParams::new(0, 1, 3);
    let r = AnimationSystem::advance(p, 8_000);
    assert_eq!(
        r,
        Advanced {
            params: AnimationParams { frame: 8_000, start_frame: 1, frame_count: 3 },
            frame_index: 1,
        }
    );
}

#[test]
fn animation_looping_follows_the_clock() {
    // start_frame 1, frame_count 3, speed 8, 60 ticks per second: after N
    // ticks the frame shown is 1 + floor(8 N / 60) mod 3.
    let mut p = AnimationParams::new(0, 1, 3);
    for n in 1..=59i64 {
        let r = AnimationSystem::advance(p, 8_000);
        assert_eq!(r.frame_index, 1 + (8 * n / 60) % 3, "tick {}", n);
        p = r.params;
    }
}

#[test]
fn animation_wraps_to_the_start_frame() {
    // Tick 30 brings the clock to frame 4, the end of the last frame.
    let mut p = AnimationParams::new(0, 1, 3);
    for _ in 0..29 {
        p = AnimationSystem::advance(p, 8_000).params;
    }
    assert_eq!(p.frame, 232_000);
    let r = AnimationSystem::advance(p, 8_000);
    assert_eq!(r.frame_index, 2);
    assert_eq!(r.params.frame, FRAME_TICKS);
    // From there a cycle takes three frames.
    let mut p = r.params;
    for _ in 0..22 {
        p = AnimationSystem::advance(p, 8_000).params;
        assert!(p.frame < 4 * FRAME_TICKS);
    }
    assert_eq!(p.frame, 236_000);
    let r = AnimationSystem::advance(p, 8_000);
    assert_eq!(r.frame_index, 2);
    assert_eq!(r.params.frame, FRAME_TICKS);
}

#[test]
fn animation_of_one_frame_stays_on_it() {
    let mut p = AnimationParams::new(5, 5, 1);
    for _ in 0..200 {
        let r = AnimationSystem::advance(p, 8_000);
        assert_eq!(r.frame_index, 5);
        p = r.params;
    }
}

#[test]
fn animation_at_rest_keeps_its_clock() {
    let p = AnimationParams::new(2, 1, 3);
    let r = AnimationSystem::advance(p, 0);
    assert_eq!(r.params, p);
    assert_eq!(r.frame_index, 3);
}

#[test]
fn animate_moves_the_source_rectangle() {
    let (a, s) = AnimationSystem::animate(moving_animation(8_000), sprite());
    // Frame 1 of a cell 0.167 wide.
    assert_eq!(s.src, Rect { x: 167, y: 0, w: 167, h: 330 });
    assert_eq!(s.width, 32_000);
    assert_eq!(
        a.animations.get(AnimationStates::Moving),
        Some(AnimationParams { frame: 8_000, start_frame: 1, frame_count: 3 })
    );
    assert_eq!(a.current_state, AnimationStates::Moving);
    assert_eq!(a.speed, 8_000);
}

#[test]
fn animate_reaches_later_frames() {
    let mut a = moving_animation(8_000);
    let mut s = sprite();
    let mut seen = Vec::new();
    for _ in 0..30 {
        let r = AnimationSystem::animate(a, s);
        a = r.0;
        s = r.1;
        if seen.last() != Some(&s.src.x) {
            seen.push(s.src.x);
        }
    }
    assert_eq!(seen, vec![167, 334, 501, 167, 334]);
}

#[test]
fn animate_without_the_current_state_does_nothing() {
    let mut a = moving_animation(8_000);
    a.current_state = AnimationStates::Drag;
    let s = sprite();
    assert_eq!(AnimationSystem::animate(a, s), (a, s));
}

#[test]
fn animate_without_frames_does_nothing() {
    let mut a = Animation::default();
    a.speed = 8_000;
    a.animations.insert(AnimationStates::Idle, AnimationParams::new(0, 2, 0));
    let s = sprite();
    assert_eq!(AnimationSystem::animate(a, s), (a, s));
}

#[test]
fn animation_table_insert_and_get() {
    let mut table = AnimationTable::new();
    assert_eq!(table.get(AnimationStates::Idle), None);
    assert_eq!(table.insert(AnimationStates::Idle, AnimationParams::new(0, 0, 1)), None);
    assert_eq!(
        table.insert(AnimationStates::Idle, AnimationParams::new(1, 1, 1)),
        Some(AnimationParams::new(0, 0, 1))
    );
    assert_eq!(table.get(AnimationStates::Idle), Some(AnimationParams::new(1, 1, 1)));
    assert_eq!(table.get(AnimationStates::Moving), None);
    assert_eq!(table.get(AnimationStates::Jumping), None);
    assert_eq!(table.get(AnimationStates::Drag), None);
}

#[test]
fn animation_defaults() {
    let a = Animation::default();
    assert_eq!(a.current_state, AnimationStates::Idle);
    assert_eq!(a.animations, AnimationTable::new());
    assert_eq!(a.speed, 0);
    assert_eq!(a.speed_factor, 0);
    assert_eq!(AnimationStates::default(), AnimationStates::Idle);
}

#[test]
fn animation_system_skips_entities_without_a_sprite() {
    let mut animations: Storage<Animation> = Storage::new();
    let mut sprites: Storage<Sprite> = Storage::new();
    animations.insert(Entity { id: 0 }, moving_animation(8_000));
    animations.insert(Entity { id: 2 }, moving_animation(30_000));
    sprites.insert(Entity { id: 1 }, sprite());
    sprites.insert(Entity { id: 2 }, sprite());
    let mut system = AnimationSystem;
    system.run(&mut animations, &mut sprites);
    assert_eq!(animations.get(Entity { id: 0 }), Some(moving_animation(8_000)));
    assert_eq!(sprites.get(Entity { id: 1 }), Some(sprite()));
    assert_eq!(animations.get(Entity { id: 1 }), None);
    assert_eq!(sprites.get(Entity { id: 0 }), None);
    let expected = AnimationSystem::animate(moving_animation(30_000), sprite());
    assert_eq!(animations.get(Entity { id: 2 }), Some(expected.0));
    assert_eq!(sprites.get(Entity { id: 2 }), Some(expected.1));
    assert_eq!(expected.1.src.x, 167);
    assert_eq!(
        expected.0.animations.get(AnimationStates::Moving).map(|p| p.frame),
        Some(30_000)
    );
}
