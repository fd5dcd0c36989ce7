//! The entities of the game: what each is made of, and how it is added to a
//! world and its physics world.

use vstd::prelude::*;
use crate::components::{
    Animation, AnimationParams, AnimationStates, AnimationTable, BasicAI, Body, CameraTarget,
    FeetSensor, Jumper, Player, Rect, Sprite, TileCount, Transform,
};
use crate::engine::physics::{
    BasicMaterial, BodyHandle, BodyState, BodyStatus, Collider, ColliderDesc, ColliderHandle,
    ColliderTag, PhysicsWorld, RigidBody, RigidBodyDesc, Shape,
};
use crate::engine::storage::Entity;
use crate::engine::world::World;
use crate::util::fixed::MAX_COORD;
use crate::util::vector::Vector2;

verus! {

/// The side of one brick tile, in thousandths.
pub const BRICK_SIZE: i64 = 16_000;

/// The player character.
pub struct Mario;

impl Mario {
    /// The body: one unit of mass, upright, no faster than 1000 units per
    /// second.
    pub open spec fn rigid_body(position: Vector2) -> RigidBodyDesc {
        RigidBodyDesc {
            position,
            rotation: 0,
            mass: 1_000,
            max_linear_velocity: Some(1_000_000i64),
            kinematic_rotations: true,
            status: BodyStatus::Dynamic,
        }
    }

    /// The primary collider: a ball of radius 8 without friction.
    pub open spec fn collider() -> ColliderDesc {
        ColliderDesc {
            shape: Shape::Ball { radius: 8_000 },
            translation: Vector2 { x: 0, y: 0 },
            density: 0,
            material: Some(BasicMaterial { restitution: 0, friction: 0 }),
            user_data: None,
            sensor: false,
        }
    }

    /// The feet sensor: a flat box of 14 by 2 units, 10 units below the
    /// body's centre.
    pub open spec fn feet() -> ColliderDesc {
        ColliderDesc {
            shape: Shape::Cuboid { half_extents: Vector2 { x: 7_000, y: 1_000 } },
            translation: Vector2 { x: 0, y: -10_000i64 },
            density: 0,
            material: None,
            user_data: Some(ColliderTag::Feet),
            sensor: false,
        }
    }

    /// The sprite: the first cell of the atlas, 32 by 16 units, one tile.
    pub open spec fn sprite() -> Sprite {
        Sprite {
            src: Rect { x: 0, y: 0, w: 167, h: 330 },
            width: 32_000,
            height: 16_000,
            repeat: TileCount { x: 1, y: 1 },
        }
    }

    /// The animation: idle on frame 0, moving over frames 1 to 3, jumping on
    /// frame 5, skidding on frame 4, at 8 frames per second.
    pub open spec fn animation() -> Animation {
        Animation {
            current_state: AnimationStates::Idle,
            animations: AnimationTable {
                idle: Some(AnimationParams { frame: 0, start_frame: 0, frame_count: 1 }),
                moving: Some(AnimationParams { frame: 0, start_frame: 1, frame_count: 3 }),
                jumping: Some(AnimationParams { frame: 0, start_frame: 5, frame_count: 1 }),
                drag: Some(AnimationParams { frame: 0, start_frame: 4, frame_count: 1 }),
            },
            speed: 8_000,
            speed_factor: 100,
        }
    }

    /// Adds the player at `position`: a body with its collider and a feet
    /// sensor in the physics world, and a new entity that is the player and
    /// the camera's target, with a sprite, a transform, the body, the
    /// animation, the feet sensor off the floor and an idle jump latch.
    pub fn add(world: &mut World, position: Vector2, physics_world: &mut PhysicsWorld) -> (entity:
        Entity)
        requires
            old(world).wf(),
            old(world).entities < usize::MAX,
            old(physics_world).wf(),
            position.within(MAX_COORD as int),
        ensures
            entity.id == old(world).entities,
            final(world).entities == old(world).entities + 1,
            final(world).wf(),
            final(physics_world).wf(),
            old(world).linked(old(physics_world).snapshot()) ==> final(world).linked(
                final(physics_world).snapshot(),
            ),
            final(physics_world).bodies@ == old(physics_world).bodies@.push(
                RigidBody {
                    desc: Self::rigid_body(position),
                    state: BodyState {
                        position,
                        rotation: 0,
                        velocity: Vector2 { x: 0, y: 0 },
                    },
                },
            ),
            final(physics_world).colliders@ == old(physics_world).colliders@.push(
                Collider {
                    parent: final(world).bodies@[entity.id as int].rigid_body_handle,
                    desc: Self::collider(),
                },
            ).push(
                Collider {
                    parent: final(world).bodies@[entity.id as int].rigid_body_handle,
                    desc: ColliderDesc { sensor: true, ..Self::feet() },
                },
            ),
            final(physics_world).contacts@ == old(physics_world).contacts@,
            final(physics_world).commands@ == old(physics_world).commands@,
            final(physics_world).gravity == old(physics_world).gravity,
            final(world).bodies@ == old(world).bodies@.insert(
                entity.id as int,
                Body {
                    rigid_body_handle: BodyHandle {
                        index: old(physics_world).bodies@.len() as usize,
                    },
                    collider_handle: ColliderHandle {
                        index: old(physics_world).colliders@.len() as usize,
                    },
                },
            ),
            final(world).feet_sensors@ == old(world).feet_sensors@.insert(
                entity.id as int,
                FeetSensor {
                    collider_handle: ColliderHandle {
                        index: (old(physics_world).colliders@.len() + 1) as usize,
                    },
                    on_floor: false,
                },
            ),
            final(world).sprites@ == old(world).sprites@.insert(entity.id as int, Self::sprite()),
            final(world).transforms@ == old(world).transforms@.insert(
                entity.id as int,
                Transform { position, rotation: 0, scale: Vector2 { x: 1000, y: 1000 } },
            ),
            final(world).animations@ == old(world).animations@.insert(
                entity.id as int,
                Self::animation(),
            ),
            final(world).jumpers@ == old(world).jumpers@.insert(
                entity.id as int,
                Jumper { jump_active: false },
            ),
            final(world).players@ == old(world).players@.insert(entity.id as int, Player),
            final(world).camera_targets@ == old(world).camera_targets@.insert(
                entity.id as int,
                CameraTarget,
            ),
            final(world).basic_ais@ == old(world).basic_ais@,
    {
        let mut rigid_body = RigidBodyDesc::new(position);
        rigid_body.mass = 1_000;
        rigid_body.max_linear_velocity = Some(1_000_000);
        rigid_body.kinematic_rotations = true;

        let mut collider_desc = ColliderDesc::new(Shape::Ball { radius: 8_000 });
        collider_desc.material = Some(BasicMaterial { restitution: 0, friction: 0 });

        let body = physics_world.insert_body(rigid_body, collider_desc);

        let mut sensor_desc = ColliderDesc::new(
            Shape::Cuboid { half_extents: Vector2 { x: 7_000, y: 1_000 } },
        );
        sensor_desc.translation = Vector2 { x: 0, y: -10_000 };
        sensor_desc.user_data = Some(ColliderTag::Feet);

        let sensor_handle = physics_world.insert_sensor(&body.rigid_body_handle, sensor_desc);

        let mut animation = Animation::default();
        animation.speed = 8_000;
        animation.speed_factor = 100;
        animation.animations.insert(AnimationStates::Idle, AnimationParams::new(0, 0, 1));
        animation.animations.insert(AnimationStates::Moving, AnimationParams::new(0, 1, 3));
        animation.animations.insert(AnimationStates::Jumping, AnimationParams::new(0, 5, 1));
        animation.animations.insert(AnimationStates::Drag, AnimationParams::new(0, 4, 1));
        assert(animation == Self::animation());

        let entity = world.create_entity();
        world.sprites.insert(
            entity,
            Sprite {
                src: Rect::new(0, 0, 167, 330),
                width: 32_000,
                height: 16_000,
                repeat: TileCount { x: 1, y: 1 },
            },
        );
        world.transforms.insert(entity, Transform::at(position));
        world.players.insert(entity, Player);
        world.camera_targets.insert(entity, CameraTarget);
        world.bodies.insert(entity, body);
        world.animations.insert(entity, animation);
        world.feet_sensors.insert(
            entity,
            FeetSensor { collider_handle: sensor_handle, on_floor: false },
        );
        world.jumpers.insert(entity, Jumper::default());
        entity
    }
}

/// A run of brick tiles that does not move.
pub struct Brick;

impl Brick {
    /// The body: static, at `position`.
    pub open spec fn rigid_body(position: Vector2) -> RigidBodyDesc {
        RigidBodyDesc {
            position,
            rotation: 0,
            mass: 2_000_000,
            max_linear_velocity: None,
            kinematic_rotations: false,
            status: BodyStatus::Static,
        }
    }

    /// Half the extent of a run of `count` tiles.
    pub open spec fn half_extent(count: u32) -> int {
        count * BRICK_SIZE / 2
    }

    /// The collider: one box over all the tiles, tagged as ground. The
    /// entity's position is the middle of its first tile, so the box is moved
    /// by half its size less half a tile, to the right and down.
    pub open spec fn collider(block_count: TileCount) -> ColliderDesc {
        ColliderDesc {
            shape: Shape::Cuboid {
                half_extents: Vector2 {
                    x: Self::half_extent(block_count.x) as i64,
                    y: Self::half_extent(block_count.y) as i64,
                },
            },
            translation: Vector2 {
                x: (Self::half_extent(block_count.x) - BRICK_SIZE / 2) as i64,
                y: (BRICK_SIZE / 2 - Self::half_extent(block_count.y)) as i64,
            },
            density: 100_000,
            material: Some(BasicMaterial { restitution: 0, friction: 200 }),
            user_data: Some(ColliderTag::Brick),
            sensor: false,
        }
    }

    /// The sprite: the brick cell of the atlas, one tile of 16 by 16 units,
    /// repeated `block_count` times.
    pub open spec fn sprite(block_count: TileCount) -> Sprite {
        Sprite {
            src: Rect { x: 0, y: 340, w: 100, h: 330 },
            width: BRICK_SIZE,
            height: BRICK_SIZE,
            repeat: block_count,
        }
    }

    /// Adds a run of `block_count` brick tiles whose first tile is centred at
    /// `position`: a static body with one collider over all the tiles, and a
    /// new entity with the tiled sprite, a transform and the body.
    pub fn add(
        world: &mut World,
        position: Vector2,
        block_count: TileCount,
        physics_world: &mut PhysicsWorld,
    ) -> (entity: Entity)
        requires
            old(world).wf(),
            old(world).entities < usize::MAX,
            old(physics_world).wf(),
            position.within(MAX_COORD as int),
        ensures
            entity.id == old(world).entities,
            final(world).entities == old(world).entities + 1,
            final(world).wf(),
            final(physics_world).wf(),
            old(world).linked(old(physics_world).snapshot()) ==> final(world).linked(
                final(physics_world).snapshot(),
            ),
            final(physics_world).bodies@ == old(physics_world).bodies@.push(
                RigidBody {
                    desc: Self::rigid_body(position),
                    state: BodyState { position, rotation: 0, velocity: Vector2 { x: 0, y: 0 } },
                },
            ),
            final(physics_world).colliders@ == old(physics_world).colliders@.push(
                Collider {
                    parent: final(world).bodies@[entity.id as int].rigid_body_handle,
                    desc: Self::collider(block_count),
                },
            ),
            final(physics_world).contacts@ == old(physics_world).contacts@,
            final(physics_world).commands@ == old(physics_world).commands@,
            final(physics_world).gravity == old(physics_world).gravity,
            final(world).bodies@ == old(world).bodies@.insert(
                entity.id as int,
                Body {
                    rigid_body_handle: BodyHandle {
                        index: old(physics_world).bodies@.len() as usize,
                    },
                    collider_handle: ColliderHandle {
                        index: old(physics_world).colliders@.len() as usize,
                    },
                },
            ),
            final(world).sprites@ == old(world).sprites@.insert(
                entity.id as int,
                Self::sprite(block_count),
            ),
            final(world).transforms@ == old(world).transforms@.insert(
                entity.id as int,
                Transform { position, rotation: 0, scale: Vector2 { x: 1000, y: 1000 } },
            ),
            final(world).feet_sensors@ == old(world).feet_sensors@,
            final(world).animations@ == old(world).animations@,
            final(world).jumpers@ == old(world).jumpers@,
            final(world).players@ == old(world).players@,
            final(world).camera_targets@ == old(world).camera_targets@,
            final(world).basic_ais@ == old(world).basic_ais@,
    {
        let (width, height) = (BRICK_SIZE, BRICK_SIZE);

        let mut rigid_body = RigidBodyDesc::new(position);
        rigid_body.status = BodyStatus::Static;
        rigid_body.mass = 2_000_000;

        let half_x: i64 = (block_count.x as i64) * width / 2;
        let half_y: i64 = (block_count.y as i64) * height / 2;
        let mut collider_desc = ColliderDesc::new(
            Shape::Cuboid { half_extents: Vector2 { x: half_x, y: half_y } },
        );
        collider_desc.density = 100_000;
        collider_desc.translation = Vector2 { x: half_x - width / 2, y: height / 2 - half_y };
        collider_desc.material = Some(BasicMaterial { restitution: 0, friction: 200 });
        collider_desc.user_data = Some(ColliderTag::Brick);

        let body = physics_world.insert_body(rigid_body, collider_desc);

        let entity = world.create_entity();
        world.sprites.insert(
            entity,
            Sprite { src: Rect::new(0, 340, 100, 330), width, height, repeat: block_count },
        );
        world.transforms.insert(entity, Transform::at(position));
        world.bodies.insert(entity, body);
        entity
    }
}

/// A simple enemy that patrols.
pub struct KoopaTroopa;

impl KoopaTroopa {
    /// The body: a hundred units of mass, upright, no faster than 1000 units
    /// per second.
    pub open spec fn rigid_body(position: Vector2) -> RigidBodyDesc {
        RigidBodyDesc {
            position,
            rotation: 0,
            mass: 100_000,
            max_linear_velocity: Some(1_000_000i64),
            kinematic_rotations: true,
            status: BodyStatus::Dynamic,
        }
    }

    /// The primary collider: a ball of radius 6 without friction, 10 units
    /// below the body's centre.
    pub open spec fn collider() -> ColliderDesc {
        ColliderDesc {
            shape: Shape::Ball { radius: 6_000 },
            translation: Vector2 { x: 0, y: -10_000i64 },
            density: 0,
            material: Some(BasicMaterial { restitution: 0, friction: 0 }),
            user_data: None,
            sensor: false,
        }
    }

    /// The feet sensor: a flat box of 6 by 2 units, 16 units below the
    /// body's centre.
    pub open spec fn feet() -> ColliderDesc {
        ColliderDesc {
            shape: Shape::Cuboid { half_extents: Vector2 { x: 3_000, y: 1_000 } },
            translation: Vector2 { x: 0, y: -16_000i64 },
            density: 0,
            material: None,
            user_data: Some(ColliderTag::Feet),
            sensor: false,
        }
    }

    /// The sprite: the enemy's cell of the atlas, 32 by 32 units, one tile.
    pub open spec fn sprite() -> Sprite {
        Sprite {
            src: Rect { x: 670, y: 340, w: 167, h: 670 },
            width: 32_000,
            height: 32_000,
            repeat: TileCount { x: 1, y: 1 },
        }
    }

    /// The animation: idle on frame 3, moving over frames 3 and 4, at 10
    /// frames per second, both clocks at frame 3.
    pub open spec fn animation() -> Animation {
        Animation {
            current_state: AnimationStates::Idle,
            animations: AnimationTable {
                idle: Some(AnimationParams { frame: 180_000, start_frame: 3, frame_count: 1 }),
                moving: Some(AnimationParams { frame: 180_000, start_frame: 3, frame_count: 2 }),
                jumping: None,
                drag: None,
            },
            speed: 10_000,
            speed_factor: 100,
        }
    }

    /// Adds an enemy at `position`: a body with its collider and a feet
    /// sensor in the physics world, and a new entity that patrols, with a
    /// sprite, a transform, the body, the animation and the feet sensor off
    /// the floor.
    pub fn add(world: &mut World, position: Vector2, physics_world: &mut PhysicsWorld) -> (entity:
        Entity)
        requires
            old(world).wf(),
            old(world).entities < usize::MAX,
            old(physics_world).wf(),
            position.within(MAX_COORD as int),
        ensures
            entity.id == old(world).entities,
            final(world).entities == old(world).entities + 1,
            final(world).wf(),
            final(physics_world).wf(),
            old(world).linked(old(physics_world).snapshot()) ==> final(world).linked(
                final(physics_world).snapshot(),
            ),
            final(physics_world).bodies@ == old(physics_world).bodies@.push(
                RigidBody {
                    desc: Self::rigid_body(position),
                    state: BodyState { position, rotation: 0, velocity: Vector2 { x: 0, y: 0 } },
                },
            ),
            final(physics_world).colliders@ == old(physics_world).colliders@.push(
                Collider {
                    parent: final(world).bodies@[entity.id as int].rigid_body_handle,
                    desc: Self::collider(),
                },
            ).push(
                Collider {
                    parent: final(world).bodies@[entity.id as int].rigid_body_handle,
                    desc: ColliderDesc { sensor: true, ..Self::feet() },
                },
            ),
            final(physics_world).contacts@ == old(physics_world).contacts@,
            final(physics_world).commands@ == old(physics_world).commands@,
            final(physics_world).gravity == old(physics_world).gravity,
            final(world).bodies@ == old(world).bodies@.insert(
                entity.id as int,
                Body {
                    rigid_body_handle: BodyHandle {
                        index: old(physics_world).bodies@.len() as usize,
                    },
                    collider_handle: ColliderHandle {
                        index: old(physics_world).colliders@.len() as usize,
                    },
                },
            ),
            final(world).feet_sensors@ == old(world).feet_sensors@.insert(
                entity.id as int,
                FeetSensor {
                    collider_handle: ColliderHandle {
                        index: (old(physics_world).colliders@.len() + 1) as usize,
                    },
                    on_floor: false,
                },
            ),
            final(world).sprites@ == old(world).sprites@.insert(entity.id as int, Self::sprite()),
            final(world).transforms@ == old(world).transforms@.insert(
                entity.id as int,
                Transform { position, rotation: 0, scale: Vector2 { x: 1000, y: 1000 } },
            ),
            final(world).animations@ == old(world).animations@.insert(
                entity.id as int,
                Self::animation(),
            ),
            final(world).basic_ais@ == old(world).basic_ais@.insert(entity.id as int, BasicAI),
            final(world).jumpers@ == old(world).jumpers@,
            final(world).players@ == old(world).players@,
            final(world).camera_targets@ == old(world).camera_targets@,
    {
        let mut rigid_body = RigidBodyDesc::new(position);
        rigid_body.mass = 100_000;
        rigid_body.max_linear_velocity = Some(1_000_000);
        rigid_body.kinematic_rotations = true;

        let mut collider_desc = ColliderDesc::new(Shape::Ball { radius: 6_000 });
        collider_desc.material = Some(BasicMaterial { restitution: 0, friction: 0 });
        collider_desc.translation = Vector2 { x: 0, y: -10_000 };

        let body = physics_world.insert_body(rigid_body, collider_desc);

        let mut sensor_desc = ColliderDesc::new(
            Shape::Cuboid { half_extents: Vector2 { x: 3_000, y: 1_000 } },
        );
        sensor_desc.translation = Vector2 { x: 0, y: -16_000 };
        sensor_desc.user_data = Some(ColliderTag::Feet);

        let sensor_handle = physics_world.insert_sensor(&body.rigid_body_handle, sensor_desc);

        let mut animation = Animation::default();
        animation.speed = 10_000;
        animation.speed_factor = 100;
        animation.animations.insert(AnimationStates::Idle, AnimationParams::new(3, 3, 1));
        animation.animations.insert(AnimationStates::Moving, AnimationParams::new(3, 3, 2));
        assert(animation == Self::animation());

        let entity = world.create_entity();
        world.sprites.insert(
            entity,
            Sprite {
                src: Rect::new(670, 340, 167, 670),
                width: 32_000,
                height: 32_000,
                repeat: TileCount { x: 1, y: 1 },
            },
        );
        world.transforms.insert(entity, Transform::at(position));
        world.bodies.insert(entity, body);
        world.animations.insert(entity, animation);
        world.feet_sensors.insert(
            entity,
            FeetSensor { collider_handle: sensor_handle, on_floor: false },
        );
        world.basic_ais.insert(entity, BasicAI);
        entity
    }
}

} // verus!
