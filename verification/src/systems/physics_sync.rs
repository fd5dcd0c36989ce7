//! After the solver's step: poses into transforms, contacts into the
//! grounded flag, velocity into the animation state.

use vstd::prelude::*;
use crate::components::{
    animations_wf, transforms_wf, Animation, AnimationStates, Body, FeetSensor, Transform,
    MAX_SPEED, MAX_SPEED_FACTOR,
};
use crate::engine::physics::{BodyState, ColliderHandle, ColliderTag, PhysicsWorld, Snapshot, StepReport};
use crate::engine::storage::{lemma_same_lookups, lookup, Entity, Storage};
use crate::util::fixed::{abs, abs_spec, mul_fixed, mul_fixed_spec, MAX_COORD, SCALE};

verus! {

/// The speed against the facing beyond which a grounded body skids.
pub const DRAG_THRESHOLD: i64 = 10_000;

/// The speed beyond which a grounded body counts as moving.
pub const MOTION_THRESHOLD: i64 = 20_000;

/// What the physics sync does to one entity.
#[derive(Clone, Copy, Debug, PartialEq, Eq, Structural)]
pub struct Synced {
    pub transform: Transform,
    pub feet: Option<FeetSensor>,
    pub animation: Option<Animation>,
}

/// Steps the physics world and derives each entity's pose, grounded flag
/// and animation state from it.
pub struct PhysicsSystem;

impl PhysicsSystem {
    /// Whether a body moving at `speed` skids: it moves against a facing of
    /// sign `scale` faster than the drag threshold.
    pub open spec fn skids(speed: int, scale: int) -> bool {
        (speed < -DRAG_THRESHOLD && scale > 0) || (speed > DRAG_THRESHOLD && scale < 0)
    }

    /// The animation of a grounded body moving at `speed` with a facing of
    /// sign `scale`: skidding, else moving with a playback speed in
    /// proportion to its speed, else idle.
    pub open spec fn grounded_animation(a: Animation, speed: int, scale: int) -> Animation {
        if Self::skids(speed, scale) {
            Animation { current_state: AnimationStates::Drag, ..a }
        } else if abs_spec(speed) > MOTION_THRESHOLD {
            Animation {
                current_state: AnimationStates::Moving,
                speed: mul_fixed_spec(a.speed_factor as int, abs_spec(speed)) as i64,
                ..a
            }
        } else {
            Animation { current_state: AnimationStates::Idle, ..a }
        }
    }

    /// Whether an entity with the feet sensor `feet`, of which the contacts
    /// say `grounded`, has a sensor whose collider is gone: it has a sensor
    /// and the contacts have no answer for it.
    pub open spec fn sensor_gone(feet: Option<FeetSensor>, grounded: Option<bool>) -> bool {
        feet.is_some() && grounded.is_none()
    }

    /// What the sync does to one entity whose body is in `state`.
    ///
    /// `grounded` is what the contacts of its feet sensor say, or `None`
    /// where it has no sensor or the sensor's collider is gone. An entity
    /// whose sensor's collider is gone is frozen: nothing of it changes.
    /// Otherwise the transform takes the body's pose, the sensor takes the
    /// answer of the contacts, and the animation follows the grounded rules on
    /// the ground; in the air, or without a sensor, it stays as it is.
    pub open spec fn sync_spec(
        state: BodyState,
        grounded: Option<bool>,
        transform: Transform,
        feet: Option<FeetSensor>,
        animation: Option<Animation>,
    ) -> Synced {
        if Self::sensor_gone(feet, grounded) {
            Synced { transform, feet, animation }
        } else {
            Synced {
                transform: Transform {
                    position: state.position,
                    rotation: state.rotation,
                    ..transform
                },
                feet: match (feet, grounded) {
                    (Some(f), Some(g)) => Some(FeetSensor { on_floor: g, ..f }),
                    _ => feet,
                },
                animation: match animation {
                    Some(a) if feet.is_some() && grounded == Some(true) => Some(
                        Self::grounded_animation(
                            a,
                            state.velocity.x as int,
                            transform.scale.x as int,
                        ),
                    ),
                    _ => animation,
                },
            }
        }
    }

    /// Computes what the sync does to one entity whose body is in `state`.
    pub fn sync(
        state: BodyState,
        grounded: Option<bool>,
        transform: Transform,
        feet: Option<FeetSensor>,
        animation: Option<Animation>,
    ) -> (r: Synced)
        requires
            state.wf(),
            transform.wf(),
            animation matches Some(a) ==> a.wf(),
        ensures
            r == Self::sync_spec(state, grounded, transform, feet, animation),
            r.transform.wf(),
            r.animation matches Some(a) ==> a.wf(),
    {
        if feet.is_some() && grounded.is_none() {
            return Synced { transform, feet, animation };
        }
        let mut out = Synced {
            transform: Transform {
                position: state.position,
                rotation: state.rotation,
                scale: transform.scale,
            },
            feet,
            animation,
        };
        let on_floor = match (feet, grounded) {
            (Some(f), Some(g)) => {
                out.feet = Some(FeetSensor { collider_handle: f.collider_handle, on_floor: g });
                g
            },
            _ => false,
        };
        if let Some(a) = animation {
            if on_floor {
                let speed = state.velocity.x;
                let facing = transform.scale.x;
                let mut next = a;
                if (speed < -DRAG_THRESHOLD && facing > 0) || (speed > DRAG_THRESHOLD && facing
                    < 0) {
                    next.current_state = AnimationStates::Drag;
                } else if abs(speed) > MOTION_THRESHOLD {
                    proof {
                        lemma_speed_fits(a.speed_factor as int, abs_spec(speed as int));
                    }
                    next.current_state = AnimationStates::Moving;
                    next.speed = mul_fixed(a.speed_factor, abs(speed));
                } else {
                    next.current_state = AnimationStates::Idle;
                }
                out.animation = Some(next);
            }
        }
        out
    }

    /// What the contacts of the last step say of a feet sensor: whether it
    /// touches a collider tagged as ground, or `None` where its collider is
    /// gone.
    pub open spec fn grounded_spec(physics: Snapshot, sensor: ColliderHandle) -> Option<bool> {
        if physics.collider(sensor).is_some() {
            Some(physics.touches(sensor, ColliderTag::Brick))
        } else {
            None
        }
    }

    /// Asks the contacts of the last step whether a feet sensor touches
    /// ground. The scan stops at the first collider tagged as ground.
    pub fn grounded(physics: &PhysicsWorld, sensor: ColliderHandle) -> (r: Option<bool>)
        ensures
            r == Self::grounded_spec(physics.snapshot(), sensor),
    {
        let found = match physics.colliders_interacting_with(sensor) {
            Some(found) => found,
            None => {
                return None;
            },
        };
        let mut k: usize = 0;
        while k < found.len()
            invariant
                k <= found@.len(),
                physics.collider(sensor).is_some(),
                forall|j: int| 0 <= j < k ==> physics.tag(#[trigger] found@[j]) != Some(
                    ColliderTag::Brick,
                ),
                forall|other: ColliderHandle|
                    found@.contains(other) <==> physics.interacting(sensor, other),
            decreases found@.len() - k,
        {
            let other = found[k];
            let tagged = match physics.get_collider(other) {
                Some(c) => match c.desc.user_data {
                    Some(ColliderTag::Brick) => true,
                    _ => false,
                },
                None => false,
            };
            if tagged {
                assert(found@.contains(other));
                assert(physics.interacting(sensor, other));
                return Some(true);
            }
            k += 1;
        }
        assert(!physics.touches(sensor, ColliderTag::Brick)) by {
            if physics.touches(sensor, ColliderTag::Brick) {
                let other = choose|other: ColliderHandle|
                    #[trigger] physics.snapshot().interacting(sensor, other)
                        && physics.snapshot().tag(other) == Some(ColliderTag::Brick);
                assert(physics.interacting(sensor, other));
                assert(found@.contains(other));
                let j = choose|j: int| 0 <= j < found@.len() && found@[j] == other;
                assert(physics.tag(found@[j]) != Some(ColliderTag::Brick));
            }
        }
        Some(false)
    }
}

/// All that the physics sync reads: the physics world after the step and
/// the components of every entity.
pub struct Syncing {
    pub physics: Snapshot,
    pub transforms: Map<int, Transform>,
    pub bodies: Map<int, Body>,
    pub feet_sensors: Map<int, FeetSensor>,
    pub animations: Map<int, Animation>,
}

impl Syncing {
    /// Whether entity `e` is synced: it has a transform and a body whose
    /// handle names a body of the world, and its feet sensor, if it has one,
    /// names a collider of the world. An entity with a stale handle is passed
    /// over.
    pub open spec fn syncs(self, e: int) -> bool {
        &&& self.transforms.contains_key(e)
        &&& self.bodies.contains_key(e)
        &&& self.physics.body(self.bodies[e].rigid_body_handle).is_some()
        &&& self.feet_sensors.contains_key(e) ==> self.physics.collider(
            self.feet_sensors[e].collider_handle,
        ).is_some()
    }

    /// What the contacts say of the feet sensor of entity `e`, or `None`
    /// where it has no sensor or the sensor's collider is gone.
    pub open spec fn grounded(self, e: int) -> Option<bool> {
        match lookup(self.feet_sensors, e) {
            Some(f) => PhysicsSystem::grounded_spec(self.physics, f.collider_handle),
            None => None,
        }
    }

    /// What the sync does to the synced entity `e`.
    pub open spec fn outcome(self, e: int) -> Synced {
        PhysicsSystem::sync_spec(
            self.physics.body(self.bodies[e].rigid_body_handle).unwrap().state,
            self.grounded(e),
            self.transforms[e],
            lookup(self.feet_sensors, e),
            lookup(self.animations, e),
        )
    }

    /// The transforms after the sync: those of the synced entities as
    /// `sync_spec` leaves them, the others as they were.
    pub open spec fn transforms_after(self) -> Map<int, Transform> {
        Map::new(
            |e: int| self.transforms.contains_key(e),
            |e: int|
                if self.syncs(e) {
                    self.outcome(e).transform
                } else {
                    self.transforms[e]
                },
        )
    }

    /// The feet sensors after the sync: those of the synced entities as
    /// `sync_spec` leaves them, the others as they were.
    pub open spec fn feet_after(self) -> Map<int, FeetSensor> {
        Map::new(
            |e: int| self.feet_sensors.contains_key(e),
            |e: int|
                if self.syncs(e) {
                    self.outcome(e).feet.unwrap()
                } else {
                    self.feet_sensors[e]
                },
        )
    }

    /// The animations after the sync: those of the synced entities as
    /// `sync_spec` leaves them, the others as they were.
    pub open spec fn animations_after(self) -> Map<int, Animation> {
        Map::new(
            |e: int| self.animations.contains_key(e),
            |e: int|
                if self.syncs(e) {
                    self.outcome(e).animation.unwrap()
                } else {
                    self.animations[e]
                },
        )
    }

    /// After the sync the position of every synced entity is the position of
    /// its body, and its feet sensor, if it has one, says whether its
    /// collider touches ground. An entity that is not synced is as it was.
    pub proof fn lemma_round_trip(self, e: int)
        requires
            self.syncs(e),
        ensures
            self.transforms_after()[e].position == self.physics.body(
                self.bodies[e].rigid_body_handle,
            ).unwrap().state.position,
            self.transforms_after()[e].rotation == self.physics.body(
                self.bodies[e].rigid_body_handle,
            ).unwrap().state.rotation,
            self.transforms_after()[e].scale == self.transforms[e].scale,
            self.feet_sensors.contains_key(e) ==> self.feet_after()[e].on_floor
                == self.physics.touches(self.feet_sensors[e].collider_handle, ColliderTag::Brick),
    {
    }

    /// An entity that is not synced is frozen: its transform, its feet
    /// sensor and its animation are after the sync what they were before.
    pub proof fn lemma_frozen(self, e: int)
        requires
            !self.syncs(e),
        ensures
            lookup(self.transforms_after(), e) == lookup(self.transforms, e),
            lookup(self.feet_after(), e) == lookup(self.feet_sensors, e),
            lookup(self.animations_after(), e) == lookup(self.animations, e),
    {
    }
}

impl PhysicsSystem {
    /// Takes in the solver's report of the step, then syncs every entity that
    /// has a transform and a live body: the transform takes the body's pose,
    /// the feet sensor takes what its contacts say, and the animation follows
    /// the grounded rules. An entity whose body is gone, or whose feet sensor
    /// names a collider that is gone, is left as it is, and so is every other
    /// component.
    ///
    /// So the position of every synced entity is the position that the world
    /// holds for its body after the step.
    pub fn run(
        &mut self,
        transforms: &mut Storage<Transform>,
        bodies: &Storage<Body>,
        physics: &mut PhysicsWorld,
        animations: &mut Storage<Animation>,
        feet_sensors: &mut Storage<FeetSensor>,
        report: StepReport,
    )
        requires
            old(physics).wf(),
            report.wf(),
            transforms_wf(old(transforms)@),
            animations_wf(old(animations)@),
        ensures
            final(physics).wf(),
            final(physics).snapshot() == old(physics).snapshot().stepped(
                report.bodies@,
                report.contacts@,
            ),
            final(physics).commands@ == old(physics).commands@,
            final(physics).gravity == old(physics).gravity,
            ({
                let stepped = Syncing {
                    physics: final(physics).snapshot(),
                    transforms: old(transforms)@,
                    bodies: bodies@,
                    feet_sensors: old(feet_sensors)@,
                    animations: old(animations)@,
                };
                &&& final(transforms)@ == stepped.transforms_after()
                &&& final(feet_sensors)@ == stepped.feet_after()
                &&& final(animations)@ == stepped.animations_after()
                &&& forall|e: int| #[trigger]
                    stepped.syncs(e) ==> final(transforms)@[e].position == final(physics).body(
                        bodies@[e].rigid_body_handle,
                    ).unwrap().state.position
            }),
            final(transforms).spec_len() == old(transforms).spec_len(),
            final(feet_sensors).spec_len() == old(feet_sensors).spec_len(),
            final(animations).spec_len() == old(animations).spec_len(),
            transforms_wf(final(transforms)@),
            animations_wf(final(animations)@),
    {
        physics.step(report);
        let ghost stepped = Syncing {
            physics: physics.snapshot(),
            transforms: transforms@,
            bodies: bodies@,
            feet_sensors: feet_sensors@,
            animations: animations@,
        };
        let n = transforms.len();
        let mut i: usize = 0;
        while i < n
            invariant
                i <= n,
                n == old(transforms).spec_len(),
                transforms.spec_len() == n,
                feet_sensors.spec_len() == old(feet_sensors).spec_len(),
                animations.spec_len() == old(animations).spec_len(),
                physics.wf(),
                stepped.physics == physics.snapshot(),
                stepped.bodies == bodies@,
                transforms_wf(stepped.transforms),
                animations_wf(stepped.animations),
                transforms_wf(transforms@),
                animations_wf(animations@),
                forall|e: int|
                    #![trigger lookup(transforms@, e)]
                    #![trigger lookup(stepped.transforms, e)]
                    lookup(transforms@, e) == if e < i && stepped.syncs(e) {
                        Some(stepped.outcome(e).transform)
                    } else {
                        lookup(stepped.transforms, e)
                    },
                forall|e: int|
                    #![trigger lookup(feet_sensors@, e)]
                    #![trigger lookup(stepped.feet_sensors, e)]
                    lookup(feet_sensors@, e) == if e < i && stepped.syncs(e) {
                        stepped.outcome(e).feet
                    } else {
                        lookup(stepped.feet_sensors, e)
                    },
                forall|e: int|
                    #![trigger lookup(animations@, e)]
                    #![trigger lookup(stepped.animations, e)]
                    lookup(animations@, e) == if e < i && stepped.syncs(e) {
                        stepped.outcome(e).animation
                    } else {
                        lookup(stepped.animations, e)
                    },
            decreases n - i,
        {
            let entity = Entity { id: i };
            assert(lookup(transforms@, i as int) == lookup(stepped.transforms, i as int));
            assert(lookup(feet_sensors@, i as int) == lookup(stepped.feet_sensors, i as int));
            assert(lookup(animations@, i as int) == lookup(stepped.animations, i as int));
            if let (Some(transform), Some(body)) = (transforms.get(entity), bodies.get(entity)) {
                if let Some(rigid_body) = physics.rigid_body(body.rigid_body_handle) {
                    let feet = feet_sensors.get(entity);
                    let grounded = match feet {
                        Some(f) => Self::grounded(physics, f.collider_handle),
                        None => None,
                    };
                    let animation = animations.get(entity);
                    let synced = Self::sync(rigid_body.state, grounded, transform, feet, animation);
                    transforms.insert(entity, synced.transform);
                    if let Some(f) = synced.feet {
                        proof {
                            feet_sensors.lemma_below_len(i as int);
                        }
                        feet_sensors.insert(entity, f);
                    }
                    if let Some(a) = synced.animation {
                        proof {
                            animations.lemma_below_len(i as int);
                        }
                        animations.insert(entity, a);
                    }
                }
            }
            i += 1;
        }
        proof {
            assert forall|e: int| stepped.syncs(e) implies e < n by {
                old(transforms).lemma_below_len(e);
            }
            lemma_same_lookups(transforms@, stepped.transforms_after());
            lemma_same_lookups(feet_sensors@, stepped.feet_after());
            lemma_same_lookups(animations@, stepped.animations_after());
            assert forall|e: int| #[trigger] stepped.syncs(e) implies transforms@[e].position
                == physics.body(bodies@[e].rigid_body_handle).unwrap().state.position by {
                stepped.lemma_round_trip(e);
            }
        }
    }
}

/// A playback speed in proportion to a body's speed is within the speed
/// range.
proof fn lemma_speed_fits(factor: int, speed: int)
    requires
        0 <= factor <= MAX_SPEED_FACTOR,
        0 <= speed <= MAX_COORD,
    ensures
        0 <= mul_fixed_spec(factor, speed) <= MAX_SPEED,
{
    assert(0 <= factor * speed <= MAX_SPEED_FACTOR * MAX_COORD) by (nonlinear_arith)
        requires
            0 <= factor <= MAX_SPEED_FACTOR,
            0 <= speed <= MAX_COORD,
    ;
    crate::util::fixed::lemma_div_trunc_bounds(factor * speed, SCALE as int);
    assert(mul_fixed_spec(factor, speed) * 1000 <= 1_000_000_000_000_000_000);
}

} // verus!
