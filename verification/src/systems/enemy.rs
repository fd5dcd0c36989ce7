//! A minimal patrol: enemies push forward until they are fast enough.

use vstd::prelude::*;
use crate::components::{BasicAI, Body, FeetSensor};
use crate::engine::physics::{Command, ForceType, PhysicsWorld, Snapshot};
use crate::engine::storage::{Entity, Storage};
use crate::util::vector::Vector2;

verus! {

/// The push on a patrolling enemy per tick: 10000 units per second over 60
/// ticks, in thousandths.
pub const ENEMY_ACCELERATION: i64 = 166_667;

/// The speed beyond which a patrolling enemy is pushed no more.
pub const ENEMY_TOP_SPEED: i64 = 50_000;

/// Pushes every patrolling enemy forward while it is below its top speed.
/// The patrol walks one way and never turns.
pub struct EnemySystem;

impl EnemySystem {
    /// Whether entity `e` patrols: it is marked for it and has a feet sensor
    /// and a body.
    pub open spec fn patrols(
        basic_ais: Map<int, BasicAI>,
        feet_sensors: Map<int, FeetSensor>,
        bodies: Map<int, Body>,
        e: int,
    ) -> bool {
        basic_ais.contains_key(e) && feet_sensors.contains_key(e) && bodies.contains_key(e)
    }

    /// The commands for one patrolling entity: a forward impulse, if its
    /// body is alive and slower than the top speed.
    pub open spec fn commands_of(physics: Snapshot, body: Body) -> Seq<Command> {
        match physics.body(body.rigid_body_handle) {
            Some(b) if b.state.velocity.x < ENEMY_TOP_SPEED => seq![
                Command::ApplyForce {
                    body: body.rigid_body_handle,
                    force: Vector2 { x: ENEMY_ACCELERATION, y: 0 },
                    force_type: ForceType::Impulse,
                },
            ],
            _ => Seq::empty(),
        }
    }

    /// The commands for the entities below `n`, in entity order.
    pub open spec fn emitted(
        physics: Snapshot,
        basic_ais: Map<int, BasicAI>,
        feet_sensors: Map<int, FeetSensor>,
        bodies: Map<int, Body>,
        n: int,
    ) -> Seq<Command>
        decreases n,
    {
        if n <= 0 {
            Seq::empty()
        } else {
            let before = Self::emitted(physics, basic_ais, feet_sensors, bodies, n - 1);
            if Self::patrols(basic_ais, feet_sensors, bodies, n - 1) {
                before + Self::commands_of(physics, bodies[n - 1])
            } else {
                before
            }
        }
    }

    /// Adds a forward impulse to the commands for the solver for every
    /// patrolling entity whose body is slower than the top speed, entity by
    /// entity. Nothing else changes.
    pub fn run(
        &mut self,
        basic_ais: &Storage<BasicAI>,
        feet_sensors: &Storage<FeetSensor>,
        bodies: &Storage<Body>,
        physics: &mut PhysicsWorld,
    )
        ensures
            final(physics).commands@ == old(physics).commands@ + Self::emitted(
                old(physics).snapshot(),
                basic_ais@,
                feet_sensors@,
                bodies@,
                bodies.spec_len() as int,
            ),
            final(physics).bodies@ == old(physics).bodies@,
            final(physics).colliders@ == old(physics).colliders@,
            final(physics).contacts@ == old(physics).contacts@,
            final(physics).gravity == old(physics).gravity,
    {
        let n = bodies.len();
        let mut i: usize = 0;
        while i < n
            invariant
                i <= n,
                n == bodies.spec_len(),
                physics.commands@ == old(physics).commands@ + Self::emitted(
                    old(physics).snapshot(),
                    basic_ais@,
                    feet_sensors@,
                    bodies@,
                    i as int,
                ),
                physics.bodies@ == old(physics).bodies@,
                physics.colliders@ == old(physics).colliders@,
                physics.contacts@ == old(physics).contacts@,
                physics.gravity == old(physics).gravity,
            decreases n - i,
        {
            let entity = Entity { id: i };
            let ghost commands_before = physics.commands@;
            if let (Some(_), Some(_), Some(body)) = (
                feet_sensors.get(entity),
                basic_ais.get(entity),
                bodies.get(entity),
            ) {
                if let Some(rigid_body) = physics.rigid_body(body.rigid_body_handle) {
                    if rigid_body.state.velocity.x < ENEMY_TOP_SPEED {
                        physics.apply_force(
                            body.rigid_body_handle,
                            Vector2 { x: ENEMY_ACCELERATION, y: 0 },
                            ForceType::Impulse,
                        );
                    }
                }
                assert(physics.commands@ =~= commands_before + Self::commands_of(
                    old(physics).snapshot(),
                    body,
                ));
            }
            assert(physics.commands@ =~= old(physics).commands@ + Self::emitted(
                old(physics).snapshot(),
                basic_ais@,
                feet_sensors@,
                bodies@,
                i + 1,
            ));
            i += 1;
        }
    }
}

} // verus!
