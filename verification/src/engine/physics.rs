//! The physics world: bodies and colliders behind handles, the forces asked
//! of the solver, and what the solver reported after its last step.
//!
//! The rigid-body solver itself is not part of this crate. Each tick its
//! owner drains the commands with `take_commands`, lets the solver integrate
//! one step, and hands the outcome to `step`.

use vstd::prelude::*;
use crate::components::Body;
use crate::util::fixed::MAX_COORD;
use crate::util::vector::Vector2;

verus! {

/// Vertical acceleration of a new world, in thousandths of a unit per second
/// squared: 300 units, downward.
pub const GRAVITY: i64 = -300_000;

/// Names a rigid body of one physics world.
#[derive(Clone, Copy, Debug, PartialEq, Eq, Structural)]
pub struct BodyHandle {
    pub index: usize,
}

/// Names a collider of one physics world.
#[derive(Clone, Copy, Debug, PartialEq, Eq, Structural)]
pub struct ColliderHandle {
    pub index: usize,
}

/// Whether the solver moves a body.
#[derive(Clone, Copy, Debug, PartialEq, Eq, Structural)]
pub enum BodyStatus {
    Dynamic,
    Static,
}

/// What a collider is, for contact filtering.
#[derive(Clone, Copy, Debug, PartialEq, Eq, Structural)]
pub enum ColliderTag {
    Feet,
    Brick,
}

/// How the solver is to take a force.
#[derive(Clone, Copy, Debug, PartialEq, Eq, Structural)]
pub enum ForceType {
    /// A continuous force, integrated over the step.
    Force,
    /// An instantaneous change of momentum.
    Impulse,
}

/// The outline of a collider.
#[derive(Clone, Copy, Debug, PartialEq, Eq, Structural)]
pub enum Shape {
    Ball { radius: i64 },
    Cuboid { half_extents: Vector2 },
}

/// Surface properties of a collider.
#[derive(Clone, Copy, Debug, PartialEq, Eq, Structural)]
pub struct BasicMaterial {
    pub restitution: i64,
    pub friction: i64,
}

/// Everything the solver needs to create a rigid body.
#[derive(Clone, Copy, Debug, PartialEq, Eq, Structural)]
pub struct RigidBodyDesc {
    pub position: Vector2,
    pub rotation: i64,
    pub mass: i64,
    pub max_linear_velocity: Option<i64>,
    pub kinematic_rotations: bool,
    pub status: BodyStatus,
}

/// Everything the solver needs to create a collider.
#[derive(Clone, Copy, Debug, PartialEq, Eq, Structural)]
pub struct ColliderDesc {
    pub shape: Shape,
    pub translation: Vector2,
    pub density: i64,
    /// The surface, or `None` for the solver's default.
    pub material: Option<BasicMaterial>,
    pub user_data: Option<ColliderTag>,
    pub sensor: bool,
}

impl ColliderDesc {
    /// A solid collider of the given shape at the body's origin, without
    /// density, tag or a surface of its own.
    pub fn new(shape: Shape) -> (desc: ColliderDesc)
        ensures
            desc == (ColliderDesc {
                shape,
                translation: Vector2 { x: 0, y: 0 },
                density: 0,
                material: None,
                user_data: None,
                sensor: false,
            }),
    {
        ColliderDesc {
            shape,
            translation: Vector2 { x: 0, y: 0 },
            density: 0,
            material: None,
            user_data: None,
            sensor: false,
        }
    }
}

impl RigidBodyDesc {
    /// A dynamic body at `position`, unrotated, without mass, free to turn
    /// and without a speed limit.
    pub fn new(position: Vector2) -> (desc: RigidBodyDesc)
        ensures
            desc == (RigidBodyDesc {
                position,
                rotation: 0,
                mass: 0,
                max_linear_velocity: None,
                kinematic_rotations: false,
                status: BodyStatus::Dynamic,
            }),
    {
        RigidBodyDesc {
            position,
            rotation: 0,
            mass: 0,
            max_linear_velocity: None,
            kinematic_rotations: false,
            status: BodyStatus::Dynamic,
        }
    }
}

/// Where a body is and how it moves.
#[derive(Clone, Copy, Debug, PartialEq, Eq, Structural)]
pub struct BodyState {
    pub position: Vector2,
    pub rotation: i64,
    pub velocity: Vector2,
}

/// A rigid body as the world knows it.
#[derive(Clone, Copy, Debug, PartialEq, Eq, Structural)]
pub struct RigidBody {
    pub desc: RigidBodyDesc,
    pub state: BodyState,
}

/// A collider as the world knows it: the body it hangs on and how it was
/// described when it was made.
#[derive(Clone, Copy, Debug, PartialEq, Eq, Structural)]
pub struct Collider {
    pub parent: BodyHandle,
    pub desc: ColliderDesc,
}

/// Two colliders that touch or overlap.
#[derive(Clone, Copy, Debug, PartialEq, Eq, Structural)]
pub struct ContactPair {
    pub first: ColliderHandle,
    pub second: ColliderHandle,
}

/// One request to the solver.
#[derive(Clone, Copy, Debug, PartialEq, Eq, Structural)]
pub enum Command {
    ApplyForce { body: BodyHandle, force: Vector2, force_type: ForceType },
    SetFriction { collider: ColliderHandle, friction: i64 },
}

} // verus!

verus! {

impl BodyState {
    /// Position and velocity are within the coordinate range.
    pub open spec fn wf(self) -> bool {
        self.position.within(MAX_COORD as int) && self.velocity.within(MAX_COORD as int)
    }

    /// Tests that position and velocity are within the coordinate range.
    pub fn is_valid(&self) -> (r: bool)
        ensures
            r == self.wf(),
    {
        self.position.is_within(MAX_COORD) && self.velocity.is_within(MAX_COORD)
    }

    /// A body at rest at `position`.
    pub fn at_rest(position: Vector2, rotation: i64) -> (s: BodyState)
        ensures
            s == (BodyState { position, rotation, velocity: Vector2 { x: 0, y: 0 } }),
    {
        BodyState { position, rotation, velocity: Vector2 { x: 0, y: 0 } }
    }
}

impl ContactPair {
    /// Whether this pair says that `collider` touches `other`.
    pub open spec fn links(self, collider: ColliderHandle, other: ColliderHandle) -> bool {
        (self.first == collider && self.second == other) || (self.second == collider && self.first
            == other)
    }
}

/// What the solver found after one step: the state of each body, in handle
/// order, and the pairs of colliders that touch.
pub struct StepReport {
    pub bodies: Vec<BodyState>,
    pub contacts: Vec<ContactPair>,
}

impl StepReport {
    /// Every reported state is within the coordinate range.
    pub open spec fn wf(&self) -> bool {
        forall|i: int| 0 <= i < self.bodies@.len() ==> (#[trigger] self.bodies@[i]).wf()
    }

    /// Tests that every reported state is within the coordinate range.
    pub fn is_valid(&self) -> (r: bool)
        ensures
            r == self.wf(),
    {
        let mut i: usize = 0;
        while i < self.bodies.len()
            invariant
                i <= self.bodies@.len(),
                forall|k: int| 0 <= k < i ==> (#[trigger] self.bodies@[k]).wf(),
            decreases self.bodies@.len() - i,
        {
            if !self.bodies[i].is_valid() {
                return false;
            }
            i += 1;
        }
        true
    }
}

/// What can be read of a physics world: its bodies and colliders, in handle
/// order, and the contacts of the last step.
pub struct Snapshot {
    pub bodies: Seq<RigidBody>,
    pub colliders: Seq<Collider>,
    pub contacts: Seq<ContactPair>,
}

impl Snapshot {
    /// The body that `handle` names, if it names one.
    pub open spec fn body(self, handle: BodyHandle) -> Option<RigidBody> {
        if handle.index < self.bodies.len() {
            Some(self.bodies[handle.index as int])
        } else {
            None
        }
    }

    /// The collider that `handle` names, if it names one.
    pub open spec fn collider(self, handle: ColliderHandle) -> Option<Collider> {
        if handle.index < self.colliders.len() {
            Some(self.colliders[handle.index as int])
        } else {
            None
        }
    }

    /// The tag of the collider that `handle` names, if it names one that has a
    /// tag.
    pub open spec fn tag(self, handle: ColliderHandle) -> Option<ColliderTag> {
        match self.collider(handle) {
            Some(c) => c.desc.user_data,
            None => None,
        }
    }

    /// Whether one of the first `n` contacts says that `collider` touches
    /// `other`.
    pub open spec fn interacting_among(
        self,
        collider: ColliderHandle,
        other: ColliderHandle,
        n: int,
    ) -> bool {
        exists|i: int| 0 <= i < n && (#[trigger] self.contacts[i]).links(collider, other)
    }

    /// Whether the contacts say that `collider` touches `other`.
    pub open spec fn interacting(self, collider: ColliderHandle, other: ColliderHandle) -> bool {
        self.interacting_among(collider, other, self.contacts.len() as int)
    }

    /// Whether the contacts say that `collider` touches a live collider
    /// tagged `tag`.
    pub open spec fn touches(self, collider: ColliderHandle, tag: ColliderTag) -> bool {
        exists|other: ColliderHandle|
            #[trigger] self.interacting(collider, other) && self.tag(other) == Some(tag)
    }

    /// The snapshot after a step of which the solver reported `states` and
    /// `contacts`: each body that the report covers has its reported state, a
    /// body beyond the report has kept its state, the reported contacts have
    /// replaced the old ones, and the colliders are as they were.
    pub open spec fn stepped(self, states: Seq<BodyState>, contacts: Seq<ContactPair>) -> Snapshot {
        Snapshot {
            bodies: Seq::new(
                self.bodies.len(),
                |i: int|
                    RigidBody {
                        desc: self.bodies[i].desc,
                        state: if i < states.len() {
                            states[i]
                        } else {
                            self.bodies[i].state
                        },
                    },
            ),
            colliders: self.colliders,
            contacts,
        }
    }

    /// One more contact adds what it links and nothing else.
    proof fn lemma_interacting_step(self, collider: ColliderHandle, other: ColliderHandle, n: int)
        requires
            0 <= n,
        ensures
            self.interacting_among(collider, other, n + 1) <==> (self.interacting_among(
                collider,
                other,
                n,
            ) || self.contacts[n].links(collider, other)),
    {
        if self.interacting_among(collider, other, n + 1) {
            let i = choose|i: int|
                0 <= i < n + 1 && (#[trigger] self.contacts[i]).links(collider, other);
            if i < n {
                assert(self.interacting_among(collider, other, n));
            }
        }
        if self.interacting_among(collider, other, n) {
            let i = choose|i: int|
                0 <= i < n && (#[trigger] self.contacts[i]).links(collider, other);
            assert(0 <= i < n + 1 && self.contacts[i].links(collider, other));
        }
        if self.contacts[n].links(collider, other) {
            assert(0 <= n < n + 1 && self.contacts[n].links(collider, other));
        }
    }
}

/// Bodies and colliders by handle, the contacts of the last step, and the
/// commands that wait for the solver.
pub struct PhysicsWorld {
    pub gravity: Vector2,
    pub bodies: Vec<RigidBody>,
    pub colliders: Vec<Collider>,
    pub contacts: Vec<ContactPair>,
    pub commands: Vec<Command>,
}

impl PhysicsWorld {
    /// The state of every body is within the coordinate range.
    pub open spec fn wf(&self) -> bool {
        forall|i: int| 0 <= i < self.bodies@.len() ==> (#[trigger] self.bodies@[i]).state.wf()
    }

    /// Tests that the state of every body is within the coordinate range.
    pub fn is_valid(&self) -> (r: bool)
        ensures
            r == self.wf(),
    {
        let mut i: usize = 0;
        while i < self.bodies.len()
            invariant
                i <= self.bodies@.len(),
                forall|k: int| 0 <= k < i ==> (#[trigger] self.bodies@[k]).state.wf(),
            decreases self.bodies@.len() - i,
        {
            if !self.bodies[i].state.is_valid() {
                return false;
            }
            i += 1;
        }
        true
    }

    /// What can be read of this world.
    pub open spec fn snapshot(&self) -> Snapshot {
        Snapshot { bodies: self.bodies@, colliders: self.colliders@, contacts: self.contacts@ }
    }

    /// The body that `handle` names, if it names one.
    pub open spec fn body(&self, handle: BodyHandle) -> Option<RigidBody> {
        self.snapshot().body(handle)
    }

    /// The collider that `handle` names, if it names one.
    pub open spec fn collider(&self, handle: ColliderHandle) -> Option<Collider> {
        self.snapshot().collider(handle)
    }

    /// The tag of the collider that `handle` names, if it names one that has a
    /// tag.
    pub open spec fn tag(&self, handle: ColliderHandle) -> Option<ColliderTag> {
        self.snapshot().tag(handle)
    }

    /// Whether the last step found `collider` touching `other`.
    pub open spec fn interacting(&self, collider: ColliderHandle, other: ColliderHandle) -> bool {
        self.snapshot().interacting(collider, other)
    }

    /// Whether the last step found `collider` touching a live collider
    /// tagged `tag`.
    pub open spec fn touches(&self, collider: ColliderHandle, tag: ColliderTag) -> bool {
        self.snapshot().touches(collider, tag)
    }

    /// The body that `handle` names, or `None` for a handle that names none.
    pub fn rigid_body(&self, handle: BodyHandle) -> (r: Option<RigidBody>)
        ensures
            r == self.body(handle),
    {
        if handle.index < self.bodies.len() {
            Some(self.bodies[handle.index])
        } else {
            None
        }
    }

    /// The collider that `handle` names, or `None` for a handle that names
    /// none.
    pub fn get_collider(&self, handle: ColliderHandle) -> (r: Option<Collider>)
        ensures
            r == self.collider(handle),
    {
        if handle.index < self.colliders.len() {
            Some(self.colliders[handle.index])
        } else {
            None
        }
    }

    /// Creates a rigid body with its primary collider and returns the two
    /// handles. The body starts at rest at the described pose.
    pub fn insert_body(&mut self, rigid_body: RigidBodyDesc, collider_desc: ColliderDesc) -> (body:
        Body)
        requires
            old(self).wf(),
            rigid_body.position.within(MAX_COORD as int),
        ensures
            final(self).wf(),
            body.rigid_body_handle.index == old(self).bodies@.len(),
            body.collider_handle.index == old(self).colliders@.len(),
            final(self).bodies@ == old(self).bodies@.push(
                RigidBody {
                    desc: rigid_body,
                    state: BodyState {
                        position: rigid_body.position,
                        rotation: rigid_body.rotation,
                        velocity: Vector2 { x: 0, y: 0 },
                    },
                },
            ),
            final(self).colliders@ == old(self).colliders@.push(
                Collider { parent: body.rigid_body_handle, desc: collider_desc },
            ),
            final(self).contacts@ == old(self).contacts@,
            final(self).commands@ == old(self).commands@,
            final(self).gravity == old(self).gravity,
    {
        let parent_handle = BodyHandle { index: self.bodies.len() };
        self.bodies.push(
            RigidBody {
                desc: rigid_body,
                state: BodyState::at_rest(rigid_body.position, rigid_body.rotation),
            },
        );
        let collider_handle = ColliderHandle { index: self.colliders.len() };
        self.colliders.push(Collider { parent: parent_handle, desc: collider_desc });
        Body { rigid_body_handle: parent_handle, collider_handle }
    }

    /// Attaches a non-solid collider to a body and returns its handle.
    pub fn insert_sensor(&mut self, rigid_body_handle: &BodyHandle, collider_desc: ColliderDesc) -> (handle:
        ColliderHandle)
        ensures
            handle.index == old(self).colliders@.len(),
            final(self).colliders@ == old(self).colliders@.push(
                Collider {
                    parent: *rigid_body_handle,
                    desc: ColliderDesc { sensor: true, ..collider_desc },
                },
            ),
            final(self).bodies@ == old(self).bodies@,
            final(self).contacts@ == old(self).contacts@,
            final(self).commands@ == old(self).commands@,
            final(self).gravity == old(self).gravity,
    {
        let handle = ColliderHandle { index: self.colliders.len() };
        let desc = ColliderDesc {
            shape: collider_desc.shape,
            translation: collider_desc.translation,
            density: collider_desc.density,
            material: collider_desc.material,
            user_data: collider_desc.user_data,
            sensor: true,
        };
        self.colliders.push(Collider { parent: *rigid_body_handle, desc });
        handle
    }

    /// Takes in what the solver found after integrating one tick: each body
    /// that the report covers gets its reported state, and the reported
    /// contacts replace the old ones. A body beyond the report keeps its state.
    pub fn step(&mut self, report: StepReport)
        requires
            old(self).wf(),
            report.wf(),
        ensures
            final(self).wf(),
            final(self).snapshot() == old(self).snapshot().stepped(
                report.bodies@,
                report.contacts@,
            ),
            final(self).commands@ == old(self).commands@,
            final(self).gravity == old(self).gravity,
    {
        let mut i: usize = 0;
        while i < self.bodies.len() && i < report.bodies.len()
            invariant
                i <= self.bodies@.len(),
                i <= report.bodies@.len(),
                report.wf(),
                old(self).wf(),
                self.bodies@.len() == old(self).bodies@.len(),
                self.colliders@ == old(self).colliders@,
                self.commands@ == old(self).commands@,
                self.gravity == old(self).gravity,
                forall|k: int|
                    0 <= k < i ==> (#[trigger] self.bodies@[k]) == (RigidBody {
                        desc: old(self).bodies@[k].desc,
                        state: report.bodies@[k],
                    }),
                forall|k: int|
                    i <= k < self.bodies@.len() ==> (#[trigger] self.bodies@[k]) == old(
                        self,
                    ).bodies@[k],
            decreases self.bodies@.len() - i,
        {
            let desc = self.bodies[i].desc;
            self.bodies.set(i, RigidBody { desc, state: report.bodies[i] });
            i += 1;
        }
        self.contacts = report.contacts;
        assert(self.bodies@ =~= old(self).snapshot().stepped(
            report.bodies@,
            report.contacts@,
        ).bodies);
    }

    /// Asks the solver to apply `force` to a body. Returns whether the handle
    /// names a body; a stale handle asks for nothing.
    pub fn apply_force(&mut self, handle: BodyHandle, force: Vector2, force_type: ForceType) -> (applied:
        bool)
        ensures
            applied == old(self).body(handle).is_some(),
            final(self).commands@ == if applied {
                old(self).commands@.push(Command::ApplyForce { body: handle, force, force_type })
            } else {
                old(self).commands@
            },
            final(self).bodies@ == old(self).bodies@,
            final(self).colliders@ == old(self).colliders@,
            final(self).contacts@ == old(self).contacts@,
            final(self).gravity == old(self).gravity,
    {
        if handle.index < self.bodies.len() {
            self.commands.push(Command::ApplyForce { body: handle, force, force_type });
            true
        } else {
            false
        }
    }

    /// Asks the solver to write a friction coefficient onto a collider's
    /// material. Returns whether the handle names a collider; a stale handle
    /// asks for nothing.
    pub fn set_friction(&mut self, handle: ColliderHandle, friction: i64) -> (written: bool)
        ensures
            written == old(self).collider(handle).is_some(),
            final(self).commands@ == if written {
                old(self).commands@.push(Command::SetFriction { collider: handle, friction })
            } else {
                old(self).commands@
            },
            final(self).bodies@ == old(self).bodies@,
            final(self).colliders@ == old(self).colliders@,
            final(self).contacts@ == old(self).contacts@,
            final(self).gravity == old(self).gravity,
    {
        if handle.index < self.colliders.len() {
            self.commands.push(Command::SetFriction { collider: handle, friction });
            true
        } else {
            false
        }
    }

    /// The colliders found touching `handle` at the last step, in no
    /// particular order, or `None` for a handle that names no collider.
    pub fn colliders_interacting_with(&self, handle: ColliderHandle) -> (r: Option<
        Vec<ColliderHandle>,
    >)
        ensures
            r.is_some() == self.collider(handle).is_some(),
            r matches Some(found) ==> forall|other: ColliderHandle|
                found@.contains(other) <==> self.interacting(handle, other),
    {
        if handle.index >= self.colliders.len() {
            return None;
        }
        let mut found: Vec<ColliderHandle> = Vec::new();
        let mut i: usize = 0;
        while i < self.contacts.len()
            invariant
                i <= self.contacts@.len(),
                forall|other: ColliderHandle|
                    found@.contains(other) <==> #[trigger] self.snapshot().interacting_among(
                        handle,
                        other,
                        i as int,
                    ),
            decreases self.contacts@.len() - i,
        {
            let pair = self.contacts[i];
            let ghost before = found@;
            if pair.first == handle {
                found.push(pair.second);
                assert forall|other: ColliderHandle|
                    found@.contains(other) <==> (before.contains(other) || other
                        == pair.second) by {
                    vstd::seq_lib::lemma_seq_contains_after_push(before, pair.second, other);
                }
            } else if pair.second == handle {
                found.push(pair.first);
                assert forall|other: ColliderHandle|
                    found@.contains(other) <==> (before.contains(other) || other
                        == pair.first) by {
                    vstd::seq_lib::lemma_seq_contains_after_push(before, pair.first, other);
                }
            }
            assert forall|other: ColliderHandle|
                found@.contains(other) <==> #[trigger] self.snapshot().interacting_among(
                    handle,
                    other,
                    i + 1,
                ) by {
                self.snapshot().lemma_interacting_step(handle, other, i as int);
                assert(before.contains(other) <==> self.snapshot().interacting_among(
                    handle,
                    other,
                    i as int,
                ));
            }
            i += 1;
        }
        Some(found)
    }

    /// Hands over the commands that wait for the solver, oldest first, and
    /// leaves none behind.
    pub fn take_commands(&mut self) -> (taken: Vec<Command>)
        ensures
            taken@ == old(self).commands@,
            final(self).commands@.len() == 0,
            final(self).bodies@ == old(self).bodies@,
            final(self).colliders@ == old(self).colliders@,
            final(self).contacts@ == old(self).contacts@,
            final(self).gravity == old(self).gravity,
    {
        let mut taken: Vec<Command> = Vec::new();
        std::mem::swap(&mut self.commands, &mut taken);
        taken
    }
}

impl Default for PhysicsWorld {
    /// An empty world under a gravity of 300 units per second squared,
    /// downward.
    fn default() -> (w: PhysicsWorld)
        ensures
            w.gravity == (Vector2 { x: 0, y: GRAVITY }),
            w.bodies@.len() == 0,
            w.colliders@.len() == 0,
            w.contacts@.len() == 0,
            w.commands@.len() == 0,
            w.wf(),
    {
        PhysicsWorld {
            gravity: Vector2 { x: 0, y: GRAVITY },
            bodies: Vec::new(),
            colliders: Vec::new(),
            contacts: Vec::new(),
            commands: Vec::new(),
        }
    }
}

} // verus!
