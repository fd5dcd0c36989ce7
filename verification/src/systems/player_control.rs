//! Keyboard control of the player: running, facing and variable-height
//! jumps.

use vstd::prelude::*;
use crate::components::{
    animations_wf, transforms_wf, Animation, AnimationStates, Body, FeetSensor, Jumper, Player,
    Transform,
};
use crate::engine::physics::{Command, ForceType, PhysicsWorld, Snapshot};
use crate::engine::resources::{InputEvents, KeyCode, KeyMods};
use crate::engine::storage::{lemma_same_lookups, lookup, Entity, Storage};
use crate::util::fixed::{abs, abs_spec};
use crate::util::vector::Vector2;

verus! {

/// The push on a running player per tick: 400 units per second over 60
/// ticks, in thousandths.
pub const ACCELERATION: i64 = 6_667;

/// The speed beyond which a walking player is pushed no more.
pub const TOP_SPEED: i64 = 100_000;

/// The speed beyond which a sprinting player is pushed no more.
pub const SPRINT_SPEED: i64 = 240_000;

/// The friction of a player that neither runs nor jumps, in thousandths.
pub const FRICTION: i64 = 500;

/// How long a held jump key lifts the player, in microseconds.
pub const JUMP_WINDOW: u64 = 200_000;

/// How long a held jump key lifts a sprinting player, in microseconds.
pub const SPRINT_JUMP_WINDOW: u64 = 240_000;

/// The lift at the moment the jump key goes down, in thousandths.
pub const JUMP_FORCE: i64 = 40_000;

/// What one tick of control does to one player: its components afterwards,
/// the impulse for its body and the friction for its collider.
#[derive(Clone, Copy, Debug, PartialEq, Eq, Structural)]
pub struct Controlled {
    pub transform: Transform,
    pub jumper: Option<Jumper>,
    pub animation: Option<Animation>,
    pub force: Vector2,
    pub friction: i64,
}

/// Turns the keyboard snapshot into impulses, facing and jump state.
pub struct PlayerControlSystem;

impl PlayerControlSystem {
    /// Whether the player sprints.
    pub open spec fn sprinting(input: &InputEvents) -> bool {
        input.active_mods.includes(KeyMods::shift_only())
    }

    /// The speed beyond which the player is pushed no more.
    pub open spec fn top_speed(input: &InputEvents) -> int {
        if Self::sprinting(input) {
            SPRINT_SPEED as int
        } else {
            TOP_SPEED as int
        }
    }

    /// How long a held jump key lifts the player.
    pub open spec fn jump_window(input: &InputEvents) -> int {
        if Self::sprinting(input) {
            SPRINT_JUMP_WINDOW as int
        } else {
            JUMP_WINDOW as int
        }
    }

    /// Whether the keys ask to go right.
    pub open spec fn heads_right(input: &InputEvents) -> bool {
        input.pressed(KeyCode::D) || input.pressed(KeyCode::Right)
    }

    /// Whether the keys ask to go left; right wins over left.
    pub open spec fn heads_left(input: &InputEvents) -> bool {
        !Self::heads_right(input) && (input.pressed(KeyCode::A) || input.pressed(KeyCode::Left))
    }

    /// The horizontal impulse: toward the side asked for, and only while the
    /// body is slower than the top speed in that direction.
    pub open spec fn drive(input: &InputEvents, speed: int) -> int {
        if Self::heads_right(input) && speed < Self::top_speed(input) {
            ACCELERATION as int
        } else if Self::heads_left(input) && speed > -Self::top_speed(input) {
            -ACCELERATION
        } else {
            0
        }
    }

    /// The horizontal scale: its sign follows the side asked for, its
    /// magnitude stays.
    pub open spec fn facing(input: &InputEvents, scale: int) -> int {
        if Self::heads_right(input) {
            abs_spec(scale)
        } else if Self::heads_left(input) {
            -abs_spec(scale)
        } else {
            scale
        }
    }

    /// The jump latch after the tick. It holds only while the jump key is
    /// down. On the floor the key catches it. Off the floor it cannot catch,
    /// and one that was caught holds only within the jump window: once the
    /// key has been down for the whole window, the latch is clear in the air.
    pub open spec fn latch(input: &InputEvents, on_floor: bool, jump_active: bool) -> bool {
        input.pressed(KeyCode::Space) && (on_floor || (jump_active && input.held_for(
            KeyCode::Space,
        ) < Self::jump_window(input)))
    }

    /// Whether the jump lifts the player this tick: the latch holds and the
    /// key has been down for less than the jump window.
    pub open spec fn lifting(input: &InputEvents, on_floor: bool, jump_active: bool) -> bool {
        Self::latch(input, on_floor, jump_active) && input.held_for(KeyCode::Space)
            < Self::jump_window(input)
    }

    /// The lift of a key held for `held` out of a window of `window`: the full
    /// force at first, falling in a straight line to nothing at the window's
    /// end.
    pub open spec fn lift(held: int, window: int) -> int {
        if 0 <= held < window {
            JUMP_FORCE * (window - held) / window
        } else {
            0
        }
    }

    /// What one tick of control does to one player.
    ///
    /// A player is steered only if its body is alive (`velocity` is given)
    /// and it has a feet sensor. Otherwise its components stay, nothing pushes
    /// it and it gets the resting friction.
    pub open spec fn control_spec(
        input: &InputEvents,
        velocity: Option<Vector2>,
        feet: Option<FeetSensor>,
        transform: Transform,
        jumper: Option<Jumper>,
        animation: Option<Animation>,
    ) -> Controlled {
        if velocity.is_some() && feet.is_some() {
            let on_floor = feet.unwrap().on_floor;
            let lifting = jumper.is_some() && Self::lifting(
                input,
                on_floor,
                jumper.unwrap().jump_active,
            );
            Controlled {
                transform: Transform {
                    scale: Vector2 {
                        x: Self::facing(input, transform.scale.x as int) as i64,
                        y: transform.scale.y,
                    },
                    ..transform
                },
                jumper: match jumper {
                    Some(j) => Some(
                        Jumper { jump_active: Self::latch(input, on_floor, j.jump_active) },
                    ),
                    None => None,
                },
                animation: match animation {
                    Some(a) if lifting => Some(
                        Animation { current_state: AnimationStates::Jumping, ..a },
                    ),
                    _ => animation,
                },
                force: Vector2 {
                    x: Self::drive(input, velocity.unwrap().x as int) as i64,
                    y: if lifting {
                        Self::lift(input.held_for(KeyCode::Space), Self::jump_window(input)) as i64
                    } else {
                        0
                    },
                },
                friction: if Self::heads_right(input) || Self::heads_left(input) || lifting {
                    0
                } else {
                    FRICTION
                },
            }
        } else {
            Controlled {
                transform,
                jumper,
                animation,
                force: Vector2 { x: 0, y: 0 },
                friction: FRICTION,
            }
        }
    }

    /// The lift never exceeds the full force, is never negative, and is
    /// nothing once the key has been held for the whole window.
    pub proof fn lemma_lift_bounds(held: int, window: int)
        requires
            0 < window,
            0 <= held,
        ensures
            0 <= Self::lift(held, window) <= JUMP_FORCE,
            held >= window ==> Self::lift(held, window) == 0,
            held == 0 ==> Self::lift(held, window) == JUMP_FORCE,
    {
        if held < window {
            let n = JUMP_FORCE * (window - held);
            assert(0 <= n <= JUMP_FORCE * window) by (nonlinear_arith)
                requires
                    n == JUMP_FORCE * (window - held),
                    0 <= held < window,
            ;
            vstd::arithmetic::div_mod::lemma_div_is_ordered(n, JUMP_FORCE * window, window);
            vstd::arithmetic::div_mod::lemma_div_pos_is_pos(n, window);
            vstd::arithmetic::div_mod::lemma_div_multiples_vanish(JUMP_FORCE as int, window);
            assert(JUMP_FORCE * window == window * JUMP_FORCE) by (nonlinear_arith);
        }
    }

    /// The longer the key is held, the smaller the lift.
    pub proof fn lemma_lift_decays(earlier: int, later: int, window: int)
        requires
            0 < window,
            0 <= earlier <= later,
        ensures
            Self::lift(later, window) <= Self::lift(earlier, window),
    {
        Self::lemma_lift_bounds(earlier, window);
        Self::lemma_lift_bounds(later, window);
        if later < window {
            assert(JUMP_FORCE * (window - later) <= JUMP_FORCE * (window - earlier))
                by (nonlinear_arith)
                requires
                    earlier <= later,
            ;
            vstd::arithmetic::div_mod::lemma_div_is_ordered(
                JUMP_FORCE * (window - later),
                JUMP_FORCE * (window - earlier),
                window,
            );
        }
    }

    /// The jump latch: in the air it is set after the tick only if it was set
    /// before, the jump key is down and has been down for less than the jump
    /// window; so it cannot catch in the air, and it is clear in the air once
    /// the window has run out. On the floor the key catches it. Releasing the
    /// key clears it, until the player is on the floor again with the key
    /// down.
    pub proof fn lemma_jump_latch(input: &InputEvents, on_floor: bool, jump_active: bool)
        ensures
            !on_floor ==> (Self::latch(input, on_floor, jump_active) <==> jump_active
                && input.pressed(KeyCode::Space) && input.held_for(KeyCode::Space)
                < Self::jump_window(input)),
            on_floor ==> Self::latch(input, on_floor, jump_active) == input.pressed(
                KeyCode::Space,
            ),
            !on_floor && !jump_active ==> !Self::latch(input, on_floor, jump_active),
            !on_floor && input.held_for(KeyCode::Space) >= Self::jump_window(input)
                ==> !Self::latch(input, on_floor, jump_active),
            Self::latch(input, on_floor, jump_active) && !jump_active ==> on_floor,
            !input.pressed(KeyCode::Space) ==> !Self::latch(input, on_floor, jump_active),
            Self::lifting(input, on_floor, jump_active) ==> Self::latch(
                input,
                on_floor,
                jump_active,
            ),
            !on_floor ==> Self::lifting(input, on_floor, jump_active) == Self::latch(
                input,
                on_floor,
                jump_active,
            ),
    {
    }

    /// Whatever the state of the player, a tick of control lifts it by no
    /// more than the full jump force and never pulls it down; once the jump
    /// key has been held for the whole window it lifts it no more; and it
    /// pushes it sideways by the acceleration or not at all.
    pub proof fn lemma_control_force(
        input: &InputEvents,
        velocity: Option<Vector2>,
        feet: Option<FeetSensor>,
        transform: Transform,
        jumper: Option<Jumper>,
        animation: Option<Animation>,
    )
        ensures
            ({
                let c = Self::control_spec(input, velocity, feet, transform, jumper, animation);
                &&& 0 <= c.force.y <= JUMP_FORCE
                &&& input.held_for(KeyCode::Space) >= Self::jump_window(input) ==> c.force.y == 0
                &&& !input.pressed(KeyCode::Space) ==> c.force.y == 0
                &&& c.force.x == ACCELERATION || c.force.x == -ACCELERATION || c.force.x == 0
                &&& c.friction == 0 || c.friction == FRICTION
                &&& c.force != (Vector2 { x: 0, y: 0 }) ==> c.friction == 0
            }),
    {
        Self::lemma_lift_bounds(input.held_for(KeyCode::Space), Self::jump_window(input));
    }

    /// Computes what one tick of control does to one player.
    pub fn control(
        input: &InputEvents,
        velocity: Option<Vector2>,
        feet: Option<FeetSensor>,
        transform: Transform,
        jumper: Option<Jumper>,
        animation: Option<Animation>,
    ) -> (r: Controlled)
        requires
            transform.wf(),
        ensures
            r == Self::control_spec(input, velocity, feet, transform, jumper, animation),
            r.transform.wf(),
            r.animation.is_some() == animation.is_some(),
            r.jumper.is_some() == jumper.is_some(),
            animation matches Some(a) ==> (a.wf() ==> r.animation.unwrap().wf()),
    {
        let mut out = Controlled {
            transform,
            jumper,
            animation,
            force: Vector2 { x: 0, y: 0 },
            friction: FRICTION,
        };
        let (current_velocity, feet_sensor) = match (velocity, feet) {
            (Some(v), Some(f)) => (v, f),
            _ => {
                return out;
            },
        };
        let sprinting = input.is_mod_active(KeyMods::shift());
        let top_speed: i64 = if sprinting {
            SPRINT_SPEED
        } else {
            TOP_SPEED
        };
        if input.is_key_pressed(&KeyCode::D) || input.is_key_pressed(&KeyCode::Right) {
            if current_velocity.x < top_speed {
                out.force.x = ACCELERATION;
            }
            out.transform.scale.x = abs(transform.scale.x);
            out.friction = 0;
        } else if input.is_key_pressed(&KeyCode::A) || input.is_key_pressed(&KeyCode::Left) {
            if current_velocity.x > -top_speed {
                out.force.x = -ACCELERATION;
            }
            out.transform.scale.x = -abs(transform.scale.x);
            out.friction = 0;
        }
        if let Some(j) = jumper {
            let mut jump_active = j.jump_active;
            if feet_sensor.on_floor {
                jump_active = true;
            }
            match input.key_held_for(&KeyCode::Space) {
                Some(hold_time) => {
                    let jump_time: u64 = if sprinting {
                        SPRINT_JUMP_WINDOW
                    } else {
                        JUMP_WINDOW
                    };
                    if hold_time >= jump_time {
                        if !feet_sensor.on_floor {
                            jump_active = false;
                        }
                    } else if jump_active {
                        if let Some(a) = animation {
                            out.animation = Some(
                                Animation {
                                    current_state: AnimationStates::Jumping,
                                    animations: a.animations,
                                    speed: a.speed,
                                    speed_factor: a.speed_factor,
                                },
                            );
                        }
                        proof {
                            Self::lemma_lift_bounds(hold_time as int, jump_time as int);
                        }
                        let remaining: i64 = (jump_time - hold_time) as i64;
                        out.force.y = JUMP_FORCE * remaining / (jump_time as i64);
                        out.friction = 0;
                    }
                },
                None => {
                    jump_active = false;
                },
            }
            out.jumper = Some(Jumper { jump_active });
        }
        out
    }
}

/// All that a tick of player control reads: the keyboard, the physics world
/// and the components of every entity.
pub struct Controls {
    pub input: InputEvents,
    pub physics: Snapshot,
    pub transforms: Map<int, Transform>,
    pub bodies: Map<int, Body>,
    pub players: Map<int, Player>,
    pub feet: Map<int, FeetSensor>,
    pub jumpers: Map<int, Jumper>,
    pub animations: Map<int, Animation>,
}

impl Controls {
    /// Whether entity `e` is steered: it is a player with a transform and a
    /// body whose handle names a body of the world. A player with a stale
    /// body handle is passed over.
    pub open spec fn steers(self, e: int) -> bool {
        &&& self.transforms.contains_key(e)
        &&& self.bodies.contains_key(e)
        &&& self.players.contains_key(e)
        &&& self.physics.body(self.bodies[e].rigid_body_handle).is_some()
    }

    /// The velocity of the body of the steered entity `e`.
    pub open spec fn velocity(self, e: int) -> Option<Vector2> {
        match self.physics.body(self.bodies[e].rigid_body_handle) {
            Some(b) => Some(b.state.velocity),
            None => None,
        }
    }

    /// What the tick does to the steered entity `e`.
    pub open spec fn outcome(self, e: int) -> Controlled {
        PlayerControlSystem::control_spec(
            &self.input,
            self.velocity(e),
            lookup(self.feet, e),
            self.transforms[e],
            lookup(self.jumpers, e),
            lookup(self.animations, e),
        )
    }

    /// The transforms after the tick: those of the steered entities as
    /// `control_spec` leaves them, the others as they were.
    pub open spec fn transforms_after(self) -> Map<int, Transform> {
        Map::new(
            |e: int| self.transforms.contains_key(e),
            |e: int|
                if self.steers(e) {
                    self.outcome(e).transform
                } else {
                    self.transforms[e]
                },
        )
    }

    /// The jump latches after the tick: those of the steered entities as
    /// `control_spec` leaves them, the others as they were.
    pub open spec fn jumpers_after(self) -> Map<int, Jumper> {
        Map::new(
            |e: int| self.jumpers.contains_key(e),
            |e: int|
                if self.steers(e) {
                    self.outcome(e).jumper.unwrap()
                } else {
                    self.jumpers[e]
                },
        )
    }

    /// The animations after the tick: those of the steered entities as
    /// `control_spec` leaves them, the others as they were.
    pub open spec fn animations_after(self) -> Map<int, Animation> {
        Map::new(
            |e: int| self.animations.contains_key(e),
            |e: int|
                if self.steers(e) {
                    self.outcome(e).animation.unwrap()
                } else {
                    self.animations[e]
                },
        )
    }

    /// The commands for entity `e`: none unless it is steered; else the
    /// impulse, unless it is nothing, then the friction, unless the collider
    /// is gone.
    pub open spec fn commands_of(self, e: int) -> Seq<Command> {
        if self.steers(e) {
            let body = self.bodies[e];
            let c = self.outcome(e);
            let push = if c.force != (Vector2 { x: 0, y: 0 }) {
                seq![
                    Command::ApplyForce {
                        body: body.rigid_body_handle,
                        force: c.force,
                        force_type: ForceType::Impulse,
                    },
                ]
            } else {
                Seq::empty()
            };
            let grip = if self.physics.collider(body.collider_handle).is_some() {
                seq![Command::SetFriction { collider: body.collider_handle, friction: c.friction }]
            } else {
                Seq::empty()
            };
            push + grip
        } else {
            Seq::empty()
        }
    }

    /// The commands for the entities below `n`, in entity order.
    pub open spec fn emitted(self, n: int) -> Seq<Command>
        decreases n,
    {
        if n <= 0 {
            Seq::empty()
        } else {
            self.emitted(n - 1) + self.commands_of(n - 1)
        }
    }
}

impl PlayerControlSystem {
    /// Steers every player that has a transform and a live body: its facing,
    /// its jump latch and its animation state change as `control_spec` says,
    /// and the impulse and friction for its body join the commands for the
    /// solver, entity by entity. A player whose body is gone is passed over:
    /// nothing of it changes and no command is left for it. Every other
    /// component stays as it was.
    pub fn run(
        &mut self,
        transforms: &mut Storage<Transform>,
        input: &InputEvents,
        players: &Storage<Player>,
        bodies: &Storage<Body>,
        physics: &mut PhysicsWorld,
        feet: &Storage<FeetSensor>,
        jumpers: &mut Storage<Jumper>,
        animations: &mut Storage<Animation>,
    )
        requires
            transforms_wf(old(transforms)@),
        ensures
            ({
                let before = Controls {
                    input: *input,
                    physics: old(physics).snapshot(),
                    transforms: old(transforms)@,
                    bodies: bodies@,
                    players: players@,
                    feet: feet@,
                    jumpers: old(jumpers)@,
                    animations: old(animations)@,
                };
                &&& final(transforms)@ == before.transforms_after()
                &&& final(jumpers)@ == before.jumpers_after()
                &&& final(animations)@ == before.animations_after()
                &&& final(physics).commands@ == old(physics).commands@ + before.emitted(
                    old(transforms).spec_len() as int,
                )
            }),
            final(physics).snapshot() == old(physics).snapshot(),
            final(physics).gravity == old(physics).gravity,
            final(transforms).spec_len() == old(transforms).spec_len(),
            final(jumpers).spec_len() == old(jumpers).spec_len(),
            final(animations).spec_len() == old(animations).spec_len(),
            transforms_wf(final(transforms)@),
            animations_wf(old(animations)@) ==> animations_wf(final(animations)@),
    {
        let ghost before = Controls {
            input: *input,
            physics: physics.snapshot(),
            transforms: transforms@,
            bodies: bodies@,
            players: players@,
            feet: feet@,
            jumpers: jumpers@,
            animations: animations@,
        };
        let n = transforms.len();
        let mut i: usize = 0;
        while i < n
            invariant
                i <= n,
                n == old(transforms).spec_len(),
                transforms.spec_len() == n,
                jumpers.spec_len() == old(jumpers).spec_len(),
                animations.spec_len() == old(animations).spec_len(),
                transforms_wf(transforms@),
                animations_wf(before.animations) ==> animations_wf(animations@),
                before.input == *input,
                before.bodies == bodies@,
                before.players == players@,
                before.feet == feet@,
                before.physics == physics.snapshot(),
                physics.gravity == old(physics).gravity,
                physics.commands@ == old(physics).commands@ + before.emitted(i as int),
                forall|e: int|
                    #![trigger lookup(transforms@, e)]
                    #![trigger lookup(before.transforms, e)]
                    lookup(transforms@, e) == if e < i && before.steers(e) {
                        Some(before.outcome(e).transform)
                    } else {
                        lookup(before.transforms, e)
                    },
                forall|e: int|
                    #![trigger lookup(jumpers@, e)]
                    #![trigger lookup(before.jumpers, e)]
                    lookup(jumpers@, e) == if e < i && before.steers(e) {
                        before.outcome(e).jumper
                    } else {
                        lookup(before.jumpers, e)
                    },
                forall|e: int|
                    #![trigger lookup(animations@, e)]
                    #![trigger lookup(before.animations, e)]
                    lookup(animations@, e) == if e < i && before.steers(e) {
                        before.outcome(e).animation
                    } else {
                        lookup(before.animations, e)
                    },
            decreases n - i,
        {
            let entity = Entity { id: i };
            let ghost queued = physics.commands@;
            assert(lookup(transforms@, i as int) == lookup(before.transforms, i as int));
            assert(lookup(jumpers@, i as int) == lookup(before.jumpers, i as int));
            assert(lookup(animations@, i as int) == lookup(before.animations, i as int));
            match (transforms.get(entity), bodies.get(entity), players.get(entity)) {
                (Some(transform), Some(body), Some(_)) => {
                    if let Some(rigid_body) = physics.rigid_body(body.rigid_body_handle) {
                        let c = Self::control(
                            input,
                            Some(rigid_body.state.velocity),
                            feet.get(entity),
                            transform,
                            jumpers.get(entity),
                            animations.get(entity),
                        );
                        transforms.insert(entity, c.transform);
                        if let Some(j) = c.jumper {
                            proof {
                                jumpers.lemma_below_len(i as int);
                            }
                            jumpers.insert(entity, j);
                        }
                        if let Some(a) = c.animation {
                            proof {
                                animations.lemma_below_len(i as int);
                            }
                            animations.insert(entity, a);
                        }
                        if !c.force.is_zero() {
                            physics.apply_force(
                                body.rigid_body_handle,
                                c.force,
                                ForceType::Impulse,
                            );
                        }
                        physics.set_friction(body.collider_handle, c.friction);
                    }
                },
                _ => {},
            }
            assert(physics.commands@ =~= queued + before.commands_of(i as int));
            assert(physics.commands@ =~= old(physics).commands@ + before.emitted(i + 1));
            i += 1;
        }
        proof {
            assert forall|e: int| before.steers(e) implies e < n by {
                old(transforms).lemma_below_len(e);
            }
            lemma_same_lookups(transforms@, before.transforms_after());
            lemma_same_lookups(jumpers@, before.jumpers_after());
            lemma_same_lookups(animations@, before.animations_after());
        }
    }
}

} // verus!
