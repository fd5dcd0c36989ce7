//! The data that entities are made of.

use vstd::prelude::*;
use crate::engine::game::FRAME_TICKS;
use crate::engine::physics::{BodyHandle, ColliderHandle};
use crate::util::fixed::{within, MAX_COORD, MAX_EXTENT};
use crate::util::vector::Vector2;

verus! {

/// Largest animation speed, in thousandths of a frame per second.
pub const MAX_SPEED: i64 = 1_000_000_000_000_000;

/// Largest factor from a body's speed to its animation speed, in thousandths.
pub const MAX_SPEED_FACTOR: i64 = 1_000_000;

/// Largest reading of an animation clock.
pub const MAX_FRAME: i64 = 1_000_000_000_000_000;

/// Binds an entity to its rigid body and primary collider.
#[derive(Clone, Copy, Debug, PartialEq, Eq, Structural)]
pub struct Body {
    pub rigid_body_handle: BodyHandle,
    pub collider_handle: ColliderHandle,
}

/// A non-solid collider under an entity, and whether it touched ground at
/// the last physics step.
#[derive(Clone, Copy, Debug, PartialEq, Eq, Structural)]
pub struct FeetSensor {
    pub collider_handle: ColliderHandle,
    pub on_floor: bool,
}

/// The jump latch: armed on the ground, held while the jump key stays down.
#[derive(Clone, Copy, Debug, PartialEq, Eq, Structural)]
pub struct Jumper {
    pub jump_active: bool,
}

impl Default for Jumper {
    fn default() -> (j: Jumper)
        ensures
            !j.jump_active,
    {
        Jumper { jump_active: false }
    }
}

/// Where an entity is drawn: position in world units, rotation in radians,
/// and a scale whose horizontal sign is the facing.
#[derive(Clone, Copy, Debug, PartialEq, Eq, Structural)]
pub struct Transform {
    pub position: Vector2,
    pub rotation: i64,
    pub scale: Vector2,
}

impl Transform {
    /// Position and scale are within the coordinate range.
    pub open spec fn wf(self) -> bool {
        self.position.within(MAX_COORD as int) && self.scale.within(MAX_COORD as int)
    }

    /// Tests that position and scale are within the coordinate range.
    pub fn is_valid(&self) -> (r: bool)
        ensures
            r == self.wf(),
    {
        self.position.is_within(MAX_COORD) && self.scale.is_within(MAX_COORD)
    }

    /// An unrotated, unscaled transform at `position`.
    pub fn at(position: Vector2) -> (t: Transform)
        ensures
            t == (Transform { position, rotation: 0, scale: Vector2 { x: 1000, y: 1000 } }),
    {
        Transform { position, rotation: 0, scale: Vector2 { x: 1000, y: 1000 } }
    }
}

/// A rectangle of the texture atlas, in normalised coordinates.
#[derive(Clone, Copy, Debug, PartialEq, Eq, Structural)]
pub struct Rect {
    pub x: i64,
    pub y: i64,
    pub w: i64,
    pub h: i64,
}

impl Rect {
    /// The rectangle with the corner and size given.
    pub fn new(x: i64, y: i64, w: i64, h: i64) -> (r: Rect)
        ensures
            r == (Rect { x, y, w, h }),
    {
        Rect { x, y, w, h }
    }
}

/// How many tiles a sprite repeats, across and down.
#[derive(Clone, Copy, Debug, PartialEq, Eq, Structural)]
pub struct TileCount {
    pub x: u32,
    pub y: u32,
}

/// What an entity looks like: a source rectangle, the size of one tile and
/// how often the tile repeats.
#[derive(Clone, Copy, Debug, PartialEq, Eq, Structural)]
pub struct Sprite {
    pub src: Rect,
    pub width: i64,
    pub height: i64,
    pub repeat: TileCount,
}

impl Sprite {
    /// The tile size and the width of the source rectangle are within the
    /// extent range.
    pub open spec fn wf(self) -> bool {
        &&& within(self.width as int, MAX_EXTENT as int)
        &&& within(self.height as int, MAX_EXTENT as int)
        &&& within(self.src.w as int, MAX_EXTENT as int)
    }

    /// Tests that the tile size and the width of the source rectangle are
    /// within the extent range.
    pub fn is_valid(&self) -> (r: bool)
        ensures
            r == self.wf(),
    {
        -MAX_EXTENT <= self.width && self.width <= MAX_EXTENT && -MAX_EXTENT <= self.height
            && self.height <= MAX_EXTENT && -MAX_EXTENT <= self.src.w && self.src.w <= MAX_EXTENT
    }
}

/// The states an animation can be in.
#[derive(Clone, Copy, Debug, Hash, PartialEq, Eq, Structural)]
pub enum AnimationStates {
    Idle,
    Moving,
    Jumping,
    Drag,
}

impl Default for AnimationStates {
    fn default() -> (s: AnimationStates)
        ensures
            s == AnimationStates::Idle,
    {
        AnimationStates::Idle
    }
}

/// The frames of one animation state: a clock, the first frame and the
/// number of frames. The clock counts `FRAME_TICKS` steps per frame.
#[derive(Clone, Copy, Debug, PartialEq, Eq, Structural)]
pub struct AnimationParams {
    pub frame: i64,
    pub start_frame: u32,
    pub frame_count: u32,
}

impl AnimationParams {
    /// The clock is within its range.
    pub open spec fn wf(self) -> bool {
        0 <= self.frame <= MAX_FRAME
    }

    /// The clock reading at the start of whole frame `frame`.
    pub open spec fn ticks_of(frame: int) -> int {
        frame * FRAME_TICKS
    }

    /// Tests that the clock is within its range.
    pub fn is_valid(&self) -> (r: bool)
        ensures
            r == self.wf(),
    {
        0 <= self.frame && self.frame <= MAX_FRAME
    }

    /// Parameters whose clock stands at the start of whole frame `frame`.
    pub fn new(frame: u32, start_frame: u32, frame_count: u32) -> (p: AnimationParams)
        ensures
            p.frame == Self::ticks_of(frame as int),
            p.start_frame == start_frame,
            p.frame_count == frame_count,
            p.wf(),
    {
        AnimationParams { frame: (frame as i64) * FRAME_TICKS, start_frame, frame_count }
    }
}

/// The frame parameters of each animation state that an entity has.
#[derive(Clone, Copy, Debug, PartialEq, Eq, Structural)]
pub struct AnimationTable {
    pub idle: Option<AnimationParams>,
    pub moving: Option<AnimationParams>,
    pub jumping: Option<AnimationParams>,
    pub drag: Option<AnimationParams>,
}

impl AnimationTable {
    /// The parameters stored for `state`, if any.
    pub open spec fn lookup(self, state: AnimationStates) -> Option<AnimationParams> {
        match state {
            AnimationStates::Idle => self.idle,
            AnimationStates::Moving => self.moving,
            AnimationStates::Jumping => self.jumping,
            AnimationStates::Drag => self.drag,
        }
    }

    /// The table with `state` set to `params` and every other state kept.
    pub open spec fn with(self, state: AnimationStates, params: AnimationParams) -> AnimationTable {
        match state {
            AnimationStates::Idle => AnimationTable { idle: Some(params), ..self },
            AnimationStates::Moving => AnimationTable { moving: Some(params), ..self },
            AnimationStates::Jumping => AnimationTable { jumping: Some(params), ..self },
            AnimationStates::Drag => AnimationTable { drag: Some(params), ..self },
        }
    }

    /// Every clock in the table is within its range.
    pub open spec fn wf(self) -> bool {
        forall|state: AnimationStates| #[trigger]
            self.lookup(state) matches Some(p) ==> p.wf()
    }

    /// Tests that every clock in the table is within its range.
    pub fn is_valid(&self) -> (r: bool)
        ensures
            r == self.wf(),
    {
        let idle = match self.idle {
            Some(p) => p.is_valid(),
            None => true,
        };
        let moving = match self.moving {
            Some(p) => p.is_valid(),
            None => true,
        };
        let jumping = match self.jumping {
            Some(p) => p.is_valid(),
            None => true,
        };
        let drag = match self.drag {
            Some(p) => p.is_valid(),
            None => true,
        };
        proof {
            if idle && moving && jumping && drag {
                assert forall|state: AnimationStates| #[trigger]
                    self.lookup(state).is_some() implies self.lookup(state).unwrap().wf() by {}
            } else {
                assert(self.lookup(AnimationStates::Idle) == self.idle);
                assert(self.lookup(AnimationStates::Moving) == self.moving);
                assert(self.lookup(AnimationStates::Jumping) == self.jumping);
                assert(self.lookup(AnimationStates::Drag) == self.drag);
            }
        }
        idle && moving && jumping && drag
    }

    /// The table without any state.
    pub fn new() -> (t: AnimationTable)
        ensures
            t == (AnimationTable { idle: None, moving: None, jumping: None, drag: None }),
            forall|state: AnimationStates| t.lookup(state).is_none(),
            t.wf(),
    {
        AnimationTable { idle: None, moving: None, jumping: None, drag: None }
    }

    /// The parameters stored for `state`, if any.
    pub fn get(&self, state: AnimationStates) -> (r: Option<AnimationParams>)
        ensures
            r == self.lookup(state),
    {
        match state {
            AnimationStates::Idle => self.idle,
            AnimationStates::Moving => self.moving,
            AnimationStates::Jumping => self.jumping,
            AnimationStates::Drag => self.drag,
        }
    }

    /// Stores `params` for `state` and returns what was stored before.
    pub fn insert(&mut self, state: AnimationStates, params: AnimationParams) -> (previous: Option<
        AnimationParams,
    >)
        ensures
            previous == old(self).lookup(state),
            *final(self) == old(self).with(state, params),
            final(self).lookup(state) == Some(params),
            forall|other: AnimationStates|
                other != state ==> final(self).lookup(other) == old(self).lookup(other),
    {
        let previous = self.get(state);
        match state {
            AnimationStates::Idle => {
                self.idle = Some(params);
            },
            AnimationStates::Moving => {
                self.moving = Some(params);
            },
            AnimationStates::Jumping => {
                self.jumping = Some(params);
            },
            AnimationStates::Drag => {
                self.drag = Some(params);
            },
        }
        previous
    }
}

/// State-driven sprite animation: the current state, the frames of each
/// state, the playback speed in thousandths of a frame per second and the
/// factor by which a body's speed sets it.
#[derive(Clone, Copy, Debug, PartialEq, Eq, Structural)]
pub struct Animation {
    pub current_state: AnimationStates,
    pub animations: AnimationTable,
    pub speed: i64,
    pub speed_factor: i64,
}

impl Animation {
    /// Speed, factor and every clock are within their ranges.
    pub open spec fn wf(self) -> bool {
        &&& 0 <= self.speed <= MAX_SPEED
        &&& 0 <= self.speed_factor <= MAX_SPEED_FACTOR
        &&& self.animations.wf()
    }

    /// Tests that speed, factor and every clock are within their ranges.
    pub fn is_valid(&self) -> (r: bool)
        ensures
            r == self.wf(),
    {
        0 <= self.speed && self.speed <= MAX_SPEED && 0 <= self.speed_factor && self.speed_factor
            <= MAX_SPEED_FACTOR && self.animations.is_valid()
    }
}

impl Default for Animation {
    fn default() -> (a: Animation)
        ensures
            a == (Animation {
                current_state: AnimationStates::Idle,
                animations: AnimationTable { idle: None, moving: None, jumping: None, drag: None },
                speed: 0,
                speed_factor: 0,
            }),
            forall|state: AnimationStates| a.animations.lookup(state).is_none(),
            a.wf(),
    {
        Animation {
            current_state: AnimationStates::Idle,
            animations: AnimationTable::new(),
            speed: 0,
            speed_factor: 0,
        }
    }
}

/// Whether every transform of a storage is within range.
pub open spec fn transforms_wf(m: Map<int, Transform>) -> bool {
    forall|e: int| m.contains_key(e) ==> (#[trigger] m[e]).wf()
}

/// Whether every sprite of a storage is within range.
pub open spec fn sprites_wf(m: Map<int, Sprite>) -> bool {
    forall|e: int| m.contains_key(e) ==> (#[trigger] m[e]).wf()
}

/// Whether every animation of a storage is within range.
pub open spec fn animations_wf(m: Map<int, Animation>) -> bool {
    forall|e: int| m.contains_key(e) ==> (#[trigger] m[e]).wf()
}

/// Marks an entity the camera follows.
#[derive(Clone, Copy, Debug, PartialEq, Eq, Structural)]
pub struct CameraTarget;

impl Default for CameraTarget {
    fn default() -> (t: CameraTarget) {
        CameraTarget
    }
}

/// Marks the entity under keyboard control.
#[derive(Clone, Copy, Debug, PartialEq, Eq, Structural)]
pub struct Player;

impl Default for Player {
    fn default() -> (p: Player) {
        Player
    }
}

/// Marks an entity that patrols on its own.
#[derive(Clone, Copy, Debug, PartialEq, Eq, Structural)]
pub struct BasicAI;

impl Default for BasicAI {
    fn default() -> (a: BasicAI) {
        BasicAI
    }
}

} // verus!
