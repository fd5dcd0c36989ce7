//! Advances animation clocks and picks the sprite frame to show.

use vstd::prelude::*;
use crate::components::{
    animations_wf, sprites_wf, Animation, AnimationParams, Rect, Sprite, };
use crate::engine::game::FRAME_TICKS;
use crate::engine::storage::{lemma_same_lookups, lookup, Entity, Storage};
use crate::util::fixed::MAX_EXTENT;

verus! {

/// One animation after a tick, with the frame to show.
#[derive(Clone, Copy, Debug, PartialEq, Eq, Structural)]
pub struct Advanced {
    pub params: AnimationParams,
    pub frame_index: i64,
}

/// Advances every animation by one tick and moves its sprite's source
/// rectangle to the frame to show.
pub struct AnimationSystem;

impl AnimationSystem {
    /// The clock reading at which an animation wraps: the end of its last
    /// frame.
    pub open spec fn wrap_point(p: AnimationParams) -> int {
        (p.frame_count + p.start_frame) * FRAME_TICKS
    }

    /// The frame shown for a clock reading of `clock`: the whole frames on
    /// the clock, counted round the animation's frames, after its first.
    pub open spec fn shown(p: AnimationParams, clock: int) -> int {
        (clock / FRAME_TICKS as int) % (p.frame_count as int) + p.start_frame
    }

    /// The clock after a reading of `clock`: back at the first frame once it
    /// has reached the wrap point.
    pub open spec fn wrapped(p: AnimationParams, clock: int) -> int {
        if clock >= Self::wrap_point(p) {
            p.start_frame * FRAME_TICKS
        } else {
            clock
        }
    }

    /// One tick at `speed` thousandths of a frame per second: the clock moves
    /// on by `speed`, the frame is read off, then the clock wraps.
    pub open spec fn advance_spec(p: AnimationParams, speed: int) -> Advanced {
        Advanced {
            params: AnimationParams { frame: Self::wrapped(p, p.frame + speed) as i64, ..p },
            frame_index: Self::shown(p, p.frame + speed) as i64,
        }
    }

    /// The clock after `n` ticks at a constant speed.
    pub open spec fn clock_after(p: AnimationParams, speed: int, n: nat) -> int
        decreases n,
    {
        if n == 0 {
            p.frame as int
        } else {
            Self::wrapped(p, Self::clock_after(p, speed, (n - 1) as nat) + speed)
        }
    }

    /// The frame shown at tick `n`, counted from one, at a constant speed.
    pub open spec fn shown_at(p: AnimationParams, speed: int, n: nat) -> int
        recommends
            n >= 1,
    {
        Self::shown(p, Self::clock_after(p, speed, (n - 1) as nat) + speed)
    }

    /// Until the clock first reaches the wrap point it simply adds up, so the
    /// frame shown at tick `n` is the first frame plus the whole frames in
    /// `n` steps of the speed, counted round the animation's frames. The
    /// advance is by time, not by ticks: no fraction of a frame is lost.
    pub proof fn lemma_frames_before_wrap(p: AnimationParams, speed: int, n: nat)
        requires
            speed >= 0,
            n >= 1,
            p.frame + (n - 1) * speed < Self::wrap_point(p),
        ensures
            Self::clock_after(p, speed, (n - 1) as nat) == p.frame + (n - 1) * speed,
            Self::shown_at(p, speed, n) == p.start_frame + ((p.frame + n * speed) / (
            FRAME_TICKS as int)) % (p.frame_count as int),
        decreases n,
    {
        let m = (n - 1) as nat;
        if m == 0 {
            assert((n - 1) * speed == 0) by (nonlinear_arith)
                requires
                    n == 1,
            ;
        } else {
            assert((m - 1) * speed + speed == m * speed) by (nonlinear_arith);
            assert(p.frame + (m - 1) * speed <= p.frame + m * speed) by (nonlinear_arith)
                requires
                    speed >= 0,
            ;
            Self::lemma_frames_before_wrap(p, speed, m);
            assert(Self::clock_after(p, speed, (m - 1) as nat) == p.frame + (m - 1) * speed);
            assert(Self::clock_after(p, speed, m) == Self::wrapped(
                p,
                Self::clock_after(p, speed, (m - 1) as nat) + speed,
            ));
        }
        assert(m * speed + speed == n * speed) by (nonlinear_arith)
            requires
                m == n - 1,
        ;
    }

    /// A clock that has reached the wrap point starts over at the first
    /// frame; one that has not keeps its reading.
    pub proof fn lemma_wraparound(p: AnimationParams, speed: int)
        ensures
            p.frame + speed >= Self::wrap_point(p) ==> Self::advance_spec(p, speed).params.frame
                == AnimationParams::ticks_of(p.start_frame as int),
            0 <= p.frame + speed < Self::wrap_point(p) && p.wf() ==> Self::advance_spec(
                p,
                speed,
            ).params.frame == p.frame + speed,
    {
        assert(p.start_frame * FRAME_TICKS <= 0xffff_ffff * 60_000) by (nonlinear_arith)
            requires
                p.start_frame <= 0xffff_ffff,
                FRAME_TICKS == 60_000,
        ;
        assert(Self::wrap_point(p) <= 2 * 0xffff_ffff * 60_000) by (nonlinear_arith)
            requires
                Self::wrap_point(p) == (p.frame_count + p.start_frame) * FRAME_TICKS,
                p.start_frame <= 0xffff_ffff,
                p.frame_count <= 0xffff_ffff,
                FRAME_TICKS == 60_000,
        ;
    }

    /// Advances one animation by one tick.
    pub fn advance(p: AnimationParams, speed: i64) -> (r: Advanced)
        requires
            p.wf(),
            0 <= speed <= crate::components::MAX_SPEED,
            p.frame_count > 0,
        ensures
            r == Self::advance_spec(p, speed as int),
            r.params.wf(),
            p.start_frame <= r.frame_index < p.start_frame + p.frame_count,
    {
        let clock: i64 = p.frame + speed;
        let whole: i64 = clock / FRAME_TICKS;
        let count: i64 = p.frame_count as i64;
        let start: i64 = p.start_frame as i64;
        let frame_index: i64 = whole % count + start;
        let wrap: i64 = (count + start) * FRAME_TICKS;
        let frame = if clock >= wrap {
            start * FRAME_TICKS
        } else {
            clock
        };
        Advanced {
            params: AnimationParams {
                frame,
                start_frame: p.start_frame,
                frame_count: p.frame_count,
            },
            frame_index,
        }
    }

    /// What one tick does to an animation and its sprite: the clock of the
    /// current state advances and the source rectangle moves to the frame to
    /// show. Where the current state has no frames, nothing changes.
    pub open spec fn animate_spec(a: Animation, s: Sprite) -> (Animation, Sprite) {
        match a.animations.lookup(a.current_state) {
            Some(p) if p.frame_count > 0 => {
                let r = Self::advance_spec(p, a.speed as int);
                (
                    Animation { animations: a.animations.with(a.current_state, r.params), ..a },
                    Sprite { src: Rect { x: (s.src.w * r.frame_index) as i64, ..s.src }, ..s },
                )
            },
            _ => (a, s),
        }
    }

    /// Computes what one tick does to an animation and its sprite.
    pub fn animate(a: Animation, s: Sprite) -> (r: (Animation, Sprite))
        requires
            a.wf(),
            s.wf(),
        ensures
            r == Self::animate_spec(a, s),
            r.0.wf(),
            r.1.wf(),
    {
        match a.animations.get(a.current_state) {
            Some(p) => {
                if p.frame_count > 0 {
                    let advanced = Self::advance(p, a.speed);
                    let mut next = a;
                    next.animations.insert(a.current_state, advanced.params);
                    assert(s.src.w * advanced.frame_index <= MAX_EXTENT * 0x2_0000_0000
                        && s.src.w * advanced.frame_index >= -MAX_EXTENT * 0x2_0000_0000)
                        by (nonlinear_arith)
                        requires
                            -MAX_EXTENT <= s.src.w <= MAX_EXTENT,
                            0 <= advanced.frame_index < 0x2_0000_0000,
                    ;
                    let mut sprite = s;
                    sprite.src.x = s.src.w * advanced.frame_index;
                    (next, sprite)
                } else {
                    (a, s)
                }
            },
            None => (a, s),
        }
    }

    /// Whether entity `e` is animated: it has an animation and a sprite.
    pub open spec fn animates(
        animations: Map<int, Animation>,
        sprites: Map<int, Sprite>,
        e: int,
    ) -> bool {
        animations.contains_key(e) && sprites.contains_key(e)
    }

    /// The animations after the tick: those of the animated entities as
    /// `animate_spec` leaves them, the others as they were.
    pub open spec fn animated(animations: Map<int, Animation>, sprites: Map<int, Sprite>) -> Map<
        int,
        Animation,
    > {
        Map::new(
            |e: int| animations.contains_key(e),
            |e: int|
                if Self::animates(animations, sprites, e) {
                    Self::animate_spec(animations[e], sprites[e]).0
                } else {
                    animations[e]
                },
        )
    }

    /// The sprites after the tick: those of the animated entities as
    /// `animate_spec` leaves them, the others as they were.
    pub open spec fn framed(animations: Map<int, Animation>, sprites: Map<int, Sprite>) -> Map<
        int,
        Sprite,
    > {
        Map::new(
            |e: int| sprites.contains_key(e),
            |e: int|
                if Self::animates(animations, sprites, e) {
                    Self::animate_spec(animations[e], sprites[e]).1
                } else {
                    sprites[e]
                },
        )
    }

    /// Animates every entity that has an animation and a sprite, and leaves
    /// every other component as it is.
    pub fn run(&mut self, animations: &mut Storage<Animation>, sprites: &mut Storage<Sprite>)
        requires
            animations_wf(old(animations)@),
            sprites_wf(old(sprites)@),
        ensures
            final(animations)@ == Self::animated(old(animations)@, old(sprites)@),
            final(sprites)@ == Self::framed(old(animations)@, old(sprites)@),
            final(animations).spec_len() == old(animations).spec_len(),
            final(sprites).spec_len() == old(sprites).spec_len(),
            animations_wf(final(animations)@),
            sprites_wf(final(sprites)@),
    {
        let n = animations.len();
        let mut i: usize = 0;
        while i < n
            invariant
                i <= n,
                n == old(animations).spec_len(),
                animations.spec_len() == n,
                sprites.spec_len() == old(sprites).spec_len(),
                animations_wf(old(animations)@),
                sprites_wf(old(sprites)@),
                animations_wf(animations@),
                sprites_wf(sprites@),
                forall|e: int|
                    #![trigger lookup(animations@, e)]
                    #![trigger lookup(old(animations)@, e)]
                    lookup(animations@, e) == if e < i && Self::animates(
                        old(animations)@,
                        old(sprites)@,
                        e,
                    ) {
                        Some(Self::animate_spec(old(animations)@[e], old(sprites)@[e]).0)
                    } else {
                        lookup(old(animations)@, e)
                    },
                forall|e: int|
                    #![trigger lookup(sprites@, e)]
                    #![trigger lookup(old(sprites)@, e)]
                    lookup(sprites@, e) == if e < i && Self::animates(
                        old(animations)@,
                        old(sprites)@,
                        e,
                    ) {
                        Some(Self::animate_spec(old(animations)@[e], old(sprites)@[e]).1)
                    } else {
                        lookup(old(sprites)@, e)
                    },
            decreases n - i,
        {
            let entity = Entity { id: i };
            assert(lookup(animations@, i as int) == lookup(old(animations)@, i as int));
            assert(lookup(sprites@, i as int) == lookup(old(sprites)@, i as int));
            if let (Some(animation), Some(sprite)) = (animations.get(entity), sprites.get(entity)) {
                let (next, shown) = Self::animate(animation, sprite);
                proof {
                    sprites.lemma_below_len(i as int);
                }
                animations.insert(entity, next);
                sprites.insert(entity, shown);
            }
            i += 1;
        }
        proof {
            assert forall|e: int| Self::animates(old(animations)@, old(sprites)@, e) implies e
                < n by {
                old(animations).lemma_below_len(e);
            }
            lemma_same_lookups(animations@, Self::animated(old(animations)@, old(sprites)@));
            lemma_same_lookups(sprites@, Self::framed(old(animations)@, old(sprites)@));
        }
    }
}

} // verus!
