//! Two-dimensional fixed-point vectors.

use vstd::prelude::*;
use crate::util::fixed::within;
use crate::util::lerp::{Lerp, lerp_spec};

verus! {

/// A point or a displacement in the plane, each coordinate in thousandths.
#[derive(Clone, Copy, Debug, PartialEq, Eq, Structural)]
pub struct Vector2 {
    pub x: i64,
    pub y: i64,
}

impl Vector2 {
    /// Whether both coordinates lie within `bound` of zero.
    pub open spec fn within(self, bound: int) -> bool {
        within(self.x as int, bound) && within(self.y as int, bound)
    }

    /// The vector with the coordinates given.
    pub fn new(x: i64, y: i64) -> (v: Vector2)
        ensures
            v == (Vector2 { x, y }),
    {
        Vector2 { x, y }
    }

    /// The vector of no length.
    pub fn zero() -> (v: Vector2)
        ensures
            v == (Vector2 { x: 0, y: 0 }),
    {
        Vector2 { x: 0, y: 0 }
    }

    /// Whether the vector has no length.
    pub fn is_zero(&self) -> (r: bool)
        ensures
            r == (self.x == 0 && self.y == 0),
    {
        self.x == 0 && self.y == 0
    }

    /// Tests that both coordinates lie within `bound` of zero.
    pub fn is_within(&self, bound: i64) -> (r: bool)
        requires
            bound >= 0,
        ensures
            r == self.within(bound as int),
    {
        -bound <= self.x && self.x <= bound && -bound <= self.y && self.y <= bound
    }
}

impl Lerp for Vector2 {
    open spec fn lerp_value(self, other: Self, t: i64) -> Self {
        Vector2 { x: self.x.lerp_value(other.x, t), y: self.y.lerp_value(other.y, t) }
    }

    open spec fn lerp_fits(self, other: Self, t: i64) -> bool {
        self.x.lerp_fits(other.x, t) && self.y.lerp_fits(other.y, t)
    }

    proof fn lemma_unit_fits(self, other: Self, t: i64) {
        self.x.lemma_unit_fits(other.x, t);
        self.y.lemma_unit_fits(other.y, t);
        assert(self.lerp_fits(other, t) == (self.x.lerp_fits(other.x, t) && self.y.lerp_fits(
            other.y,
            t,
        )));
    }

    fn lerp(self, other: Self, t: i64) -> (r: Self) {
        assert(self.lerp_fits(other, t) == (self.x.lerp_fits(other.x, t) && self.y.lerp_fits(
            other.y,
            t,
        )));
        Vector2 { x: self.x.lerp(other.x, t), y: self.y.lerp(other.y, t) }
    }
}

/// Interpolating between two vectors inside a box stays inside the box.
pub proof fn lemma_lerp_within(a: Vector2, b: Vector2, t: i64, bound: int)
    requires
        0 <= t <= crate::util::fixed::SCALE,
        a.within(bound),
        b.within(bound),
    ensures
        a.lerp_value(b, t).within(bound),
        a.lerp_value(b, t).x == lerp_spec(a.x as int, b.x as int, t as int),
        a.lerp_value(b, t).y == lerp_spec(a.y as int, b.y as int, t as int),
{
    crate::util::lerp::lemma_lerp_between(a.x as int, b.x as int, t as int);
    crate::util::lerp::lemma_lerp_between(a.y as int, b.y as int, t as int);
}

} // verus!
