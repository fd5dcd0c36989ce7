//! The camera: where it looks, how far it zooms, and where it is headed.

use vstd::prelude::*;
use crate::util::fixed::MAX_COORD;
use crate::util::lerp::{lemma_lerp_between, lerp_spec, smooth, Lerp};
use crate::util::vector::Vector2;

verus! {

/// The fraction of the remaining distance that the camera covers per tick,
/// in thousandths.
pub const SMOOTHING: i64 = 300;

/// The zoom of a new camera, in thousandths.
pub const DEFAULT_ZOOM: i64 = 4000;

/// Largest zoom, in thousandths.
pub const MAX_ZOOM: i64 = 1_000_000;

/// Smoothed view state: the current position and zoom move toward their
/// targets a fixed fraction of the way each tick.
#[derive(Clone, Copy, Debug, PartialEq, Eq, Structural)]
pub struct Camera {
    pub position: Vector2,
    pub zoom: i64,
    pub target_position: Vector2,
    pub target_zoom: i64,
}

impl Camera {
    /// Whether `zoom` is a zoom that a camera can have.
    pub open spec fn zoom_ok(zoom: int) -> bool {
        1 <= zoom <= MAX_ZOOM
    }

    /// Positions are within the coordinate range and zooms are positive and
    /// within the zoom range.
    pub open spec fn wf(self) -> bool {
        &&& self.position.within(MAX_COORD as int)
        &&& self.target_position.within(MAX_COORD as int)
        &&& Self::zoom_ok(self.zoom as int)
        &&& Self::zoom_ok(self.target_zoom as int)
    }

    /// Tests that positions and zooms are within their ranges.
    pub fn is_valid(&self) -> (r: bool)
        ensures
            r == self.wf(),
    {
        self.position.is_within(MAX_COORD) && self.target_position.is_within(MAX_COORD) && 1
            <= self.zoom && self.zoom <= MAX_ZOOM && 1 <= self.target_zoom && self.target_zoom
            <= MAX_ZOOM
    }

    /// A camera at the origin at the default zoom, at rest.
    pub open spec fn default_spec() -> Camera {
        Camera {
            position: Vector2 { x: 0, y: 0 },
            zoom: DEFAULT_ZOOM,
            target_position: Vector2 { x: 0, y: 0 },
            target_zoom: DEFAULT_ZOOM,
        }
    }

    /// The camera after one tick of smoothing.
    pub open spec fn smoothed(self) -> Camera {
        Camera {
            position: Vector2 {
                x: lerp_spec(
                    self.position.x as int,
                    self.target_position.x as int,
                    SMOOTHING as int,
                ) as i64,
                y: lerp_spec(
                    self.position.y as int,
                    self.target_position.y as int,
                    SMOOTHING as int,
                ) as i64,
            },
            zoom: lerp_spec(self.zoom as int, self.target_zoom as int, SMOOTHING as int) as i64,
            ..self
        }
    }

    /// Smoothing never overshoots: on each axis the new position lies
    /// between the old one and the target, and so does the zoom.
    pub proof fn lemma_smoothed_between(self)
        ensures
            self.position.x <= self.target_position.x ==> self.position.x
                <= self.smoothed().position.x <= self.target_position.x,
            self.position.x >= self.target_position.x ==> self.position.x
                >= self.smoothed().position.x >= self.target_position.x,
            self.position.y <= self.target_position.y ==> self.position.y
                <= self.smoothed().position.y <= self.target_position.y,
            self.position.y >= self.target_position.y ==> self.position.y
                >= self.smoothed().position.y >= self.target_position.y,
            self.zoom <= self.target_zoom ==> self.zoom <= self.smoothed().zoom
                <= self.target_zoom,
            self.zoom >= self.target_zoom ==> self.zoom >= self.smoothed().zoom
                >= self.target_zoom,
            self.wf() ==> self.smoothed().wf(),
    {
        lemma_lerp_between(
            self.position.x as int,
            self.target_position.x as int,
            SMOOTHING as int,
        );
        lemma_lerp_between(
            self.position.y as int,
            self.target_position.y as int,
            SMOOTHING as int,
        );
        lemma_lerp_between(self.zoom as int, self.target_zoom as int, SMOOTHING as int);
    }

    /// The camera after `n` ticks of smoothing with its targets left alone.
    pub open spec fn after(self, n: nat) -> Camera
        decreases n,
    {
        if n == 0 {
            self
        } else {
            self.after((n - 1) as nat).smoothed()
        }
    }

    /// Over `n` ticks with the targets left alone, position and zoom each run
    /// through `n` rounds of smoothing toward their target. So each stays on
    /// its side of the target, and by `lemma_smooth_gap` its gap to the
    /// target shrinks by the factor one less `SMOOTHING` per tick, up to the
    /// rounding.
    pub proof fn lemma_after(self, n: nat)
        ensures
            self.after(n).target_position == self.target_position,
            self.after(n).target_zoom == self.target_zoom,
            self.after(n).position.x == smooth(
                self.position.x as int,
                self.target_position.x as int,
                SMOOTHING as int,
                n,
            ),
            self.after(n).position.y == smooth(
                self.position.y as int,
                self.target_position.y as int,
                SMOOTHING as int,
                n,
            ),
            self.after(n).zoom == smooth(
                self.zoom as int,
                self.target_zoom as int,
                SMOOTHING as int,
                n,
            ),
            self.wf() ==> self.after(n).wf(),
        decreases n,
    {
        if n > 0 {
            let before = self.after((n - 1) as nat);
            self.lemma_after((n - 1) as nat);
            before.lemma_smoothed_between();
        }
    }

    /// Points the camera at `position`; it will move there over the
    /// following ticks.
    pub fn set_target(&mut self, position: &Vector2)
        ensures
            *final(self) == (Camera { target_position: *position, ..*old(self) }),
    {
        self.target_position = *position;
    }

    /// Sets the zoom at once; it then drifts back toward the target zoom.
    pub fn set_zoom(&mut self, zoom: i64)
        ensures
            *final(self) == (Camera { zoom, ..*old(self) }),
    {
        self.zoom = zoom;
    }

    /// One tick of smoothing: position and zoom each move toward their
    /// target by `SMOOTHING` of the remaining distance, never past it.
    pub fn update(&mut self)
        ensures
            *final(self) == old(self).smoothed(),
            old(self).wf() ==> final(self).wf(),
    {
        let ratio: i64 = SMOOTHING;
        proof {
            self.lemma_smoothed_between();
        }
        self.position.x = self.position.x.lerp_bounded(self.target_position.x, ratio);
        self.position.y = self.position.y.lerp_bounded(self.target_position.y, ratio);
        self.zoom = self.zoom.lerp_bounded(self.target_zoom, ratio);
    }
}

impl Default for Camera {
    fn default() -> (c: Camera)
        ensures
            c == Camera::default_spec(),
            c.wf(),
    {
        Camera {
            position: Vector2 { x: 0, y: 0 },
            zoom: DEFAULT_ZOOM,
            target_zoom: DEFAULT_ZOOM,
            target_position: Vector2 { x: 0, y: 0 },
        }
    }
}

} // verus!
