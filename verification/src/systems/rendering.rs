//! Turns sprites into draw commands in screen space, one per tile.

use vstd::prelude::*;
use crate::components::{sprites_wf, transforms_wf, Sprite, Transform};
use crate::engine::camera::Camera;
use crate::engine::resources::{DrawCommand, Renderables};
use crate::engine::storage::{Entity, Storage};
use crate::util::fixed::{MAX_COORD, MAX_EXTENT, SCALE};
use crate::util::vector::Vector2;

verus! {

/// Where within a tile its position lies, in thousandths of the tile: the
/// middle.
pub const ANCHOR: i64 = 500;

/// Queues the draw commands of a frame for a window of a given size.
#[derive(Clone, Copy, Debug, PartialEq, Eq, Structural)]
pub struct RenderingSystem {
    pub width: i64,
    pub height: i64,
}

impl RenderingSystem {
    /// The window is no smaller than nothing and within the coordinate
    /// range.
    pub open spec fn wf(self) -> bool {
        0 <= self.width <= MAX_COORD && 0 <= self.height <= MAX_COORD
    }

    /// Tests that the window is no smaller than nothing and within the
    /// coordinate range.
    pub fn is_valid(&self) -> (r: bool)
        ensures
            r == self.wf(),
    {
        0 <= self.width && self.width <= MAX_COORD && 0 <= self.height && self.height <= MAX_COORD
    }

    /// A rendering system for a window of `width` by `height`.
    pub fn new(width: i64, height: i64) -> (r: RenderingSystem)
        ensures
            r == (RenderingSystem { width, height }),
    {
        RenderingSystem { width, height }
    }

    /// Half of a window extent in world units at a zoom.
    pub open spec fn half_view(extent: int, zoom: int) -> int {
        extent * SCALE / (2 * zoom)
    }

    /// Where tile (`cx`, `cy`) of a sprite lands on screen: the entity's
    /// position, mirrored vertically, moved on by whole tiles, seen from the
    /// camera, with the origin in the middle of the window.
    pub open spec fn dest_spec(
        self,
        sprite: Sprite,
        transform: Transform,
        camera: Camera,
        cx: int,
        cy: int,
    ) -> (int, int) {
        (
            transform.position.x + cx * sprite.width - camera.position.x + Self::half_view(
                self.width as int,
                camera.zoom as int,
            ),
            -transform.position.y + cy * sprite.height + camera.position.y + Self::half_view(
                self.height as int,
                camera.zoom as int,
            ),
        )
    }

    /// The draw command of tile (`cx`, `cy`) of a sprite.
    pub open spec fn tile_spec(
        self,
        sprite: Sprite,
        transform: Transform,
        camera: Camera,
        cx: int,
        cy: int,
    ) -> DrawCommand {
        let dest = self.dest_spec(sprite, transform, camera, cx, cy);
        DrawCommand {
            src: sprite.src,
            dest: Vector2 { x: dest.0 as i64, y: dest.1 as i64 },
            scale: transform.scale,
            offset: Vector2 { x: ANCHOR, y: ANCHOR },
            rotation: transform.rotation,
        }
    }

    /// The draw commands of one sprite: one per tile, column by column.
    pub open spec fn tiles(self, sprite: Sprite, transform: Transform, camera: Camera) -> Seq<
        DrawCommand,
    > {
        Seq::new(
            (sprite.repeat.x * sprite.repeat.y) as nat,
            |k: int|
                self.tile_spec(
                    sprite,
                    transform,
                    camera,
                    k / (sprite.repeat.y as int),
                    k % (sprite.repeat.y as int),
                ),
        )
    }

    /// Whether entity `e` is drawn: it has a sprite and a transform.
    pub open spec fn shows(sprites: Map<int, Sprite>, transforms: Map<int, Transform>, e: int) -> bool {
        sprites.contains_key(e) && transforms.contains_key(e)
    }

    /// The draw commands of the entities below `n`, in entity order.
    pub open spec fn drawn(
        self,
        sprites: Map<int, Sprite>,
        transforms: Map<int, Transform>,
        camera: Camera,
        n: int,
    ) -> Seq<DrawCommand>
        decreases n,
    {
        if n <= 0 {
            Seq::empty()
        } else {
            let before = self.drawn(sprites, transforms, camera, n - 1);
            if Self::shows(sprites, transforms, n - 1) {
                before + self.tiles(sprites[n - 1], transforms[n - 1], camera)
            } else {
                before
            }
        }
    }

    /// A sprite that repeats `x` by `y` times gives `x * y` draw commands,
    /// and the one of tile (`i`, `j`) lies `i` tile widths and `j` tile
    /// heights from the one of the first tile.
    pub proof fn lemma_tiles_grid(
        self,
        sprite: Sprite,
        transform: Transform,
        camera: Camera,
        i: int,
        j: int,
    )
        requires
            self.wf(),
            sprite.wf(),
            transform.wf(),
            camera.wf(),
            0 <= i < sprite.repeat.x,
            0 <= j < sprite.repeat.y,
        ensures
            self.tiles(sprite, transform, camera).len() == sprite.repeat.x * sprite.repeat.y,
            0 <= i * sprite.repeat.y + j < sprite.repeat.x * sprite.repeat.y,
            self.tiles(sprite, transform, camera)[i * sprite.repeat.y + j] == self.tile_spec(
                sprite,
                transform,
                camera,
                i,
                j,
            ),
            self.tiles(sprite, transform, camera)[i * sprite.repeat.y + j].dest.x == self.tiles(
                sprite,
                transform,
                camera,
            )[0].dest.x + i * sprite.width,
            self.tiles(sprite, transform, camera)[i * sprite.repeat.y + j].dest.y == self.tiles(
                sprite,
                transform,
                camera,
            )[0].dest.y + j * sprite.height,
    {
        let ry = sprite.repeat.y as int;
        let rx = sprite.repeat.x as int;
        let k = i * ry + j;
        lemma_cell_index(rx, ry, i, j);
        lemma_cell_index(rx, ry, 0, 0);
        self.lemma_dest_fits(sprite, transform, camera, i, j);
        self.lemma_dest_fits(sprite, transform, camera, 0, 0);
        assert(0 * sprite.width == 0 && 0 * sprite.height == 0);
    }

    /// Within the ranges of the types every tile lands inside the range of a
    /// coordinate on screen.
    pub proof fn lemma_dest_fits(
        self,
        sprite: Sprite,
        transform: Transform,
        camera: Camera,
        cx: int,
        cy: int,
    )
        requires
            self.wf(),
            sprite.wf(),
            transform.wf(),
            camera.wf(),
            0 <= cx <= u32::MAX,
            0 <= cy <= u32::MAX,
        ensures
            -MAX_EXTENT * 0x1_0000_0000 <= cx * sprite.width <= MAX_EXTENT * 0x1_0000_0000,
            -MAX_EXTENT * 0x1_0000_0000 <= cy * sprite.height <= MAX_EXTENT * 0x1_0000_0000,
            0 <= Self::half_view(self.width as int, camera.zoom as int) <= MAX_COORD * SCALE,
            0 <= Self::half_view(self.height as int, camera.zoom as int) <= MAX_COORD * SCALE,
            i64::MIN <= self.dest_spec(sprite, transform, camera, cx, cy).0 <= i64::MAX,
            i64::MIN <= self.dest_spec(sprite, transform, camera, cx, cy).1 <= i64::MAX,
    {
        assert(-MAX_EXTENT * 0x1_0000_0000 <= cx * sprite.width <= MAX_EXTENT * 0x1_0000_0000)
            by (nonlinear_arith)
            requires
                0 <= cx <= 0xffff_ffff,
                -MAX_EXTENT <= sprite.width <= MAX_EXTENT,
        ;
        assert(-MAX_EXTENT * 0x1_0000_0000 <= cy * sprite.height <= MAX_EXTENT * 0x1_0000_0000)
            by (nonlinear_arith)
            requires
                0 <= cy <= 0xffff_ffff,
                -MAX_EXTENT <= sprite.height <= MAX_EXTENT,
        ;
        lemma_half_view(self.width as int, camera.zoom as int);
        lemma_half_view(self.height as int, camera.zoom as int);
    }

    /// Computes the draw command of tile (`cx`, `cy`) of a sprite.
    pub fn tile(&self, sprite: &Sprite, transform: &Transform, camera: &Camera, cx: u32, cy: u32) -> (command:
        DrawCommand)
        requires
            self.wf(),
            sprite.wf(),
            transform.wf(),
            camera.wf(),
        ensures
            command == self.tile_spec(*sprite, *transform, *camera, cx as int, cy as int),
    {
        proof {
            self.lemma_dest_fits(*sprite, *transform, *camera, cx as int, cy as int);
        }
        let pos_x: i64 = transform.position.x + (cx as i64) * sprite.width;
        let pos_y: i64 = -transform.position.y + (cy as i64) * sprite.height;
        let half_width: i64 = self.width * SCALE / (2 * camera.zoom);
        let half_height: i64 = self.height * SCALE / (2 * camera.zoom);
        DrawCommand {
            src: sprite.src,
            dest: Vector2 {
                x: (pos_x - camera.position.x) + half_width,
                y: (pos_y + camera.position.y) + half_height,
            },
            scale: transform.scale,
            offset: Vector2 { x: ANCHOR, y: ANCHOR },
            rotation: transform.rotation,
        }
    }

    /// Queues one draw command per tile of every entity that has a sprite and
    /// a transform, entity by entity, behind what the queue already holds.
    pub fn run(
        &mut self,
        sprites: &Storage<Sprite>,
        transforms: &Storage<Transform>,
        renderables: &mut Renderables,
        camera: &Camera,
    )
        requires
            old(self).wf(),
            camera.wf(),
            sprites_wf(sprites@),
            transforms_wf(transforms@),
        ensures
            *final(self) == *old(self),
            final(renderables).0@ == old(renderables).0@ + old(self).drawn(
                sprites@,
                transforms@,
                *camera,
                sprites.spec_len() as int,
            ),
    {
        let n = sprites.len();
        let mut i: usize = 0;
        while i < n
            invariant
                i <= n,
                n == sprites.spec_len(),
                *self == *old(self),
                self.wf(),
                camera.wf(),
                sprites_wf(sprites@),
                transforms_wf(transforms@),
                renderables.0@ == old(renderables).0@ + self.drawn(
                    sprites@,
                    transforms@,
                    *camera,
                    i as int,
                ),
            decreases n - i,
        {
            let entity = Entity { id: i };
            if let (Some(sprite), Some(transform)) = (sprites.get(entity), transforms.get(entity)) {
                let ghost before = renderables.0@;
                let ghost all = self.tiles(sprite, transform, *camera);
                let ghost ry = sprite.repeat.y as int;
                let ghost rx = sprite.repeat.x as int;
                let mut count_x: u32 = 0;
                while count_x < sprite.repeat.x
                    invariant
                        count_x <= sprite.repeat.x,
                        self.wf(),
                        camera.wf(),
                        sprite.wf(),
                        transform.wf(),
                        ry == sprite.repeat.y,
                        rx == sprite.repeat.x,
                        all == self.tiles(sprite, transform, *camera),
                        0 <= count_x * ry <= rx * ry,
                        renderables.0@ == before + all.take(count_x * ry),
                    decreases sprite.repeat.x - count_x,
                {
                    let mut count_y: u32 = 0;
                    while count_y < sprite.repeat.y
                        invariant
                            count_x < sprite.repeat.x,
                            count_y <= sprite.repeat.y,
                            self.wf(),
                            camera.wf(),
                            sprite.wf(),
                            transform.wf(),
                            ry == sprite.repeat.y,
                            rx == sprite.repeat.x,
                            all == self.tiles(sprite, transform, *camera),
                            0 <= count_x * ry + count_y <= rx * ry,
                            renderables.0@ == before + all.take(count_x * ry + count_y),
                        decreases sprite.repeat.y - count_y,
                    {
                        let command = self.tile(&sprite, &transform, camera, count_x, count_y);
                        proof {
                            lemma_cell_index(rx, ry, count_x as int, count_y as int);
                            let k = count_x * ry + count_y;
                            assert(all[k] == command);
                            assert(all.take(k + 1) =~= all.take(k).push(command));
                        }
                        renderables.0.push_back(command);
                        assert(renderables.0@ =~= before + all.take(
                            count_x * ry + count_y + 1,
                        ));
                        count_y += 1;
                    }
                    proof {
                        assert((count_x + 1) * ry == count_x * ry + ry) by (nonlinear_arith);
                    }
                    count_x += 1;
                }
                assert(all.take(rx * ry) =~= all);
            }
            i += 1;
        }
    }
}

/// The tile in column `i` and row `j` of a grid of `rx` by `ry` has the index
/// `i * ry + j`, and the index gives the column and the row back.
proof fn lemma_cell_index(rx: int, ry: int, i: int, j: int)
    requires
        0 <= i < rx,
        0 <= j < ry,
    ensures
        0 <= i * ry + j < rx * ry,
        (i * ry + j) / ry == i,
        (i * ry + j) % ry == j,
{
    assert(0 <= i * ry && (i + 1) * ry <= rx * ry && (i + 1) * ry == i * ry + ry)
        by (nonlinear_arith)
        requires
            0 <= i < rx,
            0 < ry,
    ;
    vstd::arithmetic::div_mod::lemma_fundamental_div_mod_converse(i * ry + j, ry, i, j);
}

/// Half of a window extent in world units is no more than the extent at the
/// smallest zoom.
proof fn lemma_half_view(extent: int, zoom: int)
    requires
        0 <= extent <= MAX_COORD,
        1 <= zoom,
    ensures
        0 <= RenderingSystem::half_view(extent, zoom) <= MAX_COORD * SCALE,
{
    let n = extent * SCALE;
    let d = 2 * zoom;
    vstd::arithmetic::div_mod::lemma_div_pos_is_pos(n, d);
    vstd::arithmetic::div_mod::lemma_div_is_ordered_by_denominator(n, 1, d);
    vstd::arithmetic::div_mod::lemma_div_basics(n);
}

} // verus!
