//! The renderer's pure half: from the world and the output size it
//! computes the draw plan of one frame — the clear color plus one copy
//! operation per visible entity. Executing the plan against a real
//! canvas is left to the platform glue outside the library.

use vstd::prelude::*;

use crate::components::{Color, Position, Rect, Sprite};
use crate::world::World;

verus! {

/// One texture copy: blit `src` of sheet `sprite_sheet` onto the output
/// at `dst`.
#[derive(Clone, Copy, Debug, PartialEq, Eq, Structural)]
pub struct CopyOp {
    pub sprite_sheet: usize,
    pub src: Rect,
    pub dst: Rect,
}

/// Everything one frame draws, in order: clear to `clear_color`, then
/// perform every operation of `ops`, then present.
#[derive(Clone, Debug)]
pub struct DrawPlan {
    pub clear_color: Color,
    pub ops: Vec<CopyOp>,
}

/// Horizontal screen coordinate of an entity's sprite: the sprite is
/// centered on the entity position shifted right by half the output
/// width.
pub open spec fn dst_x(p: Position, s: Sprite, width: u32) -> int {
    p.0.x + width / 2 - s.region.width / 2
}

/// Vertical screen coordinate of an entity's sprite: the sprite is
/// centered on the entity position shifted down by a third of the output
/// height. (One deliberate convention: a third, not the midpoint.)
pub open spec fn dst_y(p: Position, s: Sprite, height: u32) -> int {
    p.0.y + height / 3 - s.region.height / 2
}

/// Both screen coordinates of the sprite fit in pixel space.
pub open spec fn op_fits(p: Position, s: Sprite, width: u32, height: u32) -> bool {
    &&& i32::MIN <= dst_x(p, s, width) <= i32::MAX
    &&& i32::MIN <= dst_y(p, s, height) <= i32::MAX
}

/// The copy operation that draws sprite `s` of an entity standing at `p`
/// on an output of the given size.
pub open spec fn copy_op_for(p: Position, s: Sprite, width: u32, height: u32) -> CopyOp {
    CopyOp {
        sprite_sheet: s.sprite_sheet,
        src: s.region,
        dst: Rect {
            x: dst_x(p, s, width) as i32,
            y: dst_y(p, s, height) as i32,
            width: s.region.width,
            height: s.region.height,
        },
    }
}

/// Every entity of the world that has both a position and a sprite can
/// be drawn on an output of the given size without leaving pixel space.
pub open spec fn world_render_fits(w: World, width: u32, height: u32) -> bool {
    forall|i: int|
        #![trigger w.positions@[i], w.sprites@[i]]
        0 <= i < w.len() && w.positions@[i] is Some && w.sprites@[i] is Some ==> op_fits(
            w.positions@[i]->Some_0,
            w.sprites@[i]->Some_0,
            width,
            height,
        )
}

/// The copy operations for the first `n` entities, in entity order,
/// skipping entities without a position or without a sprite.
pub open spec fn render_ops_prefix(
    positions: Seq<Option<Position>>,
    sprites: Seq<Option<Sprite>>,
    width: u32,
    height: u32,
    n: int,
) -> Seq<CopyOp>
    decreases n,
{
    if n <= 0 {
        Seq::empty()
    } else {
        let rest = render_ops_prefix(positions, sprites, width, height, n - 1);
        if positions[n - 1] is Some && sprites[n - 1] is Some {
            rest.push(
                copy_op_for(positions[n - 1]->Some_0, sprites[n - 1]->Some_0, width, height),
            )
        } else {
            rest
        }
    }
}

/// The copy operations of one frame, over the whole world.
pub open spec fn render_ops(w: World, width: u32, height: u32) -> Seq<CopyOp> {
    render_ops_prefix(w.positions@, w.sprites@, width, height, w.len() as int)
}

/// Computes the draw plan of one frame: clear to `color`, then draw
/// every entity with a position and a sprite, centered per [`dst_x`] and
/// [`dst_y`], at the sprite's native size.
pub fn render(color: Color, width: u32, height: u32, world: &World) -> (plan: DrawPlan)
    requires
        world.wf(),
        width <= i32::MAX,
        height <= i32::MAX,
        world_render_fits(*world, width, height),
    ensures
        plan.clear_color == color,
        plan.ops@ == render_ops(*world, width, height),
{
    let n = world.positions.len();
    let mut ops: Vec<CopyOp> = Vec::new();
    let mut i: usize = 0;
    while i < n
        invariant
            world.wf(),
            n == world.len(),
            i <= n,
            width <= i32::MAX,
            height <= i32::MAX,
            world_render_fits(*world, width, height),
            ops@ == render_ops_prefix(world.positions@, world.sprites@, width, height, i as int),
        decreases n - i,
    {
        match (world.positions[i], world.sprites[i]) {
            (Some(p), Some(s)) => {
                let dx64: i64 = p.0.x as i64 + (width / 2) as i64 - (s.region.width / 2) as i64;
                let dy64: i64 = p.0.y as i64 + (height / 3) as i64 - (s.region.height / 2) as i64;
                ops.push(
                    CopyOp {
                        sprite_sheet: s.sprite_sheet,
                        src: s.region,
                        dst: Rect {
                            x: dx64 as i32,
                            y: dy64 as i32,
                            width: s.region.width,
                            height: s.region.height,
                        },
                    },
                );
            },
            _ => {},
        }
        i = i + 1;
    }
    DrawPlan { clear_color: color, ops }
}

} // verus!
