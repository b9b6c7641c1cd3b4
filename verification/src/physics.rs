//! The physics system: the sole mutator of position. Each tick it offsets
//! every moving entity's position by its speed along its direction.

use vstd::prelude::*;

use crate::components::{Direction, Point, Position, Velocity};
use crate::world::World;

verus! {

/// The x coordinate after one physics step, as a mathematical integer.
pub open spec fn moved_x(p: Position, v: Velocity) -> int {
    match v.direction {
        Direction::Left => p.0.x - v.speed,
        Direction::Right => p.0.x + v.speed,
        Direction::Up => p.0.x as int,
        Direction::Down => p.0.x as int,
    }
}

/// The y coordinate after one physics step, as a mathematical integer.
pub open spec fn moved_y(p: Position, v: Velocity) -> int {
    match v.direction {
        Direction::Left => p.0.y as int,
        Direction::Right => p.0.y as int,
        Direction::Up => p.0.y - v.speed,
        Direction::Down => p.0.y + v.speed,
    }
}

/// Both coordinates of the moved position still fit in pixel space.
pub open spec fn move_fits(p: Position, v: Velocity) -> bool {
    &&& i32::MIN <= moved_x(p, v) <= i32::MAX
    &&& i32::MIN <= moved_y(p, v) <= i32::MAX
}

/// The position after one physics step.
pub open spec fn position_after(p: Position, v: Velocity) -> Position {
    Position(Point { x: moved_x(p, v) as i32, y: moved_y(p, v) as i32 })
}

/// Every entity of the world that both moves and has a position can take
/// one physics step without leaving pixel space.
pub open spec fn world_move_fits(w: World) -> bool {
    forall|i: int|
        #![trigger w.positions@[i], w.velocities@[i]]
        0 <= i < w.len() && w.positions@[i] is Some && w.velocities@[i] is Some
            ==> move_fits(w.positions@[i]->Some_0, w.velocities@[i]->Some_0)
}

/// Offsets one entity's position by its velocity.
pub fn apply_velocity(p: &mut Position, v: &Velocity)
    requires
        move_fits(*old(p), *v),
    ensures
        *final(p) == position_after(*old(p), *v),
        v.speed == 0 ==> *final(p) == *old(p),
    {
    match v.direction {
        Direction::Left => p.0.x = p.0.x - v.speed,
        Direction::Right => p.0.x = p.0.x + v.speed,
        Direction::Up => p.0.y = p.0.y - v.speed,
        Direction::Down => p.0.y = p.0.y + v.speed,
    }
}

/// One physics step changes exactly one axis by exactly the speed —
/// right adds to x, left subtracts from x, down adds to y, up subtracts
/// from y — and a speed of 0 leaves the position unchanged.
pub proof fn lemma_physics_offset(p: Position, v: Velocity)
    requires
        move_fits(p, v),
    ensures
        v.direction == Direction::Right ==> position_after(p, v).0.x == p.0.x + v.speed
            && position_after(p, v).0.y == p.0.y,
        v.direction == Direction::Left ==> position_after(p, v).0.x == p.0.x - v.speed
            && position_after(p, v).0.y == p.0.y,
        v.direction == Direction::Down ==> position_after(p, v).0.y == p.0.y + v.speed
            && position_after(p, v).0.x == p.0.x,
        v.direction == Direction::Up ==> position_after(p, v).0.y == p.0.y - v.speed
            && position_after(p, v).0.x == p.0.x,
        v.speed == 0 ==> position_after(p, v) == p,
{
}

/// The physics system.
pub struct Physics;

impl Physics {
    /// Runs one physics step over the whole world: every entity with both
    /// a position and a velocity moves by [`position_after`]; everything
    /// else, and every other component, is untouched.
    pub fn run(&mut self, world: &mut World)
        requires
            old(world).wf(),
            world_move_fits(*old(world)),
        ensures
            final(world).wf(),
            final(world).len() == old(world).len(),
            final(world).velocities@ == old(world).velocities@,
            final(world).sprites@ == old(world).sprites@,
            final(world).animations@ == old(world).animations@,
            final(world).controlled@ == old(world).controlled@,
            forall|i: int|
                0 <= i < old(world).len() ==> #[trigger] final(world).positions@[i] == (
                if old(world).positions@[i] is Some && old(world).velocities@[i] is Some {
                    Some(
                        position_after(
                            old(world).positions@[i]->Some_0,
                            old(world).velocities@[i]->Some_0,
                        ),
                    )
                } else {
                    old(world).positions@[i]
                }),
    {
        let n = world.positions.len();
        let mut i: usize = 0;
        while i < n
            invariant
                world.wf(),
                n == world.len(),
                old(world).len() == n,
                i <= n,
                world.velocities@ == old(world).velocities@,
                world.sprites@ == old(world).sprites@,
                world.animations@ == old(world).animations@,
                world.controlled@ == old(world).controlled@,
                world_move_fits(*old(world)),
                forall|j: int|
                    i <= j < n ==> #[trigger] world.positions@[j] == old(world).positions@[j],
                forall|j: int|
                    0 <= j < i ==> #[trigger] world.positions@[j] == (
                    if old(world).positions@[j] is Some && old(world).velocities@[j] is Some {
                        Some(
                            position_after(
                                old(world).positions@[j]->Some_0,
                                old(world).velocities@[j]->Some_0,
                            ),
                        )
                    } else {
                        old(world).positions@[j]
                    }),
            decreases n - i,
        {
            match (world.positions[i], world.velocities[i]) {
                (Some(p), Some(v)) => {
                    proof {
                        assert(old(world).positions@[i as int] is Some);
                        assert(old(world).velocities@[i as int] is Some);
                    }
                    let mut moved = p;
                    apply_velocity(&mut moved, &v);
                    world.positions.set(i, Some(moved));
                },
                _ => {},
            }
            i = i + 1;
        }
    }
}

} // verus!
