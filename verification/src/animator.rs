//! The animation system: while an entity moves, its frame index advances
//! cyclically through the frame sequence of its current direction, and the
//! drawable sprite is overwritten with the newly selected frame.

use vstd::prelude::*;

use crate::components::{Direction, MovementAnimation, Sprite, FRAMES_PER_DIRECTION};
use crate::world::World;

verus! {

/// The frame index shown after one animation step from index `c`.
pub open spec fn next_frame_index(c: int) -> int {
    (c + 1) % (FRAMES_PER_DIRECTION as int)
}

/// The animation record after one step while moving in direction `d`:
/// only the current frame index changes.
pub open spec fn animation_after(a: MovementAnimation, d: Direction) -> MovementAnimation {
    MovementAnimation {
        current_frame: next_frame_index(a.current_frame as int) as i32,
        up_frames: a.up_frames,
        down_frames: a.down_frames,
        left_frames: a.left_frames,
        right_frames: a.right_frames,
    }
}

/// The sprite drawn after one animation step while moving in direction
/// `d`: the newly selected frame of that direction's sequence.
pub open spec fn sprite_after(a: MovementAnimation, d: Direction) -> Sprite {
    a.frames_for(d)[next_frame_index(a.current_frame as int)]
}

/// Advances the frame index of `anim` one step for direction `direction`
/// and returns the frame now shown.
pub fn advance_animation(anim: &mut MovementAnimation, direction: Direction) -> (s: Sprite)
    requires
        old(anim).wf(),
    ensures
        *final(anim) == animation_after(*old(anim), direction),
        final(anim).wf(),
        s == sprite_after(*old(anim), direction),
{
    let frame_count: usize = match direction {
        Direction::Left => anim.left_frames.len(),
        Direction::Right => anim.right_frames.len(),
        Direction::Up => anim.up_frames.len(),
        Direction::Down => anim.down_frames.len(),
    };
    anim.current_frame = (anim.current_frame + 1) % (frame_count as i32);
    let idx = anim.current_frame as usize;
    match direction {
        Direction::Left => anim.left_frames[idx],
        Direction::Right => anim.right_frames[idx],
        Direction::Up => anim.up_frames[idx],
        Direction::Down => anim.down_frames[idx],
    }
}

/// The animation system.
pub struct Animator;

impl Animator {
    /// Runs one animation step over the whole world: every entity with an
    /// animation, a sprite and a nonzero-speed velocity advances by
    /// [`animation_after`] and shows [`sprite_after`]; everything else,
    /// and every other component, is untouched.
    pub fn run(&mut self, world: &mut World)
        requires
            old(world).wf(),
        ensures
            final(world).wf(),
            final(world).len() == old(world).len(),
            final(world).positions@ == old(world).positions@,
            final(world).velocities@ == old(world).velocities@,
            final(world).controlled@ == old(world).controlled@,
            forall|i: int|
                0 <= i < old(world).len() ==> #[trigger] final(world).animations@[i] == (
                if Self::animates(*old(world), i) {
                    Some(
                        animation_after(
                            old(world).animations@[i]->Some_0,
                            old(world).velocities@[i]->Some_0.direction,
                        ),
                    )
                } else {
                    old(world).animations@[i]
                }),
            forall|i: int|
                0 <= i < old(world).len() ==> #[trigger] final(world).sprites@[i] == (
                if Self::animates(*old(world), i) {
                    Some(
                        sprite_after(
                            old(world).animations@[i]->Some_0,
                            old(world).velocities@[i]->Some_0.direction,
                        ),
                    )
                } else {
                    old(world).sprites@[i]
                }),
    {
        let n = world.animations.len();
        let mut i: usize = 0;
        while i < n
            invariant
                world.wf(),
                n == world.len(),
                old(world).len() == n,
                i <= n,
                world.positions@ == old(world).positions@,
                world.velocities@ == old(world).velocities@,
                world.controlled@ == old(world).controlled@,
                forall|j: int|
                    i <= j < n ==> #[trigger] world.animations@[j] == old(world).animations@[j],
                forall|j: int|
                    i <= j < n ==> #[trigger] world.sprites@[j] == old(world).sprites@[j],
                forall|j: int|
                    0 <= j < i ==> #[trigger] world.animations@[j] == (
                    if Self::animates(*old(world), j) {
                        Some(
                            animation_after(
                                old(world).animations@[j]->Some_0,
                                old(world).velocities@[j]->Some_0.direction,
                            ),
                        )
                    } else {
                        old(world).animations@[j]
                    }),
                forall|j: int|
                    0 <= j < i ==> #[trigger] world.sprites@[j] == (
                    if Self::animates(*old(world), j) {
                        Some(
                            sprite_after(
                                old(world).animations@[j]->Some_0,
                                old(world).velocities@[j]->Some_0.direction,
                            ),
                        )
                    } else {
                        old(world).sprites@[j]
                    }),
            decreases n - i,
        {
            let has_sprite = match &world.sprites[i] {
                Some(_) => true,
                None => false,
            };
            match world.velocities[i] {
                Some(v) => {
                    if v.speed != 0 && has_sprite {
                        let mut shown: Option<Sprite> = None;
                        match &mut world.animations[i] {
                            Some(anim) => {
                                shown = Some(advance_animation(anim, v.direction));
                            },
                            None => {},
                        }
                        match shown {
                            Some(s) => {
                                world.sprites.set(i, Some(s));
                            },
                            None => {},
                        }
                    }
                },
                None => {},
            }
            i = i + 1;
        }
    }

    /// Whether entity `i` takes an animation step this tick: it needs an
    /// animation, a sprite, and a velocity with nonzero speed.
    pub open spec fn animates(w: World, i: int) -> bool {
        &&& w.animations@[i] is Some
        &&& w.sprites@[i] is Some
        &&& w.velocities@[i] is Some
        &&& w.velocities@[i]->Some_0.speed != 0
    }
}

/// The frame index after `n` animation steps starting from index `c0`.
pub open spec fn iterated_frame(c0: int, n: nat) -> int
    decreases n,
{
    if n == 0 {
        c0
    } else {
        next_frame_index(iterated_frame(c0, (n - 1) as nat))
    }
}

/// Repeated animation steps cycle the frame index through
/// 0, 1, 2, 0, 1, 2, ... — after `n` steps from `c0` the index is exactly
/// `(c0 + n) % 3`, so no value is ever held or skipped while moving.
pub proof fn lemma_animation_cycles(c0: int, n: nat)
    requires
        0 <= c0 < FRAMES_PER_DIRECTION,
    ensures
        iterated_frame(c0, n) == (c0 + n) % (FRAMES_PER_DIRECTION as int),
    decreases n,
{
    if n == 0 {
        assert(c0 % 3 == c0);
    } else {
        lemma_animation_cycles(c0, (n - 1) as nat);
        assert(((c0 + (n - 1)) % 3 + 1) % 3 == (c0 + n) % 3) by (nonlinear_arith);
    }
}

} // verus!
