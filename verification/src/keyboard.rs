//! The keyboard system: applies the tick's movement command to every
//! entity that is marked as controlled.

use vstd::prelude::*;

use crate::components::Velocity;
use crate::game::{MovementCommand, PLAYER_MOVEMENT_SPEED};
use crate::world::World;

verus! {

/// The velocity of an entity after the command of one tick is applied.
///
/// Only controlled entities react. A movement command sets the fixed
/// movement speed and the commanded direction; a stop command zeroes the
/// speed and keeps the facing; no command leaves the velocity unchanged.
pub open spec fn velocity_after_command(
    cmd: Option<MovementCommand>,
    controlled: bool,
    v: Velocity,
) -> Velocity {
    if controlled {
        match cmd {
            Some(MovementCommand::Move(d)) => Velocity {
                speed: PLAYER_MOVEMENT_SPEED,
                direction: d,
            },
            Some(MovementCommand::Stop) => Velocity { speed: 0, direction: v.direction },
            None => v,
        }
    } else {
        v
    }
}

/// The keyboard system.
pub struct Keyboard;

impl Keyboard {
    /// Applies `command` to the whole world: every entity with a velocity
    /// gets [`velocity_after_command`]; every other component is
    /// untouched.
    pub fn run(&mut self, world: &mut World, command: &Option<MovementCommand>)
        requires
            old(world).wf(),
        ensures
            final(world).wf(),
            final(world).len() == old(world).len(),
            final(world).positions@ == old(world).positions@,
            final(world).sprites@ == old(world).sprites@,
            final(world).animations@ == old(world).animations@,
            final(world).controlled@ == old(world).controlled@,
            forall|i: int|
                0 <= i < old(world).len() ==> #[trigger] final(world).velocities@[i] == (
                if old(world).velocities@[i] is Some {
                    Some(
                        velocity_after_command(
                            *command,
                            old(world).controlled@[i],
                            old(world).velocities@[i]->Some_0,
                        ),
                    )
                } else {
                    old(world).velocities@[i]
                }),
    {
        let n = world.velocities.len();
        let mut i: usize = 0;
        while i < n
            invariant
                world.wf(),
                n == world.len(),
                old(world).len() == n,
                i <= n,
                world.positions@ == old(world).positions@,
                world.sprites@ == old(world).sprites@,
                world.animations@ == old(world).animations@,
                world.controlled@ == old(world).controlled@,
                forall|j: int|
                    i <= j < n ==> #[trigger] world.velocities@[j] == old(world).velocities@[j],
                forall|j: int|
                    0 <= j < i ==> #[trigger] world.velocities@[j] == (
                    if old(world).velocities@[j] is Some {
                        Some(
                            velocity_after_command(
                                *command,
                                old(world).controlled@[j],
                                old(world).velocities@[j]->Some_0,
                            ),
                        )
                    } else {
                        old(world).velocities@[j]
                    }),
            decreases n - i,
        {
            match world.velocities[i] {
                Some(v) => {
                    if world.controlled[i] {
                        match command {
                            Some(MovementCommand::Move(d)) => {
                                world.velocities.set(
                                    i,
                                    Some(
                                        Velocity { speed: PLAYER_MOVEMENT_SPEED, direction: *d },
                                    ),
                                );
                            },
                            Some(MovementCommand::Stop) => {
                                world.velocities.set(
                                    i,
                                    Some(Velocity { speed: 0, direction: v.direction }),
                                );
                            },
                            None => {},
                        }
                    }
                },
                None => {},
            }
            i = i + 1;
        }
    }
}

} // verus!
