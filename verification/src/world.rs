//! The entity-component store: one array per component kind, indexed by a
//! stable entity identifier. An entity is simply an index; it carries a
//! component exactly where the matching slot holds `Some`.

use vstd::prelude::*;

use crate::components::{MovementAnimation, Position, Sprite, Velocity};

verus! {

/// The world owns every component. Systems borrow it for one update.
///
/// All five arrays always have the same length: one slot per entity.
/// Entities are created at startup and never removed.
pub struct World {
    pub positions: Vec<Option<Position>>,
    pub velocities: Vec<Option<Velocity>>,
    pub sprites: Vec<Option<Sprite>>,
    pub animations: Vec<Option<MovementAnimation>>,
    /// Marks the entities that respond to movement commands.
    pub controlled: Vec<bool>,
}

impl World {
    /// Number of entities in the world.
    pub open spec fn len(self) -> nat {
        self.positions@.len()
    }

    /// The structural invariant: the component arrays run in parallel,
    /// every animation is well formed, and no entity moves backwards
    /// (speeds are never negative).
    pub open spec fn wf(self) -> bool {
        &&& self.velocities@.len() == self.len()
        &&& self.sprites@.len() == self.len()
        &&& self.animations@.len() == self.len()
        &&& self.controlled@.len() == self.len()
        &&& forall|i: int|
            0 <= i < self.len() && self.animations@[i] is Some
                ==> (#[trigger] self.animations@[i])->Some_0.wf()
        &&& forall|i: int|
            0 <= i < self.len() && self.velocities@[i] is Some
                ==> (#[trigger] self.velocities@[i])->Some_0.speed >= 0
    }

    /// Creates an empty world.
    pub fn new() -> (w: World)
        ensures
            w.wf(),
            w.len() == 0,
    {
        World {
            positions: Vec::new(),
            velocities: Vec::new(),
            sprites: Vec::new(),
            animations: Vec::new(),
            controlled: Vec::new(),
        }
    }

    /// Adds one entity with the given components and returns its
    /// identifier. Existing entities are untouched.
    pub fn add_entity(
        &mut self,
        position: Option<Position>,
        velocity: Option<Velocity>,
        sprite: Option<Sprite>,
        animation: Option<MovementAnimation>,
        controlled: bool,
    ) -> (id: usize)
        requires
            old(self).wf(),
            animation is Some ==> animation->Some_0.wf(),
            velocity is Some ==> velocity->Some_0.speed >= 0,
        ensures
            final(self).wf(),
            id == old(self).len(),
            final(self).len() == old(self).len() + 1,
            final(self).positions@ == old(self).positions@.push(position),
            final(self).velocities@ == old(self).velocities@.push(velocity),
            final(self).sprites@ == old(self).sprites@.push(sprite),
            final(self).animations@ == old(self).animations@.push(animation),
            final(self).controlled@ == old(self).controlled@.push(controlled),
    {
        let id = self.positions.len();
        self.positions.push(position);
        self.velocities.push(velocity);
        self.sprites.push(sprite);
        self.animations.push(animation);
        self.controlled.push(controlled);
        id
    }
}

} // verus!
