//! Core logic of a 2D sprite-based game loop: component data model,
//! per-tick movement / animation systems over an entity-component world,
//! sprite-sheet frame selection, and the render-plan computation.
//!
//! Everything here is plain state transformation with contracts; the
//! windowing, event and drawing glue lives outside the library and talks
//! to it through plain values.

pub mod animator;
pub mod components;
pub mod game;
pub mod keyboard;
pub mod physics;
pub mod renderer;
pub mod world;

use vstd::prelude::*;

verus! {

} // verus!
